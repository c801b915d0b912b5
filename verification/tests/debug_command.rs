use lighthouse::commands::debug_command::{
    create_info_code_block, debug_info_response, handle_debug_command, info_code_block,
    info_response, HostMetrics, ADMINISTRATOR_ID, INFO_COLOR,
};
use lighthouse::commands::unimplemented_subcommand_response;
use lighthouse::events::interaction_create::error_response;
use lighthouse::model::{CommandData, CommandDataOption, Interaction, InteractionData};
use lighthouse::response::{
    Embed, EmbedValidationError, InteractionResponse, InteractionResponseType, EPHEMERAL,
};
use lighthouse::{CommandError, PermissionsError};

fn command(name: &str, subcommand: Option<&str>) -> CommandData {
    CommandData {
        name: name.to_string(),
        options: match subcommand {
            Some(subcommand) => vec![CommandDataOption {
                name: subcommand.to_string(),
                options: Vec::new(),
            }],
            None => Vec::new(),
        },
    }
}

fn interaction(author_id: Option<u64>, data: &CommandData) -> Interaction {
    Interaction {
        id: 11,
        application_id: 22,
        token: "token".to_string(),
        author_id,
        data: Some(InteractionData::ApplicationCommand(CommandData {
            name: data.name.clone(),
            options: Vec::new(),
        })),
    }
}

fn metrics() -> HostMetrics {
    HostMetrics {
        os_version: Some("Linux 22.04 Ubuntu".to_string()),
        cpu_model: "AMD Ryzen 7 5800X 8-Core Processor".to_string(),
        physical_cores: Some(8),
        process_memory: Some(52_428_800),
    }
}

#[test]
fn code_block_has_the_exact_text() {
    let expected = "```ansi\n\
        \u{1b}[0;42mSystem Information                   \u{1b}[0m\n\
        \u{1b}[0;37mOS: \u{1b}[0mLinux 22.04 Ubuntu\n\
        \u{1b}[0;37mCPU Model: \u{1b}[0mAMD Ryzen 7 5800X 8-Core Processor\n\
        \u{1b}[0;37mTotal CPU Cores: \u{1b}[0m8\n\
        \n\
        \u{1b}[0;42mProcess Stats                        \u{1b}[0m\n\
        \u{1b}[0;37mMemory Usage: \u{1b}[0m52MB\n\
        ```";
    assert_eq!(info_code_block(&metrics()), Ok(expected.to_string()));
}

#[test]
fn code_block_headings_are_padded_to_one_width() {
    let block = info_code_block(&metrics()).unwrap();
    let lines: Vec<&str> = block.lines().collect();
    assert_eq!(lines.len(), 9);
    assert_eq!(lines[1].len(), "\u{1b}[0;42m".len() + 37 + "\u{1b}[0m".len());
    assert_eq!(lines[6].len(), lines[1].len());
    assert_eq!(lines[5], "");
}

#[test]
fn code_block_shows_unknown_for_what_the_host_hides() {
    let block = info_code_block(&HostMetrics {
        os_version: None,
        cpu_model: String::new(),
        physical_cores: None,
        process_memory: Some(0),
    })
    .unwrap();
    assert!(block.contains("\u{1b}[0;37mOS: \u{1b}[0mUnknown\n"));
    assert!(block.contains("\u{1b}[0;37mCPU Model: \u{1b}[0m\n"));
    assert!(block.contains("\u{1b}[0;37mTotal CPU Cores: \u{1b}[0mUnknown\n"));
    assert!(block.contains("\u{1b}[0;37mMemory Usage: \u{1b}[0m0MB\n"));
}

#[test]
fn code_block_memory_is_in_whole_megabytes() {
    let mut host = metrics();
    host.process_memory = Some(999_999);
    assert!(info_code_block(&host).unwrap().contains("m0MB\n"));
    host.process_memory = Some(1_000_000);
    assert!(info_code_block(&host).unwrap().contains("m1MB\n"));
    host.process_memory = Some(1_999_999);
    assert!(info_code_block(&host).unwrap().contains("m1MB\n"));
    host.process_memory = Some(u64::MAX);
    assert!(info_code_block(&host).unwrap().contains("m18446744073709MB\n"));
}

#[test]
fn code_block_has_206_characters_of_its_own() {
    let host = metrics();
    let block = info_code_block(&host).unwrap();
    let shown = host.os_version.clone().unwrap().len() + host.cpu_model.len() + "8".len() + "52".len();
    assert_eq!(block.len(), 206 + shown);
    assert_eq!(block.chars().count(), 206 + shown);
}

#[test]
fn card_is_built_up_to_3850_bytes_of_names() {
    let host = HostMetrics {
        os_version: Some("o".repeat(3000)),
        cpu_model: "c".repeat(850),
        physical_cores: Some(u64::MAX),
        process_memory: Some(u64::MAX),
    };
    let block = info_code_block(&host).unwrap();
    assert_eq!(block.chars().count(), 206 + 3850 + 20 + 14);
    let response = info_response(block.clone()).unwrap();
    assert_eq!(response.data.unwrap().embeds.unwrap()[0].description, Some(block));
}

#[test]
fn code_block_needs_the_process_memory() {
    let mut host = metrics();
    host.process_memory = None;
    assert_eq!(info_code_block(&host), Err(CommandError::MetricsUnavailable));
}

#[test]
fn code_block_of_this_host() {
    let block = create_info_code_block().unwrap();
    assert!(block.starts_with(
        "```ansi\n\u{1b}[0;42mSystem Information                   \u{1b}[0m\n\u{1b}[0;37mOS: \u{1b}[0m"
    ));
    assert!(block.contains("\n\u{1b}[0;37mCPU Model: \u{1b}[0m"));
    assert!(block.contains("\n\u{1b}[0;37mTotal CPU Cores: \u{1b}[0m"));
    assert!(block.contains("\n\u{1b}[0;37mMemory Usage: \u{1b}[0m"));
    assert!(block.ends_with("MB\n```"));
}

#[test]
fn info_response_is_an_ephemeral_card() {
    let response = info_response("block".to_string()).unwrap();
    assert_eq!(response.kind, InteractionResponseType::ChannelMessageWithSource);
    let data = response.data.unwrap();
    assert_eq!(data.flags, Some(EPHEMERAL));
    assert_eq!(data.content, None);
    assert_eq!(
        data.embeds,
        Some(vec![Embed {
            title: Some("Lighthouse Debug Information".to_string()),
            description: Some("block".to_string()),
            color: Some(0x545863),
        }])
    );
    assert_eq!(INFO_COLOR, 0x545863);
}

#[test]
fn oversized_block_fails_validation() {
    assert_eq!(
        info_response("x".repeat(4097)),
        Err(CommandError::Validation(EmbedValidationError::DescriptionTooLarge { chars: 4097 }))
    );
    assert_eq!(
        info_response("x".repeat(6000)),
        Err(CommandError::Validation(EmbedValidationError::EmbedTooLarge { chars: 6028 }))
    );
    assert!(info_response("x".repeat(4096)).is_ok());
}

#[test]
fn failed_validation_degrades_to_plain_text() {
    let mut host = metrics();
    host.cpu_model = "x".repeat(5000);
    let error = info_response(info_code_block(&host).unwrap()).unwrap_err();
    assert!(matches!(error, CommandError::Validation(_)));
    assert_eq!(
        error_response(&error),
        InteractionResponse::message("An unknown error occurred.".to_string())
    );
}

#[test]
fn debug_info_response_of_this_host() {
    let response = debug_info_response().unwrap();
    assert_eq!(response.kind, InteractionResponseType::ChannelMessageWithSource);
    let embeds = response.data.unwrap().embeds.unwrap();
    assert_eq!(embeds.len(), 1);
    assert_eq!(embeds[0].title, Some("Lighthouse Debug Information".to_string()));
    let description = embeds[0].description.clone().unwrap();
    assert!(description.starts_with("```ansi\n"));
    assert!(description.ends_with("MB\n```"));
    assert!(description.chars().count() <= 4096);
}

#[test]
fn debug_command_is_restricted_to_the_administrator() {
    for subcommand in [Some("info"), Some("other"), None] {
        let data = command("debug", subcommand);
        for author in [None, Some(1), Some(ADMINISTRATOR_ID - 1), Some(ADMINISTRATOR_ID + 1)] {
            assert_eq!(
                handle_debug_command(&interaction(author, &data), &data),
                Err(CommandError::Permissions(PermissionsError::Restricted))
            );
        }
    }
}

#[test]
fn debug_command_unknown_subcommand() {
    let data = command("debug", Some("uptime"));
    assert_eq!(
        handle_debug_command(&interaction(Some(ADMINISTRATOR_ID), &data), &data),
        Ok(unimplemented_subcommand_response())
    );
    let data = command("debug", Some("Info"));
    assert_eq!(
        handle_debug_command(&interaction(Some(ADMINISTRATOR_ID), &data), &data),
        Ok(InteractionResponse::message(
            "This subcommand has not been implemented yet.".to_string()
        ))
    );
}

#[test]
fn debug_command_without_subcommand() {
    let data = command("debug", None);
    assert_eq!(
        handle_debug_command(&interaction(Some(ADMINISTRATOR_ID), &data), &data),
        Err(CommandError::MissingSubcommand)
    );
}

#[test]
fn debug_command_reads_the_first_option_only() {
    let mut data = command("debug", Some("uptime"));
    data.options.push(CommandDataOption { name: "info".to_string(), options: Vec::new() });
    assert_eq!(
        handle_debug_command(&interaction(Some(ADMINISTRATOR_ID), &data), &data),
        Ok(unimplemented_subcommand_response())
    );
}

#[test]
fn debug_command_info_for_the_administrator() {
    let data = command("debug", Some("info"));
    let response =
        handle_debug_command(&interaction(Some(ADMINISTRATOR_ID), &data), &data).unwrap();
    let data = response.data.unwrap();
    assert_eq!(data.flags, Some(EPHEMERAL));
    let embeds = data.embeds.unwrap();
    assert_eq!(embeds[0].color, Some(0x545863));
}
