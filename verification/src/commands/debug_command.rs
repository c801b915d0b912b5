//! The debug command: host diagnostics for the bot's owner.

use crate::commands::{unimplemented_subcommand, unimplemented_subcommand_response};
use crate::model::{CommandData, Interaction};
use crate::response::{
    embed_checked, Embed, EmbedView, InteractionResponse, InteractionResponseView,
    DESCRIPTION_LENGTH, EMBED_TOTAL_LENGTH,
};
use crate::text::{
    append_decimal, decimal_digits, lemma_decimal_digits_u64, lemma_utf8_len_bounds,
    lemma_utf8_len_concat, same_text, utf8_len,
};
use crate::{
    guard, outcome_view, permitted, text_outcome, CommandError, CommandErrorView,
    PermissionsErrorView,
};
use sysinfo::{get_current_pid, CpuExt, ProcessExt, System, SystemExt};
use vstd::prelude::*;

verus! {

/// ID of user allowed to run this command.
pub const ADMINISTRATOR_ID: u64 = 671477574932627516;

/// Name of the subcommand that shows the debug information.
pub const INFO_NAME: &'static str = "info";

/// Title of the card that shows the debug information.
pub const INFO_TITLE: &'static str = "Lighthouse Debug Information";

/// Color of the card that shows the debug information.
pub const INFO_COLOR: u32 = 0x545863;

/// Start of the text block: the opening fence, the first heading, padded to
/// 37 columns on a green ground, and the label of the operating system.
pub const SYSTEM_HEADING: &'static str =
    "```ansi\n\u{001b}[0;42mSystem Information                   \u{001b}[0m\n\u{001b}[0;37mOS: \u{001b}[0m";

/// Label of the CPU model.
pub const CPU_LABEL: &'static str = "\n\u{001b}[0;37mCPU Model: \u{001b}[0m";

/// Label of the core count.
pub const CORES_LABEL: &'static str = "\n\u{001b}[0;37mTotal CPU Cores: \u{001b}[0m";

/// Middle of the text block: an empty line, the second heading, padded as the
/// first, and the label of the memory use.
pub const PROCESS_HEADING: &'static str =
    "\n\n\u{001b}[0;42mProcess Stats                        \u{001b}[0m\n\u{001b}[0;37mMemory Usage: \u{001b}[0m";

/// End of the text block: the unit of the memory use and the closing fence.
pub const BLOCK_END: &'static str = "MB\n```";

/// Shown in place of what the host does not tell.
pub const UNKNOWN: &'static str = "Unknown";

/// What the host reports of itself and of this process.
#[derive(Debug, PartialEq, Eq)]
pub struct HostMetrics {
    /// Name and version of the operating system, where the host tells.
    pub os_version: Option<String>,
    /// Brand of the CPU.
    pub cpu_model: String,
    /// Number of physical cores, where the host tells.
    pub physical_cores: Option<u64>,
    /// Memory that this process uses, in bytes, where the host lists the
    /// process.
    pub process_memory: Option<u64>,
}

/// Reads the metrics from the host with sysinfo: `System::new_all`, then
/// `long_os_version`, `global_cpu_info` and its `brand`,
/// `physical_core_count`, and `memory` of the process that `process` finds
/// for `get_current_pid`. Nothing is claimed of what comes back: it is what
/// the machine reports at that moment.
#[verifier::external_body]
fn read_host_metrics() -> HostMetrics {
    let system = System::new_all();
    HostMetrics {
        os_version: system.long_os_version(),
        cpu_model: system.global_cpu_info().brand().to_owned(),
        physical_cores: system.physical_core_count().map(|count| count as u64),
        process_memory: get_current_pid().ok().and_then(|pid| system.process(pid)).map(
            |process| process.memory(),
        ),
    }
}

impl HostMetrics {
    /// The operating system as shown: its name, or `Unknown`.
    pub open spec fn os_text(self) -> Seq<char> {
        match self.os_version {
            Some(os) => os@,
            None => UNKNOWN@,
        }
    }

    /// The core count as shown: its decimal numeral, or `Unknown`.
    pub open spec fn cores_text(self) -> Seq<char> {
        match self.physical_cores {
            Some(count) => decimal_digits(count as nat),
            None => UNKNOWN@,
        }
    }
}

/// The decorated text block: a heading, the operating system, the CPU
/// model and the core count, then a second heading and the memory use in
/// whole megabytes.
pub open spec fn code_block(os: Seq<char>, cpu_model: Seq<char>, cores: Seq<char>, megabytes: nat) -> Seq<
    char,
> {
    SYSTEM_HEADING@ + os + CPU_LABEL@ + cpu_model + CORES_LABEL@ + cores + PROCESS_HEADING@
        + decimal_digits(megabytes) + BLOCK_END@
}

/// The text block for these metrics, which needs the memory of the process.
pub open spec fn info_code_block_of(metrics: HostMetrics) -> Result<Seq<char>, CommandErrorView> {
    match metrics.process_memory {
        Some(bytes) => Ok(
            code_block(
                metrics.os_text(),
                metrics.cpu_model@,
                metrics.cores_text(),
                (bytes / 1000000) as nat,
            ),
        ),
        None => Err(CommandErrorView::MetricsUnavailable),
    }
}

/// Formats host metrics into the decorated text block.
pub fn info_code_block(metrics: &HostMetrics) -> (block: Result<String, CommandError>)
    ensures
        text_outcome(block) == info_code_block_of(*metrics),
{
    let bytes = match metrics.process_memory {
        Some(bytes) => bytes,
        None => {
            return Err(CommandError::MetricsUnavailable);
        },
    };
    let mut block = SYSTEM_HEADING.to_owned();
    match &metrics.os_version {
        Some(os) => block.append(os.as_str()),
        None => block.append(UNKNOWN),
    }
    block.append(CPU_LABEL);
    block.append(metrics.cpu_model.as_str());
    block.append(CORES_LABEL);
    match metrics.physical_cores {
        Some(count) => append_decimal(&mut block, count),
        None => block.append(UNKNOWN),
    }
    block.append(PROCESS_HEADING);
    append_decimal(&mut block, bytes / 1000000);
    block.append(BLOCK_END);
    Ok(block)
}

/// Reads the host's metrics and formats them into the text block.
pub fn create_info_code_block() -> (block: Result<String, CommandError>)
    ensures
        exists|metrics: HostMetrics| text_outcome(block) == #[trigger] info_code_block_of(metrics),
{
    let metrics = read_host_metrics();
    info_code_block(&metrics)
}

/// The card for a text block, where the block passes validation; the
/// validation error otherwise.
pub open spec fn info_response_of(block: Seq<char>) -> Result<InteractionResponseView, CommandErrorView> {
    match embed_checked(INFO_TITLE@, block, INFO_COLOR) {
        Ok(_) => Ok(
            InteractionResponseView::card(
                EmbedView {
                    title: Some(INFO_TITLE@),
                    description: Some(block),
                    color: Some(INFO_COLOR),
                },
            ),
        ),
        Err(error) => Err(CommandErrorView::Validation(error)),
    }
}

/// What the `info` subcommand answers on a host with these metrics.
pub open spec fn debug_info_of(metrics: HostMetrics) -> Result<InteractionResponseView, CommandErrorView> {
    match info_code_block_of(metrics) {
        Ok(block) => info_response_of(block),
        Err(error) => Err(error),
    }
}

/// What the debug command answers to this author and payload on a host
/// with these metrics. The metrics are read only on the way to the `info`
/// subcommand's answer.
pub open spec fn debug_command_of(author: Option<u64>, data: CommandData, metrics: HostMetrics) -> Result<
    InteractionResponseView,
    CommandErrorView,
> {
    if !permitted(author, ADMINISTRATOR_ID) {
        Err(CommandErrorView::Permissions(PermissionsErrorView::Restricted))
    } else {
        match data.subcommand() {
            None => Err(CommandErrorView::MissingSubcommand),
            Some(name) => if name =~= INFO_NAME@ {
                debug_info_of(metrics)
            } else {
                Ok(unimplemented_subcommand())
            },
        }
    }
}

/// The title has 28 characters of one byte each.
proof fn lemma_info_title()
    ensures
        INFO_TITLE@.len() == 28,
        utf8_len(INFO_TITLE@) == 28,
{
    reveal_strlit("Lighthouse Debug Information");
    vstd::utf8::is_ascii_chars_encode_utf8(INFO_TITLE@);
}

/// A text block gets its card exactly if it has no more characters than a
/// description may have and, with the 28 bytes of the title, no more bytes
/// than an embed may have.
pub proof fn lemma_info_response_limits(block: Seq<char>)
    ensures
        info_response_of(block) is Ok <==> block.len() <= DESCRIPTION_LENGTH && utf8_len(block) + 28
            <= EMBED_TOTAL_LENGTH,
{
    lemma_info_title();
}

/// The text block has 206 characters of its own, of one byte each, around
/// the four texts that it shows.
pub proof fn lemma_code_block_len(os: Seq<char>, cpu_model: Seq<char>, cores: Seq<char>, megabytes: nat)
    ensures
        code_block(os, cpu_model, cores, megabytes).len() == 206 + os.len() + cpu_model.len()
            + cores.len() + decimal_digits(megabytes).len(),
        utf8_len(code_block(os, cpu_model, cores, megabytes)) == 206 + utf8_len(os) + utf8_len(
            cpu_model,
        ) + utf8_len(cores) + utf8_len(decimal_digits(megabytes)),
{
    let heading = SYSTEM_HEADING@;
    let cpu_label = CPU_LABEL@;
    let cores_label = CORES_LABEL@;
    let memory_label = PROCESS_HEADING@;
    let end = BLOCK_END@;
    let digits = decimal_digits(megabytes);
    reveal_strlit(
        "```ansi\n\u{001b}[0;42mSystem Information                   \u{001b}[0m\n\u{001b}[0;37mOS: \u{001b}[0m",
    );
    reveal_strlit("\n\u{001b}[0;37mCPU Model: \u{001b}[0m");
    reveal_strlit("\n\u{001b}[0;37mTotal CPU Cores: \u{001b}[0m");
    reveal_strlit(
        "\n\n\u{001b}[0;42mProcess Stats                        \u{001b}[0m\n\u{001b}[0;37mMemory Usage: \u{001b}[0m",
    );
    reveal_strlit("MB\n```");
    vstd::utf8::is_ascii_chars_encode_utf8(heading);
    vstd::utf8::is_ascii_chars_encode_utf8(cpu_label);
    vstd::utf8::is_ascii_chars_encode_utf8(cores_label);
    vstd::utf8::is_ascii_chars_encode_utf8(memory_label);
    vstd::utf8::is_ascii_chars_encode_utf8(end);
    lemma_utf8_len_concat(heading, os);
    lemma_utf8_len_concat(heading + os, cpu_label);
    lemma_utf8_len_concat(heading + os + cpu_label, cpu_model);
    lemma_utf8_len_concat(heading + os + cpu_label + cpu_model, cores_label);
    lemma_utf8_len_concat(heading + os + cpu_label + cpu_model + cores_label, cores);
    lemma_utf8_len_concat(heading + os + cpu_label + cpu_model + cores_label + cores, memory_label);
    lemma_utf8_len_concat(
        heading + os + cpu_label + cpu_model + cores_label + cores + memory_label,
        digits,
    );
    lemma_utf8_len_concat(
        heading + os + cpu_label + cpu_model + cores_label + cores + memory_label + digits,
        end,
    );
}

/// On a host that lists this process and names its operating system and
/// its CPU in at most 3850 bytes together, the `info` subcommand is answered
/// with the card that shows the text block.
pub proof fn lemma_debug_info_built(metrics: HostMetrics)
    requires
        metrics.process_memory is Some,
        utf8_len(metrics.os_text()) + utf8_len(metrics.cpu_model@) <= 3850,
    ensures
        debug_info_of(metrics) == Ok::<InteractionResponseView, CommandErrorView>(
            InteractionResponseView::card(
                EmbedView {
                    title: Some(INFO_TITLE@),
                    description: Some(info_code_block_of(metrics)->Ok_0),
                    color: Some(INFO_COLOR),
                },
            ),
        ),
{
    let megabytes = metrics.process_memory->0 / 1000000;
    let block = info_code_block_of(metrics)->Ok_0;
    lemma_code_block_len(metrics.os_text(), metrics.cpu_model@, metrics.cores_text(), megabytes as nat);
    lemma_decimal_digits_u64(megabytes);
    match metrics.physical_cores {
        Some(count) => {
            lemma_decimal_digits_u64(count);
        },
        None => {
            reveal_strlit("Unknown");
            vstd::utf8::is_ascii_chars_encode_utf8(UNKNOWN@);
        },
    }
    lemma_utf8_len_bounds(metrics.os_text());
    lemma_utf8_len_bounds(metrics.cpu_model@);
    lemma_info_response_limits(block);
}

/// Wraps a text block into the card that shows the debug information.
pub fn info_response(block: String) -> (outcome: Result<InteractionResponse, CommandError>)
    ensures
        outcome_view(outcome) == info_response_of(block@),
{
    match Embed::build(INFO_TITLE, block, INFO_COLOR) {
        Ok(embed) => Ok(InteractionResponse::card(embed)),
        Err(error) => Err(CommandError::Validation(error)),
    }
}

/// An `InteractionResponse` that shows information about the bot.
pub fn debug_info_response() -> (outcome: Result<InteractionResponse, CommandError>)
    ensures
        exists|metrics: HostMetrics| outcome_view(outcome) == #[trigger] debug_info_of(metrics),
{
    let block = create_info_code_block();
    let ghost metrics = choose|metrics: HostMetrics|
        text_outcome(block) == #[trigger] info_code_block_of(metrics);
    let outcome = match block {
        Ok(block) => info_response(block),
        Err(error) => Err(error),
    };
    assert(outcome_view(outcome) == debug_info_of(metrics));
    outcome
}

/// Debug command that shows information about the bot.
///
/// This command can only be run by the bot owner indicated by the
/// `ADMINISTRATOR_ID` constant.
pub fn handle_debug_command(interaction: &Interaction, data: &CommandData) -> (outcome: Result<
    InteractionResponse,
    CommandError,
>)
    ensures
        exists|metrics: HostMetrics|
            outcome_view(outcome) == #[trigger] debug_command_of(interaction.author_id, *data, metrics),
{
    // Where the host is not asked, any metrics bear witness.
    let ghost unread = arbitrary::<HostMetrics>();
    // The debug command should only be allowed to run by the bot owner.
    if let Err(error) = guard(interaction.author_id, ADMINISTRATOR_ID) {
        let outcome = Err(CommandError::Permissions(error));
        assert(outcome_view(outcome) == debug_command_of(interaction.author_id, *data, unread));
        return outcome;
    }
    // The schema of the debug command has a subcommand as its first option.
    if data.options.len() == 0 {
        let outcome = Err(CommandError::MissingSubcommand);
        assert(outcome_view(outcome) == debug_command_of(interaction.author_id, *data, unread));
        return outcome;
    }
    if same_text(data.options[0].name.as_str(), INFO_NAME) {
        let outcome = debug_info_response();
        let ghost metrics = choose|metrics: HostMetrics|
            outcome_view(outcome) == #[trigger] debug_info_of(metrics);
        assert(outcome_view(outcome) == debug_command_of(interaction.author_id, *data, metrics));
        outcome
    } else {
        let outcome = Ok(unimplemented_subcommand_response());
        assert(outcome_view(outcome) == debug_command_of(interaction.author_id, *data, unread));
        outcome
    }
}

} // verus!
