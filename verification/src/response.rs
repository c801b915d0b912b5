//! The response sent back for an interaction, and how it is assembled.

use crate::text::utf8_len;
use twilight_util::builder::embed::EmbedBuilder;
use twilight_validate::embed::EmbedValidationErrorType;
use vstd::prelude::*;

verus! {

/// Flag bit that makes a response visible to the invoking user only.
pub const EPHEMERAL: u64 = 64;

/// The largest color an embed accepts: a 24-bit RGB value.
pub const COLOR_MAXIMUM: u32 = 0xff_ff_ff;

/// The most characters an embed's description may have.
pub const DESCRIPTION_LENGTH: usize = 4096;

/// The most bytes the texts of an embed may have together.
pub const EMBED_TOTAL_LENGTH: usize = 6000;

/// The most characters an embed's title may have.
pub const TITLE_LENGTH: usize = 256;

/// Kind of an interaction response.
#[derive(Debug, Clone, Copy, PartialEq, Eq, Structural)]
pub enum InteractionResponseType {
    /// Answers a ping.
    Pong,
    /// Responds to an interaction with a message.
    ChannelMessageWithSource,
    /// Acknowledges an interaction; the message is edited in later.
    DeferredChannelMessageWithSource,
    /// Acknowledges a component interaction; the message is edited later.
    DeferredUpdateMessage,
    /// Acknowledges a component interaction and edits the message.
    UpdateMessage,
    /// Responds to an autocomplete interaction with choices.
    ApplicationCommandAutocompleteResult,
    /// Responds with a modal.
    Modal,
}

/// A styled card shown in a message.
#[derive(Debug, PartialEq, Eq)]
pub struct Embed {
    /// Title of the card.
    pub title: Option<String>,
    /// Text of the card.
    pub description: Option<String>,
    /// Color of the card's border, as an RGB value.
    pub color: Option<u32>,
}

/// Body of an interaction response.
#[derive(Debug, PartialEq, Eq)]
pub struct InteractionResponseData {
    /// Text of the message.
    pub content: Option<String>,
    /// Cards of the message.
    pub embeds: Option<Vec<Embed>>,
    /// Flag bits of the message; see [`EPHEMERAL`].
    pub flags: Option<u64>,
}

/// The response to one interaction.
#[derive(Debug, PartialEq, Eq)]
pub struct InteractionResponse {
    /// Kind of the response.
    pub kind: InteractionResponseType,
    /// Body of the response.
    pub data: Option<InteractionResponseData>,
}

/// Why an embed was refused.
#[derive(Debug, Clone, Copy, PartialEq, Eq)]
pub enum EmbedValidationError {
    /// The title is empty.
    TitleEmpty,
    /// The color is larger than [`COLOR_MAXIMUM`].
    ColorNotRgb { color: u32 },
    /// The description has more than [`DESCRIPTION_LENGTH`] characters.
    DescriptionTooLarge { chars: usize },
    /// The texts together have more than [`EMBED_TOTAL_LENGTH`] bytes;
    /// `chars` is that number of bytes.
    EmbedTooLarge { chars: usize },
    /// The title has more than [`TITLE_LENGTH`] characters.
    TitleTooLarge { chars: usize },
    /// A limit on a part that these embeds do not have, so that it never
    /// comes out of [`Embed::build`].
    Other,
}

/// What an [`Embed`] holds.
pub struct EmbedView {
    pub title: Option<Seq<char>>,
    pub description: Option<Seq<char>>,
    pub color: Option<u32>,
}

/// What an [`InteractionResponseData`] holds.
pub struct InteractionResponseDataView {
    pub content: Option<Seq<char>>,
    pub embeds: Option<Seq<EmbedView>>,
    pub flags: Option<u64>,
}

/// What an [`InteractionResponse`] holds.
pub struct InteractionResponseView {
    pub kind: InteractionResponseType,
    pub data: Option<InteractionResponseDataView>,
}

/// The characters of an optional text.
pub open spec fn text_view(text: Option<String>) -> Option<Seq<char>> {
    match text {
        Some(text) => Some(text@),
        None => None,
    }
}

impl View for Embed {
    type V = EmbedView;

    open spec fn view(&self) -> EmbedView {
        EmbedView {
            title: text_view(self.title),
            description: text_view(self.description),
            color: self.color,
        }
    }
}

impl View for InteractionResponseData {
    type V = InteractionResponseDataView;

    open spec fn view(&self) -> InteractionResponseDataView {
        InteractionResponseDataView {
            content: text_view(self.content),
            embeds: match self.embeds {
                Some(embeds) => Some(embeds@.map_values(|embed: Embed| embed@)),
                None => None,
            },
            flags: self.flags,
        }
    }
}

impl View for InteractionResponse {
    type V = InteractionResponseView;

    open spec fn view(&self) -> InteractionResponseView {
        InteractionResponseView {
            kind: self.kind,
            data: match self.data {
                Some(data) => Some(data@),
                None => None,
            },
        }
    }
}

impl InteractionResponseView {
    /// A message of plain text that only the invoking user sees.
    pub open spec fn message(content: Seq<char>) -> InteractionResponseView {
        InteractionResponseView {
            kind: InteractionResponseType::ChannelMessageWithSource,
            data: Some(
                InteractionResponseDataView {
                    content: Some(content),
                    embeds: None,
                    flags: Some(EPHEMERAL),
                },
            ),
        }
    }

    /// A message of one embed that only the invoking user sees.
    pub open spec fn card(embed: EmbedView) -> InteractionResponseView {
        InteractionResponseView {
            kind: InteractionResponseType::ChannelMessageWithSource,
            data: Some(
                InteractionResponseDataView {
                    content: None,
                    embeds: Some(seq![embed]),
                    flags: Some(EPHEMERAL),
                },
            ),
        }
    }
}

impl InteractionResponse {
    /// Builds a message of plain text that only the invoking user sees.
    pub fn message(content: String) -> (response: InteractionResponse)
        ensures
            response@ == InteractionResponseView::message(content@),
    {
        InteractionResponse {
            kind: InteractionResponseType::ChannelMessageWithSource,
            data: Some(
                InteractionResponseData { content: Some(content), embeds: None, flags: Some(EPHEMERAL) },
            ),
        }
    }

    /// Builds a message of one embed that only the invoking user sees.
    pub fn card(embed: Embed) -> (response: InteractionResponse)
        ensures
            response@ == InteractionResponseView::card(embed@),
    {
        let mut embeds: Vec<Embed> = Vec::new();
        embeds.push(embed);
        assert(embeds@.map_values(|embed: Embed| embed@) =~= seq![embed@]);
        InteractionResponse {
            kind: InteractionResponseType::ChannelMessageWithSource,
            data: Some(InteractionResponseData { content: None, embeds: Some(embeds), flags: Some(EPHEMERAL) }),
        }
    }
}

/// What the platform's limits say of an embed with a title, a description
/// and a color: the first limit that it breaks, taken in the order total
/// size, color, description, title.
pub open spec fn embed_limits(title: Seq<char>, description: Seq<char>, color: u32) -> Result<
    (),
    EmbedValidationError,
> {
    let total = utf8_len(title) + utf8_len(description);
    if total > EMBED_TOTAL_LENGTH {
        Err(EmbedValidationError::EmbedTooLarge { chars: total as usize })
    } else if color > COLOR_MAXIMUM {
        Err(EmbedValidationError::ColorNotRgb { color })
    } else if description.len() > DESCRIPTION_LENGTH {
        Err(EmbedValidationError::DescriptionTooLarge { chars: description.len() as usize })
    } else if title.len() > TITLE_LENGTH {
        Err(EmbedValidationError::TitleTooLarge { chars: title.len() as usize })
    } else {
        Ok(())
    }
}

/// Calls `EmbedBuilder::validate` of twilight-util on an embed with this
/// title, description and color, which hands it to `embed` of
/// twilight-validate. That function compares the byte lengths of the two
/// texts together with the total limit, then the color with the largest RGB
/// value, then the character counts of the description and of the title with
/// their limits, and gives the first failure. Its other checks are on parts
/// that this embed leaves unset. None of this is proved here.
#[verifier::external_body]
fn check_embed_limits(title: &str, description: &str, color: u32) -> (checked: Result<
    (),
    EmbedValidationError,
>)
    ensures
        checked == embed_limits(title@, description@, color),
{
    match EmbedBuilder::new().title(title).description(description).color(color).validate() {
        Ok(_) => Ok(()),
        Err(error) => Err(match error.kind() {
            EmbedValidationErrorType::ColorNotRgb { color } => EmbedValidationError::ColorNotRgb { color: *color },
            EmbedValidationErrorType::DescriptionTooLarge { chars } => EmbedValidationError::DescriptionTooLarge { chars: *chars },
            EmbedValidationErrorType::EmbedTooLarge { chars } => EmbedValidationError::EmbedTooLarge { chars: *chars },
            EmbedValidationErrorType::TitleTooLarge { chars } => EmbedValidationError::TitleTooLarge { chars: *chars },
            _ => EmbedValidationError::Other,
        }),
    }
}

/// Whether an embed with this title, description and color may be built:
/// the title is not empty and the platform's limits hold.
pub open spec fn embed_checked(title: Seq<char>, description: Seq<char>, color: u32) -> Result<
    (),
    EmbedValidationError,
> {
    if title.len() == 0 {
        Err(EmbedValidationError::TitleEmpty)
    } else {
        embed_limits(title, description, color)
    }
}

impl Embed {
    /// Builds an embed with a title, a description and a color, once it has
    /// been validated: the title is not empty, and the platform's limits
    /// hold.
    pub fn build(title: &str, description: String, color: u32) -> (built: Result<
        Embed,
        EmbedValidationError,
    >)
        ensures
            match embed_checked(title@, description@, color) {
                Ok(_) => built is Ok && built->Ok_0@ == (EmbedView {
                    title: Some(title@),
                    description: Some(description@),
                    color: Some(color),
                }),
                Err(error) => built == Err::<Embed, EmbedValidationError>(error),
            },
    {
        if title.is_empty() {
            return Err(EmbedValidationError::TitleEmpty);
        }
        match check_embed_limits(title, description.as_str(), color) {
            Ok(_) => Ok(
                Embed { title: Some(title.to_owned()), description: Some(description), color: Some(color) },
            ),
            Err(error) => Err(error),
        }
    }
}

} // verus!
