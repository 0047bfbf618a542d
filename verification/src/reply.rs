//! The messages that are shown to the user: the usage hint, the acknowledgement that answers a
//! request at once, and the message that reports how the captioning went.

use crate::address::{parse_url, parsed_url, text_of};
use crate::error::Error;
use vstd::prelude::*;
use vstd::string::*;

verus! {

/// Where the icon beside every reply is found.
pub const ICON_URL: &'static str = "https://imgflip.com/imgflip_white_96.png";

/// The value of `response_type` that shows a reply to the whole channel. A reply without a
/// `response_type` is shown to the invoking user alone.
pub const IN_CHANNEL: &'static str = "in_channel";

/// The text of the acknowledgement.
pub const WORKING: &'static str = "working on it";

/// The text that reports a failure of which nothing more is known.
pub const FAILED: &'static str = "Uhoh, something went wrong";

/// What the service's own message is appended to.
pub const FAILED_BECAUSE: &'static str = "Uhoh, something went wrong: ";

/// What the address of the captioned image is appended to.
pub const CAPTIONED: &'static str = " hej ";

/// The usage hint up to the first mention of the command.
pub const USAGE_HEAD: &'static str = "Usage: `";

/// The usage hint between the two mentions of the command.
pub const USAGE_BODY: &'static str = " <id>⇧⏎<text>⇧⏎…`\nExample:\n```";

/// The usage hint after the second mention of the command.
pub const USAGE_TAIL: &'static str =
    " 181913649\nmaking memes yourself\nusing a bot to make memes```";

/// A message for the chat platform. Every field may be absent.
#[derive(Debug, PartialEq, Eq)]
pub struct ReplyPayload {
    /// The text that is displayed.
    pub text: Option<String>,
    /// Who sees the reply: absent for the invoking user alone, `in_channel` for everyone.
    pub response_type: Option<String>,
    /// The name under which the reply is posted.
    pub username: Option<String>,
    /// The channel that the reply is posted to.
    pub channel_id: Option<String>,
    /// The icon beside the reply.
    pub icon_url: Option<String>,
    /// A page that the user is sent to.
    pub goto_location: Option<String>,
    /// Whether the platform leaves the text as it is, without turning parts of it into links.
    pub skip_slack_parsing: Option<bool>,
}

/// A `ReplyPayload` as plain values.
pub struct ReplyView {
    pub text: Option<Seq<char>>,
    pub response_type: Option<Seq<char>>,
    pub username: Option<Seq<char>>,
    pub channel_id: Option<Seq<char>>,
    pub icon_url: Option<Seq<char>>,
    pub goto_location: Option<Seq<char>>,
    pub skip_slack_parsing: Option<bool>,
}

impl View for ReplyPayload {
    type V = ReplyView;

    open spec fn view(&self) -> ReplyView {
        ReplyView {
            text: text_of(self.text),
            response_type: text_of(self.response_type),
            username: text_of(self.username),
            channel_id: text_of(self.channel_id),
            icon_url: text_of(self.icon_url),
            goto_location: text_of(self.goto_location),
            skip_slack_parsing: self.skip_slack_parsing,
        }
    }
}

/// How the captioning service answered.
#[derive(Debug, PartialEq, Eq)]
pub enum Outcome {
    /// The image was captioned: where the image is, and where its page is.
    Success { url: String, page_url: String },
    /// The service refused, with a message of its own.
    ApiError(String),
    /// The service could not be reached, or its answer could not be read.
    TransportError,
}

/// An `Outcome` as plain values.
pub enum OutcomeView {
    Success { url: Seq<char>, page_url: Seq<char> },
    ApiError(Seq<char>),
    TransportError,
}

impl View for Outcome {
    type V = OutcomeView;

    open spec fn view(&self) -> OutcomeView {
        match self {
            Outcome::Success { url, page_url } => OutcomeView::Success {
                url: url@,
                page_url: page_url@,
            },
            Outcome::ApiError(message) => OutcomeView::ApiError(message@),
            Outcome::TransportError => OutcomeView::TransportError,
        }
    }
}

/// Whether `failure` is the error that `outcome` stands for. A captioned image stands for none.
pub open spec fn is_failure_of(failure: Option<Error>, outcome: OutcomeView) -> bool {
    match outcome {
        OutcomeView::Success { .. } => failure is None,
        OutcomeView::ApiError(message) => failure matches Some(Error::CaptioningApiError(m))
            && m@ == message,
        OutcomeView::TransportError => failure == Some(Error::CaptioningTransportError),
    }
}

impl Outcome {
    /// The error that this outcome stands for, if it is a failure.
    pub fn failure(&self) -> (failure: Option<Error>)
        ensures
            is_failure_of(failure, self@),
    {
        match self {
            Outcome::Success { .. } => None,
            Outcome::ApiError(message) => Some(Error::CaptioningApiError(message.clone())),
            Outcome::TransportError => Some(Error::CaptioningTransportError),
        }
    }
}

/// A reply for the invoking user alone that says `text`, with the platform's rewriting of the
/// text switched off.
pub open spec fn private_reply(text: Seq<char>, icon: Option<Seq<char>>) -> ReplyView {
    ReplyView {
        text: Some(text),
        response_type: None,
        username: None,
        channel_id: None,
        icon_url: icon,
        goto_location: None,
        skip_slack_parsing: Some(true),
    }
}

/// The text of the usage hint for the command that was invoked as `command`.
pub open spec fn usage_text(command: Seq<char>) -> Seq<char> {
    USAGE_HEAD@ + command + USAGE_BODY@ + command + USAGE_TAIL@
}

/// The usage hint for the command that was invoked as `command`.
pub open spec fn usage_view(command: Seq<char>, icon: Option<Seq<char>>) -> ReplyView {
    private_reply(usage_text(command), icon)
}

/// The acknowledgement that answers an accepted request at once.
pub open spec fn working_view(icon: Option<Seq<char>>) -> ReplyView {
    private_reply(WORKING@, icon)
}

/// The message that reports `outcome`.
pub open spec fn final_view(outcome: OutcomeView, icon: Option<Seq<char>>) -> ReplyView {
    match outcome {
        OutcomeView::Success { url, page_url } => ReplyView {
            text: Some(CAPTIONED@ + url),
            response_type: Some(IN_CHANNEL@),
            username: None,
            channel_id: None,
            icon_url: icon,
            goto_location: Some(page_url),
            skip_slack_parsing: Some(true),
        },
        OutcomeView::ApiError(message) => private_reply(FAILED_BECAUSE@ + message, icon),
        OutcomeView::TransportError => private_reply(FAILED@, icon),
    }
}

/// Builds a reply for the invoking user alone.
fn private(text: String, icon: Option<String>) -> (reply: ReplyPayload)
    ensures
        reply@ == private_reply(text@, text_of(icon)),
{
    ReplyPayload {
        text: Some(text),
        response_type: None,
        username: None,
        channel_id: None,
        icon_url: icon,
        goto_location: None,
        skip_slack_parsing: Some(true),
    }
}

/// Builds the usage hint for the command that was invoked as `slash_command`, with `icon` beside
/// it.
pub fn usage_reply(slash_command: &str, icon: Option<String>) -> (reply: ReplyPayload)
    ensures
        reply@ == usage_view(slash_command@, text_of(icon)),
{
    let mut text = String::from_str(USAGE_HEAD);
    text.append(slash_command);
    text.append(USAGE_BODY);
    text.append(slash_command);
    text.append(USAGE_TAIL);
    private(text, icon)
}

/// Builds the acknowledgement, with `icon` beside it.
pub fn working_reply(icon: Option<String>) -> (reply: ReplyPayload)
    ensures
        reply@ == working_view(text_of(icon)),
{
    private(String::from_str(WORKING), icon)
}

/// Builds the message that reports `outcome`, with `icon` beside it.
///
/// A captioned image is announced to the whole channel and leads to the image's page; a failure
/// is told to the invoking user alone, with the service's message where there is one.
pub fn final_reply(outcome: Outcome, icon: Option<String>) -> (reply: ReplyPayload)
    ensures
        reply@ == final_view(outcome@, text_of(icon)),
{
    match outcome {
        Outcome::Success { url, page_url } => {
            let mut text = String::from_str(CAPTIONED);
            text.append(url.as_str());
            ReplyPayload {
                text: Some(text),
                response_type: Some(String::from_str(IN_CHANNEL)),
                username: None,
                channel_id: None,
                icon_url: icon,
                goto_location: Some(page_url),
                skip_slack_parsing: Some(true),
            }
        },
        Outcome::ApiError(message) => {
            let mut text = String::from_str(FAILED_BECAUSE);
            text.append(message.as_str());
            private(text, icon)
        },
        Outcome::TransportError => private(String::from_str(FAILED), icon),
    }
}

/// The icon that stands beside every reply: `ICON_URL` as the `url` crate writes it.
pub fn icon() -> (address: Option<String>)
    ensures
        text_of(address) == parsed_url(ICON_URL@),
{
    parse_url(ICON_URL)
}

/// The usage hint for the command that was invoked as `slash_command`.
pub fn usage(slash_command: &str) -> (reply: ReplyPayload)
    ensures
        reply@ == usage_view(slash_command@, parsed_url(ICON_URL@)),
{
    usage_reply(slash_command, icon())
}

/// The acknowledgement that answers an accepted request at once.
pub fn working() -> (reply: ReplyPayload)
    ensures
        reply@ == working_view(parsed_url(ICON_URL@)),
{
    working_reply(icon())
}

/// The message that reports `outcome` to the user.
pub fn report(outcome: Outcome) -> (reply: ReplyPayload)
    ensures
        reply@ == final_view(outcome@, parsed_url(ICON_URL@)),
{
    final_reply(outcome, icon())
}

} // verus!
