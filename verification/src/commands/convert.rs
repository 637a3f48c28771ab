//! The `convert` command: the Apple Music equivalent of a link, as plain
//! text.
//!
//! The command comes in two halves around the one request to the link
//! service: `run` checks the input and either answers at once, for a link
//! that is Apple Music's already, or names the request; `finish` reads
//! what the link service said.

use crate::detect::{is_link, regex_is_match, Provider, URL_PATTERN};
use crate::normalize::{request, request_for, LinkReply, LinkReplyView};
use crate::text::owned;
use vstd::prelude::*;

verus! {

/// Why `convert` has no link to answer with.
#[derive(Debug, Clone, Copy, PartialEq, Eq, Structural)]
pub enum ConvertError {
    InvalidInput,
    InvalidContent,
    FailedConversion,
    InvalidOption,
    RequestError,
}

impl ConvertError {
    /// What the user is told.
    pub open spec fn text(self) -> Seq<char> {
        match self {
            ConvertError::InvalidInput => "did not input link"@,
            ConvertError::InvalidContent => "content is not a link"@,
            ConvertError::FailedConversion => "could not convert to apple music link"@,
            ConvertError::InvalidOption => "option was not a string"@,
            ConvertError::RequestError => "request failed"@,
        }
    }

    /// What the user is told.
    pub fn message(&self) -> (told: String)
        ensures
            told@ == self.text(),
    {
        match self {
            ConvertError::InvalidInput => owned("did not input link"),
            ConvertError::InvalidContent => owned("content is not a link"),
            ConvertError::FailedConversion => owned("could not convert to apple music link"),
            ConvertError::InvalidOption => owned("option was not a string"),
            ConvertError::RequestError => owned("request failed"),
        }
    }
}

/// The value that a command was given for an option.
#[derive(Debug, Clone, PartialEq)]
pub enum CommandOption {
    Text(String),
    /// A value of any other kind, or none that could be made out.
    Other,
}

/// The mathematical content of a `CommandOption`.
pub enum OptionView {
    Text(Seq<char>),
    Other,
}

impl View for CommandOption {
    type V = OptionView;

    open spec fn view(&self) -> OptionView {
        match self {
            CommandOption::Text(text) => OptionView::Text(text@),
            CommandOption::Other => OptionView::Other,
        }
    }
}

/// The mathematical content of an answer or of the reason for its absence.
pub open spec fn answer_view(answer: Result<String, ConvertError>) -> Result<
    Seq<char>,
    ConvertError,
> {
    match answer {
        Ok(text) => Ok(text@),
        Err(error) => Err(error),
    }
}

/// What `convert` does once its input is checked.
#[derive(Debug, Clone, PartialEq)]
pub enum ConvertStep {
    /// The link is Apple Music's already: it is the answer, and nobody is
    /// asked.
    Answer { link: String },
    /// The link service has to be asked, with a GET of this URL.
    Ask { request: String },
}

/// The mathematical content of a `ConvertStep`.
pub enum ConvertStepView {
    Answer { link: Seq<char> },
    Ask { request: Seq<char> },
}

impl View for ConvertStep {
    type V = ConvertStepView;

    open spec fn view(&self) -> ConvertStepView {
        match self {
            ConvertStep::Answer { link } => ConvertStepView::Answer { link: link@ },
            ConvertStep::Ask { request } => ConvertStepView::Ask { request: request@ },
        }
    }
}

/// The mathematical content of a step or of the reason for its absence.
pub open spec fn step_view(step: Result<ConvertStep, ConvertError>) -> Result<
    ConvertStepView,
    ConvertError,
> {
    match step {
        Ok(step) => Ok(step@),
        Err(error) => Err(error),
    }
}

/// What `convert` does with a text, given whether the text holds a link
/// and which service the text is a link of: a text without a link is
/// refused, an Apple Music link is its own answer, and about any other
/// link the link service is asked.
pub open spec fn step_for(text: Seq<char>, holds_link: bool, provider: Provider) -> Result<
    ConvertStepView,
    ConvertError,
> {
    if !holds_link {
        Err(ConvertError::InvalidContent)
    } else if provider == Provider::AppleMusic {
        Ok(ConvertStepView::Answer { link: text })
    } else {
        Ok(ConvertStepView::Ask { request: request_for(text) })
    }
}

/// What `convert` does for its first option: the option has to be there,
/// to be a text, and to hold a link.
pub open spec fn conversion_step(first: Option<OptionView>) -> Result<
    ConvertStepView,
    ConvertError,
> {
    match first {
        None => Err(ConvertError::InvalidInput),
        Some(OptionView::Other) => Err(ConvertError::InvalidOption),
        Some(OptionView::Text(text)) => step_for(
            text,
            regex_is_match(URL_PATTERN@, text),
            Provider::of_link(text),
        ),
    }
}

/// The answer of `convert`, given what the link service said.
pub open spec fn conversion(reply: LinkReplyView) -> Result<Seq<char>, ConvertError> {
    match reply {
        LinkReplyView::Unavailable => Err(ConvertError::RequestError),
        LinkReplyView::Links { apple_music: None } => Err(ConvertError::FailedConversion),
        LinkReplyView::Links { apple_music: Some(url) } => Ok(url),
    }
}

/// What is shown for an answer: the link, or what the user is told in its
/// place.
pub open spec fn shown(answer: Result<Seq<char>, ConvertError>) -> Seq<char> {
    match answer {
        Ok(text) => text,
        Err(error) => error.text(),
    }
}

/// Decides what `convert` does with a text, given whether the text holds
/// a link and which service the text is a link of.
pub fn step_for_text(text: &str, holds_link: bool, provider: Provider) -> (step: Result<
    ConvertStep,
    ConvertError,
>)
    ensures
        step_view(step) == step_for(text@, holds_link, provider),
{
    if !holds_link {
        return Err(ConvertError::InvalidContent);
    }
    match provider {
        Provider::AppleMusic => Ok(ConvertStep::Answer { link: owned(text) }),
        _ => Ok(ConvertStep::Ask { request: request(text) }),
    }
}

/// Starts the `convert` command: checks its options, and answers with the
/// link itself where it is Apple Music's already, else names the URL to
/// GET from the link service.
pub fn run(options: &Vec<CommandOption>) -> (step: Result<ConvertStep, ConvertError>)
    ensures
        step_view(step) == conversion_step(
            if options@.len() > 0 {
                Some(options@[0]@)
            } else {
                None
            },
        ),
{
    if options.len() == 0 {
        return Err(ConvertError::InvalidInput);
    }
    match &options[0] {
        CommandOption::Other => Err(ConvertError::InvalidOption),
        CommandOption::Text(text) => {
            let holds_link = is_link(text.as_str());
            let provider = Provider::recognize(text.as_str());
            step_for_text(text.as_str(), holds_link, provider)
        },
    }
}

/// Ends the `convert` command: reads what the link service said.
pub fn finish(reply: &LinkReply) -> (answer: Result<String, ConvertError>)
    ensures
        answer_view(answer) == conversion(reply@),
{
    match reply {
        LinkReply::Unavailable => Err(ConvertError::RequestError),
        LinkReply::Links { apple_music: None } => Err(ConvertError::FailedConversion),
        LinkReply::Links { apple_music: Some(url) } => Ok(url.clone()),
    }
}

/// What is shown for an answer.
pub fn respond(answer: Result<String, ConvertError>) -> (text: String)
    ensures
        text@ == shown(answer_view(answer)),
{
    match answer {
        Ok(text) => text,
        Err(error) => error.message(),
    }
}

/// An Apple Music link is answered as it stands, and the link service
/// is not asked about it.
pub proof fn lemma_apple_music_link_is_answered(text: Seq<char>)
    requires
        regex_is_match(URL_PATTERN@, text),
        Provider::of_link(text) == Provider::AppleMusic,
    ensures
        conversion_step(Some(OptionView::Text(text))) == Ok::<ConvertStepView, ConvertError>(
            ConvertStepView::Answer { link: text },
        ),
{
}

/// About a link of any other service the link service is asked, with the
/// request that names the link.
pub proof fn lemma_other_link_is_asked_about(text: Seq<char>)
    requires
        regex_is_match(URL_PATTERN@, text),
        Provider::of_link(text) != Provider::AppleMusic,
    ensures
        conversion_step(Some(OptionView::Text(text))) == Ok::<ConvertStepView, ConvertError>(
            ConvertStepView::Ask { request: request_for(text) },
        ),
{
}

} // verus!
