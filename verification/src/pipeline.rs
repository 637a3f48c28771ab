//! The life of one chat message, from its text to the preview of the link
//! in it.
//!
//! The pipeline decides; whoever runs it does the asking. It takes what
//! happened as an `Event` and answers with the `Action` to perform next:
//! a request to the link service, a request to the catalog, or the preview
//! to show. It only ever moves forward, and any failure ends it.

use crate::catalog::{CatalogRecord, RecordView};
use crate::conversion::{get_information, information, EmbedInformation, EmbedView};
use crate::detect::{
    find_link, regex_first_match, supported, DetectedLink, Provider, URL_PATTERN,
};
use crate::media::{classified, classify, endpoint, endpoint_of, MediaReference, ReferenceView};
use crate::normalize::{
    link_view, normalization, normalize, request_for, resolve, resolved, schemeless,
    strip_scheme, CanonicalLink, CanonicalView, LinkReply, LinkReplyView, Normalization,
    NormalizationView, NormalizeError,
};
use crate::text::owned;
use vstd::prelude::*;
use vstd::string::*;

verus! {

/// Why the catalog gave no answer.
#[derive(Debug, Clone, Copy, PartialEq, Eq, Structural)]
pub enum FetchError {
    /// No developer token was at hand yet.
    MissingToken,
    /// The request could not be sent, or ran out of time.
    Transport,
    /// The catalog answered with another status than success.
    Status,
    /// The body of the answer could not be read.
    Decode,
}

/// Why a pipeline ended without a preview.
#[derive(Debug, Clone, Copy, PartialEq, Eq, Structural)]
pub enum Failure {
    NoLinkDetected,
    UnsupportedProvider,
    NormalizeFailure(NormalizeError),
    UnsupportedMediaType,
    FetchFailure(FetchError),
    AggregationFailure,
}

/// The stages that a pipeline goes through, in order.
#[derive(Debug, Clone, Copy, PartialEq, Eq, Structural)]
pub enum Stage {
    Detecting,
    Normalizing,
    Classifying,
    Fetching,
    Aggregating,
    Done,
    Aborted,
}

impl Stage {
    /// The place of a stage in the order of stages.
    pub open spec fn rank(self) -> nat {
        match self {
            Stage::Detecting => 0,
            Stage::Normalizing => 1,
            Stage::Classifying => 2,
            Stage::Fetching => 3,
            Stage::Aggregating => 4,
            Stage::Done => 5,
            Stage::Aborted => 6,
        }
    }
}

impl Failure {
    /// The stage at which this failure arises.
    pub open spec fn stage_of(self) -> Stage {
        match self {
            Failure::NoLinkDetected | Failure::UnsupportedProvider => Stage::Detecting,
            Failure::NormalizeFailure(_) => Stage::Normalizing,
            Failure::UnsupportedMediaType => Stage::Classifying,
            Failure::FetchFailure(_) => Stage::Fetching,
            Failure::AggregationFailure => Stage::Aggregating,
        }
    }

    /// The stage at which this failure arises.
    pub fn stage(&self) -> (stage: Stage)
        ensures
            stage == self.stage_of(),
    {
        match self {
            Failure::NoLinkDetected | Failure::UnsupportedProvider => Stage::Detecting,
            Failure::NormalizeFailure(_) => Stage::Normalizing,
            Failure::UnsupportedMediaType => Stage::Classifying,
            Failure::FetchFailure(_) => Stage::Fetching,
            Failure::AggregationFailure => Stage::Aggregating,
        }
    }
}

/// Where a pipeline stands between two events.
#[derive(Debug, Clone, PartialEq)]
pub enum Pipeline {
    /// Waiting for the message.
    Detecting { requester: String },
    /// Waiting for the link service.
    Normalizing { requester: String },
    /// Waiting for the catalog.
    Fetching { requester: String, link: CanonicalLink, media: MediaReference },
    /// The preview was handed out.
    Done,
    /// The pipeline gave up.
    Aborted { failure: Failure },
}

/// The mathematical content of a `Pipeline`.
pub enum PipelineView {
    Detecting { requester: Seq<char> },
    Normalizing { requester: Seq<char> },
    Fetching { requester: Seq<char>, link: CanonicalView, media: ReferenceView },
    Done,
    Aborted { failure: Failure },
}

impl View for Pipeline {
    type V = PipelineView;

    open spec fn view(&self) -> PipelineView {
        match self {
            Pipeline::Detecting { requester } => PipelineView::Detecting { requester: requester@ },
            Pipeline::Normalizing { requester } => PipelineView::Normalizing {
                requester: requester@,
            },
            Pipeline::Fetching { requester, link, media } => PipelineView::Fetching {
                requester: requester@,
                link: link@,
                media: media@,
            },
            Pipeline::Done => PipelineView::Done,
            Pipeline::Aborted { failure } => PipelineView::Aborted { failure: *failure },
        }
    }
}

impl PipelineView {
    /// The stage that a pipeline in this state is at.
    pub open spec fn stage(self) -> Stage {
        match self {
            PipelineView::Detecting { .. } => Stage::Detecting,
            PipelineView::Normalizing { .. } => Stage::Normalizing,
            PipelineView::Fetching { .. } => Stage::Fetching,
            PipelineView::Done => Stage::Done,
            PipelineView::Aborted { .. } => Stage::Aborted,
        }
    }
}

/// What happened outside the pipeline.
#[derive(Debug, PartialEq)]
pub enum Event {
    /// A message arrived.
    Message { text: String },
    /// The link service was asked.
    Normalized { reply: LinkReply },
    /// The catalog was asked.
    Fetched { record: Result<CatalogRecord, FetchError> },
}

/// The mathematical content of an `Event`.
pub enum EventView {
    Message { text: Seq<char> },
    Normalized { reply: LinkReplyView },
    Fetched { record: Result<RecordView, FetchError> },
}

/// The mathematical content of the catalog's answer or of its absence.
pub open spec fn record_view(record: Result<CatalogRecord, FetchError>) -> Result<
    RecordView,
    FetchError,
> {
    match record {
        Ok(record) => Ok(record@),
        Err(error) => Err(error),
    }
}

impl View for Event {
    type V = EventView;

    open spec fn view(&self) -> EventView {
        match self {
            Event::Message { text } => EventView::Message { text: text@ },
            Event::Normalized { reply } => EventView::Normalized { reply: reply@ },
            Event::Fetched { record } => EventView::Fetched { record: record_view(*record) },
        }
    }
}

/// What the pipeline wants done next.
#[derive(Debug, Clone, PartialEq)]
pub enum Action {
    /// Nothing: the pipeline has ended, or the event was not for it.
    Nothing,
    /// GET this URL from the link service and come back with `Normalized`.
    Normalize { request: String },
    /// GET this path from the catalog and come back with `Fetched`.
    Fetch { endpoint: String },
    /// Show this preview, with its two buttons.
    Render { embed: EmbedInformation, play_link: String, view_link: String },
}

/// The mathematical content of an `Action`.
pub enum ActionView {
    Nothing,
    Normalize { request: Seq<char> },
    Fetch { endpoint: Seq<char> },
    Render { embed: EmbedView, play_link: Seq<char>, view_link: Seq<char> },
}

impl View for Action {
    type V = ActionView;

    open spec fn view(&self) -> ActionView {
        match self {
            Action::Nothing => ActionView::Nothing,
            Action::Normalize { request } => ActionView::Normalize { request: request@ },
            Action::Fetch { endpoint } => ActionView::Fetch { endpoint: endpoint@ },
            Action::Render { embed, play_link, view_link } => ActionView::Render {
                embed: embed@,
                play_link: play_link@,
                view_link: view_link@,
            },
        }
    }
}

/// The address that plays a canonical URL in the player.
pub open spec fn play_link_of(url: Seq<char>) -> Seq<char> {
    "https://cider.sh/p?"@ + schemeless(url)
}

/// The address that shows a canonical URL in the player.
pub open spec fn view_link_of(url: Seq<char>) -> Seq<char> {
    "https://cider.sh/o?"@ + schemeless(url)
}

/// Where a pipeline goes once normalizing has come to `link`: on to the
/// catalog if the link is canonical and refers to something that the
/// catalog knows.
pub open spec fn after_normalizing(
    requester: Seq<char>,
    link: Result<CanonicalView, NormalizeError>,
) -> (PipelineView, ActionView) {
    match link {
        Err(error) => (
            PipelineView::Aborted { failure: Failure::NormalizeFailure(error) },
            ActionView::Nothing,
        ),
        Ok(link) => match classified(link.url) {
            None => (
                PipelineView::Aborted { failure: Failure::UnsupportedMediaType },
                ActionView::Nothing,
            ),
            Some(media) => (
                PipelineView::Fetching { requester, link, media },
                ActionView::Fetch { endpoint: endpoint_of(media.kind, link.storefront, media.id) },
            ),
        },
    }
}

/// Where a pipeline that waits for the message goes on a message: it
/// ends on a message without a link of a supported service, asks the link
/// service where the link needs normalizing, and else goes on to the
/// catalog at once.
pub open spec fn after_message(requester: Seq<char>, text: Seq<char>) -> (
    PipelineView,
    ActionView,
) {
    match regex_first_match(URL_PATTERN@, text) {
        None => (PipelineView::Aborted { failure: Failure::NoLinkDetected }, ActionView::Nothing),
        Some(found) => match supported(Some(found), Provider::of_link(found)) {
            None => (
                PipelineView::Aborted { failure: Failure::UnsupportedProvider },
                ActionView::Nothing,
            ),
            Some(link) => match normalization(link) {
                NormalizationView::Ask { request } => (
                    PipelineView::Normalizing { requester },
                    ActionView::Normalize { request },
                ),
                NormalizationView::Settled { link } => after_normalizing(requester, link),
            },
        },
    }
}

/// Where a pipeline that waits for the catalog goes on its answer.
pub open spec fn after_fetching(
    requester: Seq<char>,
    link: CanonicalView,
    media: ReferenceView,
    record: Result<RecordView, FetchError>,
) -> (PipelineView, ActionView) {
    match record {
        Err(error) => (
            PipelineView::Aborted { failure: Failure::FetchFailure(error) },
            ActionView::Nothing,
        ),
        Ok(record) => match information(media.kind, record, requester) {
            None => (
                PipelineView::Aborted { failure: Failure::AggregationFailure },
                ActionView::Nothing,
            ),
            Some(embed) => (
                PipelineView::Done,
                ActionView::Render {
                    embed,
                    play_link: play_link_of(link.url),
                    view_link: view_link_of(link.url),
                },
            ),
        },
    }
}

/// The state that follows `state` on `event`, and the action to perform.
/// An event that the state does not wait for changes nothing.
pub open spec fn next(state: PipelineView, event: EventView) -> (PipelineView, ActionView) {
    match (state, event) {
        (PipelineView::Detecting { requester }, EventView::Message { text }) => after_message(
            requester,
            text,
        ),
        (PipelineView::Normalizing { requester }, EventView::Normalized { reply }) => {
            after_normalizing(requester, resolved(reply))
        },
        (PipelineView::Fetching { requester, link, media }, EventView::Fetched { record }) => {
            after_fetching(requester, link, media, record)
        },
        _ => (state, ActionView::Nothing),
    }
}

/// The address that plays a canonical URL in the player.
pub fn play_link(url: &str) -> (link: String)
    ensures
        link@ == play_link_of(url@),
{
    let mut link = owned("https://cider.sh/p?");
    link.append(strip_scheme(url).as_str());
    link
}

/// The address that shows a canonical URL in the player.
pub fn view_link(url: &str) -> (link: String)
    ensures
        link@ == view_link_of(url@),
{
    let mut link = owned("https://cider.sh/o?");
    link.append(strip_scheme(url).as_str());
    link
}

impl Pipeline {
    /// A pipeline for a message of `requester`, waiting for its text.
    pub fn new(requester: String) -> (pipeline: Pipeline)
        ensures
            pipeline@ == (PipelineView::Detecting { requester: requester@ }),
    {
        Pipeline::Detecting { requester }
    }

    /// The stage that the pipeline is at.
    pub fn stage(&self) -> (stage: Stage)
        ensures
            stage == self@.stage(),
    {
        match self {
            Pipeline::Detecting { .. } => Stage::Detecting,
            Pipeline::Normalizing { .. } => Stage::Normalizing,
            Pipeline::Fetching { .. } => Stage::Fetching,
            Pipeline::Done => Stage::Done,
            Pipeline::Aborted { .. } => Stage::Aborted,
        }
    }

    /// Goes on to the catalog with the outcome of normalizing.
    fn classify_link(requester: String, link: Result<CanonicalLink, NormalizeError>) -> (step: (
        Pipeline,
        Action,
    ))
        ensures
            (step.0@, step.1@) == after_normalizing(requester@, link_view(link)),
    {
        match link {
            Err(error) => (
                Pipeline::Aborted { failure: Failure::NormalizeFailure(error) },
                Action::Nothing,
            ),
            Ok(link) => match classify(link.url.as_str()) {
                None => (
                    Pipeline::Aborted { failure: Failure::UnsupportedMediaType },
                    Action::Nothing,
                ),
                Some(media) => {
                    let endpoint = endpoint(
                        media.kind,
                        link.storefront.as_str(),
                        media.id.as_str(),
                    );
                    (Pipeline::Fetching { requester, link, media }, Action::Fetch { endpoint })
                },
            },
        }
    }

    /// Takes the message.
    fn on_message(requester: String, text: &str) -> (step: (Pipeline, Action))
        ensures
            (step.0@, step.1@) == after_message(requester@, text@),
    {
        let found = match find_link(text) {
            Some(found) => found,
            None => {
                return (Pipeline::Aborted { failure: Failure::NoLinkDetected }, Action::Nothing);
            },
        };
        let provider = Provider::recognize(found.as_str());
        let link = match DetectedLink::from_match(Some(found), provider) {
            Some(link) => link,
            None => {
                return (
                    Pipeline::Aborted { failure: Failure::UnsupportedProvider },
                    Action::Nothing,
                );
            },
        };
        match normalize(&link) {
            Normalization::Ask { request } => (
                Pipeline::Normalizing { requester },
                Action::Normalize { request },
            ),
            Normalization::Settled { link } => Pipeline::classify_link(requester, link),
        }
    }

    /// Takes the catalog's answer.
    fn on_fetched(
        requester: String,
        link: CanonicalLink,
        media: MediaReference,
        record: Result<CatalogRecord, FetchError>,
    ) -> (step: (Pipeline, Action))
        ensures
            (step.0@, step.1@) == after_fetching(requester@, link@, media@, record_view(record)),
    {
        match record {
            Err(error) => (
                Pipeline::Aborted { failure: Failure::FetchFailure(error) },
                Action::Nothing,
            ),
            Ok(record) => match get_information(media.kind, &record, requester.as_str()) {
                None => (
                    Pipeline::Aborted { failure: Failure::AggregationFailure },
                    Action::Nothing,
                ),
                Some(embed) => (
                    Pipeline::Done,
                    Action::Render {
                        embed,
                        play_link: play_link(link.url.as_str()),
                        view_link: view_link(link.url.as_str()),
                    },
                ),
            },
        }
    }

    /// Takes an event and says what to do next.
    ///
    /// A pipeline that waits for the message takes `Message`, one that
    /// waits for the link service `Normalized`, one that waits for the
    /// catalog `Fetched`. On any other event, and once it has ended, the
    /// pipeline stays as it is and asks for nothing.
    pub fn step(self, event: Event) -> (step: (Pipeline, Action))
        ensures
            (step.0@, step.1@) == next(self@, event@),
    {
        match (self, event) {
            (Pipeline::Detecting { requester }, Event::Message { text }) => Pipeline::on_message(
                requester,
                text.as_str(),
            ),
            (Pipeline::Normalizing { requester }, Event::Normalized { reply }) => {
                let link = resolve(&reply);
                Pipeline::classify_link(requester, link)
            },
            (Pipeline::Fetching { requester, link, media }, Event::Fetched { record }) => {
                Pipeline::on_fetched(requester, link, media, record)
            },
            (state, _) => (state, Action::Nothing),
        }
    }
}

/// A message without a link asks for nothing: the pipeline ends at once.
pub proof fn lemma_no_link_no_action(requester: Seq<char>, text: Seq<char>)
    requires
        regex_first_match(URL_PATTERN@, text) is None,
    ensures
        next(PipelineView::Detecting { requester }, EventView::Message { text }) == (
            PipelineView::Aborted { failure: Failure::NoLinkDetected },
            ActionView::Nothing,
        ),
{
}

/// An Apple Music link is its own canonical form: the link service is not
/// asked, and the link that goes on to the catalog is the one found.
pub proof fn lemma_apple_music_link_is_kept(requester: Seq<char>, text: Seq<char>)
    requires
        regex_first_match(URL_PATTERN@, text) is Some,
        Provider::of_link(regex_first_match(URL_PATTERN@, text)->0) == Provider::AppleMusic,
    ensures
        ({
            let step = next(PipelineView::Detecting { requester }, EventView::Message { text });
            &&& !(step.1 is Normalize)
            &&& !(step.0 is Normalizing)
            &&& step.0 matches PipelineView::Fetching { link, .. } ==> link.url
                == regex_first_match(URL_PATTERN@, text)->0
        }),
{
}

/// A Spotify link makes the pipeline ask the link service about it, and
/// the answer's Apple Music URL is the one that goes on to the catalog.
pub proof fn lemma_spotify_link_is_looked_up(
    requester: Seq<char>,
    text: Seq<char>,
    reply: LinkReplyView,
)
    requires
        regex_first_match(URL_PATTERN@, text) is Some,
        Provider::of_link(regex_first_match(URL_PATTERN@, text)->0) == Provider::Spotify,
    ensures
        ({
            let asked = next(PipelineView::Detecting { requester }, EventView::Message { text });
            let answered = next(asked.0, EventView::Normalized { reply });
            &&& asked.0 == PipelineView::Normalizing { requester }
            &&& asked.1 == ActionView::Normalize {
                request: request_for(regex_first_match(URL_PATTERN@, text)->0),
            }
            &&& answered.0 matches PipelineView::Fetching { link, .. } ==> reply
                == LinkReplyView::Links { apple_music: Some(link.url) }
        }),
{
}

/// The link service is asked at most once: only a pipeline that waits for
/// the message ever asks for it.
pub proof fn lemma_link_service_asked_once(state: PipelineView, event: EventView)
    requires
        !(state is Detecting),
    ensures
        !(next(state, event).1 is Normalize),
        !(next(state, event).0 is Detecting),
{
}

/// A pipeline never goes back to an earlier stage, and one that has ended
/// stays as it is and asks for nothing.
pub proof fn lemma_only_forward(state: PipelineView, event: EventView)
    ensures
        next(state, event).0.stage().rank() >= state.stage().rank(),
        state is Done || state is Aborted ==> next(state, event) == (state, ActionView::Nothing),
{
}

} // verus!
