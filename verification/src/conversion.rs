//! From a classified link and the catalog's answer to the preview shown in
//! the channel.

use crate::catalog::{
    millis_or_zero, total_duration, total_millis, CatalogEntry, CatalogRecord, EntryView,
    RecordView,
};
use crate::media::MediaType;
use crate::text::owned;
use crate::util::{hhmmss, milli_to_hhmmss, na, or_na, sized, wh};
use vstd::prelude::*;
use vstd::string::*;

verus! {

/// The side, in pixels, of the square artwork that a preview shows.
pub const ARTWORK_SIDE: u32 = 512;

/// The preview of one link.
#[derive(Debug, Default, Clone, PartialEq)]
pub struct EmbedInformation {
    pub title: String,
    pub description: String,
    pub footer: String,
    pub artwork: String,
    pub url: String,
}

/// The mathematical content of an `EmbedInformation`.
pub struct EmbedView {
    pub title: Seq<char>,
    pub description: Seq<char>,
    pub footer: Seq<char>,
    pub artwork: Seq<char>,
    pub url: Seq<char>,
}

impl View for EmbedInformation {
    type V = EmbedView;

    open spec fn view(&self) -> EmbedView {
        EmbedView {
            title: self.title@,
            description: self.description@,
            footer: self.footer@,
            artwork: self.artwork@,
            url: self.url@,
        }
    }
}

impl DeepView for EmbedInformation {
    type V = EmbedView;

    open spec fn deep_view(&self) -> EmbedView {
        self@
    }
}

/// The invitation to listen to `what` by `whom`.
pub open spec fn listen_by(what: Seq<char>, whom: Seq<char>) -> Seq<char> {
    "Listen to "@ + what + " by "@ + whom + " on Cider"@
}

/// The description line of a preview, or `None` where the entry lacks a
/// field that the line of this kind of media cannot do without. A playlist
/// without a curator is by `N/A`.
pub open spec fn description_of(media: MediaType, entry: EntryView) -> Option<Seq<char>> {
    match entry.name {
        None => None,
        Some(name) => match media {
            MediaType::Song => match (entry.album_name, entry.artist_name) {
                (Some(album), Some(artist)) => Some(listen_by(album, artist)),
                _ => None,
            },
            MediaType::Album | MediaType::MusicVideo => match entry.artist_name {
                Some(artist) => Some(listen_by(name, artist)),
                None => None,
            },
            MediaType::Playlist => Some(listen_by(name, or_na(entry.curator_name))),
            MediaType::Station => Some("Tune into "@ + name + " on Cider"@),
            MediaType::Artist => Some("Listen to "@ + name + " on Cider"@),
        },
    }
}

/// Whether a preview of this kind of media shows a play time.
pub open spec fn shows_play_time(media: MediaType) -> bool {
    media != MediaType::Station && media != MediaType::Artist
}

/// Whether a preview of this kind of media shows a release date.
pub open spec fn shows_release_date(media: MediaType) -> bool {
    media == MediaType::Song || media == MediaType::Album || media == MediaType::MusicVideo
}

/// The play time in milliseconds: for an album or a playlist the sum over
/// its tracks, `None` where it has no track list; for a song or a music
/// video its own duration. A missing duration counts as zero. Kinds that
/// show no play time have zero.
pub open spec fn play_time_of(media: MediaType, entry: EntryView) -> Option<nat> {
    match media {
        MediaType::Album | MediaType::Playlist => match entry.tracks {
            Some(tracks) => Some(total_millis(tracks)),
            None => None,
        },
        MediaType::Song | MediaType::MusicVideo => Some(millis_or_zero(entry.duration_in_millis)),
        MediaType::Station | MediaType::Artist => Some(0),
    }
}

/// The footer line: who shared the link, then the play time and the release
/// date where this kind of media shows them. A missing release date is `N/A`.
pub open spec fn footer_of(media: MediaType, entry: EntryView, requester: Seq<char>) -> Option<
    Seq<char>,
> {
    match play_time_of(media, entry) {
        None => None,
        Some(millis) => Some(
            "Shared by "@ + requester + (if shows_play_time(media) {
                " | "@ + hhmmss(millis)
            } else {
                Seq::empty()
            }) + (if shows_release_date(media) {
                " \u{2022} "@ + or_na(entry.release_date)
            } else {
                Seq::empty()
            }),
        ),
    }
}

/// The preview of one entry, or `None` where the entry lacks its name, its
/// URL, its artwork, or what its description or footer need.
pub open spec fn embed_of(media: MediaType, entry: EntryView, requester: Seq<char>) -> Option<
    EmbedView,
> {
    match (
        entry.name,
        entry.url,
        entry.artwork,
        description_of(media, entry),
        footer_of(media, entry, requester),
    ) {
        (Some(name), Some(url), Some(artwork), Some(description), Some(footer)) => Some(
            EmbedView {
                title: name,
                description,
                footer,
                artwork: sized(artwork, ARTWORK_SIDE as nat, ARTWORK_SIDE as nat),
                url,
            },
        ),
        _ => None,
    }
}

/// The preview that a catalog answer gives: that of its first entry, `None`
/// for an answer without entries.
pub open spec fn information(media: MediaType, record: RecordView, requester: Seq<char>) -> Option<
    EmbedView,
> {
    if record.data.len() == 0 {
        None
    } else {
        embed_of(media, record.data[0], requester)
    }
}

/// Writes the invitation to listen to `what` by `whom`.
fn listen_by_text(what: &str, whom: &str) -> (line: String)
    ensures
        line@ == listen_by(what@, whom@),
{
    let mut line = owned("Listen to ");
    line.append(what);
    line.append(" by ");
    line.append(whom);
    line.append(" on Cider");
    line
}

/// Writes the description line of a preview.
fn describe(media: MediaType, entry: &CatalogEntry) -> (line: Option<String>)
    ensures
        line.deep_view() == description_of(media, entry@),
{
    let name = match &entry.name {
        Some(name) => name,
        None => {
            return None;
        },
    };
    match media {
        MediaType::Song => match (&entry.album_name, &entry.artist_name) {
            (Some(album), Some(artist)) => Some(listen_by_text(album.as_str(), artist.as_str())),
            _ => None,
        },
        MediaType::Album | MediaType::MusicVideo => match &entry.artist_name {
            Some(artist) => Some(listen_by_text(name.as_str(), artist.as_str())),
            None => None,
        },
        MediaType::Playlist => {
            let curator = na(&entry.curator_name);
            Some(listen_by_text(name.as_str(), curator.as_str()))
        },
        MediaType::Station => {
            let mut line = owned("Tune into ");
            line.append(name.as_str());
            line.append(" on Cider");
            Some(line)
        },
        MediaType::Artist => {
            let mut line = owned("Listen to ");
            line.append(name.as_str());
            line.append(" on Cider");
            Some(line)
        },
    }
}

/// Works out the play time in milliseconds.
fn play_time(media: MediaType, entry: &CatalogEntry) -> (millis: Option<u128>)
    ensures
        match millis {
            Some(m) => play_time_of(media, entry@) == Some(m as nat),
            None => play_time_of(media, entry@) is None,
        },
{
    match media {
        MediaType::Album | MediaType::Playlist => match &entry.tracks {
            Some(tracks) => Some(total_duration(tracks)),
            None => None,
        },
        MediaType::Song | MediaType::MusicVideo => match entry.duration_in_millis {
            Some(m) => Some(m as u128),
            None => Some(0),
        },
        MediaType::Station | MediaType::Artist => Some(0),
    }
}

/// Writes the footer line of a preview.
fn footer(media: MediaType, entry: &CatalogEntry, requester: &str) -> (line: Option<String>)
    ensures
        line.deep_view() == footer_of(media, entry@, requester@),
{
    let millis = match play_time(media, entry) {
        Some(millis) => millis,
        None => {
            return None;
        },
    };
    let mut line = owned("Shared by ");
    line.append(requester);
    let ghost shared = line@;
    match media {
        MediaType::Station | MediaType::Artist => {
            assert(line@ =~= shared + Seq::<char>::empty() + Seq::<char>::empty());
        },
        MediaType::Playlist => {
            line.append(" | ");
            line.append(milli_to_hhmmss(millis).as_str());
            assert(line@ =~= shared + (" | "@ + hhmmss(millis as nat)) + Seq::<char>::empty());
        },
        MediaType::Song | MediaType::Album | MediaType::MusicVideo => {
            line.append(" | ");
            line.append(milli_to_hhmmss(millis).as_str());
            line.append(" \u{2022} ");
            line.append(na(&entry.release_date).as_str());
            assert(line@ =~= shared + (" | "@ + hhmmss(millis as nat)) + (" \u{2022} "@ + or_na(
                entry@.release_date,
            )));
        },
    }
    Some(line)
}

/// Assembles the preview of the link that the catalog answered for.
///
/// The first entry of the answer is the one that counts. Without it, or
/// where it lacks a field that the preview cannot do without, there is no
/// preview.
pub fn get_information(media: MediaType, record: &CatalogRecord, requester: &str) -> (embed: Option<
    EmbedInformation,
>)
    ensures
        embed.deep_view() == information(media, record@, requester@),
{
    if record.data.len() == 0 {
        return None;
    }
    let entry = &record.data[0];
    let (name, url, artwork) = match (&entry.name, &entry.url, &entry.artwork) {
        (Some(name), Some(url), Some(artwork)) => (name, url, artwork),
        _ => {
            return None;
        },
    };
    let description = match describe(media, entry) {
        Some(description) => description,
        None => {
            return None;
        },
    };
    let footer = match footer(media, entry, requester) {
        Some(footer) => footer,
        None => {
            return None;
        },
    };
    Some(
        EmbedInformation {
            title: name.clone(),
            description,
            footer,
            artwork: wh(artwork.as_str(), ARTWORK_SIDE, ARTWORK_SIDE),
            url: url.clone(),
        },
    )
}

/// The play time of an album or a playlist is the sum of its tracks'
/// durations.
pub proof fn lemma_play_time_sums_tracks(media: MediaType, entry: EntryView)
    requires
        media == MediaType::Album || media == MediaType::Playlist,
        entry.tracks is Some,
    ensures
        play_time_of(media, entry) == Some(total_millis(entry.tracks->0)),
{
}

/// A missing curator or release date never costs the preview: whether
/// there is one does not depend on them, and where they are missing the
/// preview says `N/A` in their place.
pub proof fn lemma_optional_fields(media: MediaType, entry: EntryView, requester: Seq<char>)
    ensures
        ({
            let bare = EntryView { curator_name: None, release_date: None, ..entry };
            &&& embed_of(media, entry, requester) is Some <==> embed_of(media, bare, requester)
                is Some
            &&& media == MediaType::Playlist && embed_of(media, bare, requester) is Some
                ==> embed_of(media, bare, requester)->0.description == listen_by(
                entry.name->0,
                "N/A"@,
            )
            &&& shows_release_date(media) && embed_of(media, bare, requester) is Some ==> embed_of(
                media,
                bare,
                requester,
            )->0.footer == "Shared by "@ + requester + (" | "@ + hhmmss(
                play_time_of(media, entry)->0,
            )) + (" \u{2022} "@ + "N/A"@)
        }),
{
}

/// An entry without a name, a URL or an artwork gives no preview, of
/// whatever kind of media it is; nor does an answer without entries.
pub proof fn lemma_required_fields(media: MediaType, record: RecordView, requester: Seq<char>)
    requires
        record.data.len() == 0 || record.data[0].name is None || record.data[0].url is None
            || record.data[0].artwork is None,
    ensures
        information(media, record, requester) is None,
{
}

} // verus!
