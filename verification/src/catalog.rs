//! What a preview reads from a catalog answer, whatever the kind of media
//! the answer is about.
//!
//! A field that the answer leaves out, or holds in another type than the
//! expected one, is `None`.

use crate::models::albums::{self, Album};
use crate::models::artists::{self, Artist};
use crate::models::musicvideos::{self, MusicVideo};
use crate::models::playlists::{self, Playlist};
use crate::models::songs::{self, Song};
use crate::models::stations::{self, Station};
use vstd::prelude::*;

verus! {

/// One element of an answer's `data` list.
#[derive(Debug, Default, Clone, PartialEq)]
pub struct CatalogEntry {
    pub name: Option<String>,
    pub url: Option<String>,
    /// The artwork URL template, with `{w}` and `{h}` still in it.
    pub artwork: Option<String>,
    pub album_name: Option<String>,
    pub artist_name: Option<String>,
    pub curator_name: Option<String>,
    pub release_date: Option<String>,
    pub duration_in_millis: Option<u64>,
    /// The duration of each track of the track relationship, in order.
    pub tracks: Option<Vec<Option<u64>>>,
}

/// A catalog answer: its `data` list.
#[derive(Debug, Default, Clone, PartialEq)]
pub struct CatalogRecord {
    pub data: Vec<CatalogEntry>,
}

/// The mathematical content of a `CatalogEntry`.
pub struct EntryView {
    pub name: Option<Seq<char>>,
    pub url: Option<Seq<char>>,
    pub artwork: Option<Seq<char>>,
    pub album_name: Option<Seq<char>>,
    pub artist_name: Option<Seq<char>>,
    pub curator_name: Option<Seq<char>>,
    pub release_date: Option<Seq<char>>,
    pub duration_in_millis: Option<u64>,
    pub tracks: Option<Seq<Option<u64>>>,
}

/// The mathematical content of a `CatalogRecord`.
pub struct RecordView {
    pub data: Seq<EntryView>,
}

impl View for CatalogEntry {
    type V = EntryView;

    open spec fn view(&self) -> EntryView {
        EntryView {
            name: self.name.deep_view(),
            url: self.url.deep_view(),
            artwork: self.artwork.deep_view(),
            album_name: self.album_name.deep_view(),
            artist_name: self.artist_name.deep_view(),
            curator_name: self.curator_name.deep_view(),
            release_date: self.release_date.deep_view(),
            duration_in_millis: self.duration_in_millis,
            tracks: match self.tracks {
                Some(tracks) => Some(tracks@),
                None => None,
            },
        }
    }
}

impl View for CatalogRecord {
    type V = RecordView;

    open spec fn view(&self) -> RecordView {
        RecordView { data: Seq::new(self.data@.len(), |i: int| self.data@[i]@) }
    }
}

/// A duration, with zero for one that is missing.
pub open spec fn millis_or_zero(millis: Option<u64>) -> nat {
    match millis {
        Some(m) => m as nat,
        None => 0,
    }
}

/// The sum of the tracks' durations, a missing one counting as zero.
pub open spec fn total_millis(tracks: Seq<Option<u64>>) -> nat
    decreases tracks.len(),
{
    if tracks.len() == 0 {
        0
    } else {
        total_millis(tracks.drop_last()) + millis_or_zero(tracks.last())
    }
}

/// No total exceeds what as many tracks of the longest duration would give.
proof fn lemma_total_millis_bound(tracks: Seq<Option<u64>>)
    ensures
        total_millis(tracks) <= tracks.len() * u64::MAX,
    decreases tracks.len(),
{
    if tracks.len() > 0 {
        lemma_total_millis_bound(tracks.drop_last());
    }
}

/// Adds up the tracks' durations, a missing one counting as zero.
pub fn total_duration(tracks: &Vec<Option<u64>>) -> (total: u128)
    ensures
        total == total_millis(tracks@),
{
    let mut total: u128 = 0;
    let mut i: usize = 0;
    assert(tracks@.take(0) =~= Seq::empty());
    while i < tracks.len()
        invariant
            i <= tracks.len(),
            total == total_millis(tracks@.take(i as int)),
        decreases tracks.len() - i,
    {
        proof {
            lemma_total_millis_bound(tracks@.take(i as int));
            assert(tracks@.take(i + 1).drop_last() =~= tracks@.take(i as int));
        }
        match tracks[i] {
            Some(millis) => {
                total = total + millis as u128;
            },
            None => {},
        }
        i += 1;
    }
    assert(tracks@.take(tracks.len() as int) =~= tracks@);
    total
}

/// The total of two lists of tracks one after the other is the sum of
/// their totals.
pub proof fn lemma_total_millis_concat(first: Seq<Option<u64>>, second: Seq<Option<u64>>)
    ensures
        total_millis(first + second) == total_millis(first) + total_millis(second),
    decreases second.len(),
{
    if second.len() == 0 {
        assert(first + second =~= first);
    } else {
        assert((first + second).drop_last() =~= first + second.drop_last());
        lemma_total_millis_concat(first, second.drop_last());
    }
}

/// The total of a single track is its duration, zero if it has none.
pub proof fn lemma_total_millis_single(track: Option<u64>)
    ensures
        total_millis(seq![track]) == millis_or_zero(track),
{
    assert(seq![track].drop_last() =~= Seq::<Option<u64>>::empty());
    assert(total_millis(Seq::<Option<u64>>::empty()) == 0);
}

/// The durations of the tracks of an album, in order.
pub open spec fn album_track_durations(tracks: Seq<albums::Daum3>) -> Seq<Option<u64>> {
    Seq::new(tracks.len(), |i: int| Some(tracks[i].attributes.duration_in_millis))
}

/// Collects the durations of the tracks of an album.
fn album_tracks(tracks: &Vec<albums::Daum3>) -> (durations: Vec<Option<u64>>)
    ensures
        durations@ == album_track_durations(tracks@),
{
    let mut durations: Vec<Option<u64>> = Vec::new();
    let mut i: usize = 0;
    while i < tracks.len()
        invariant
            i <= tracks.len(),
            durations@ == album_track_durations(tracks@.take(i as int)),
        decreases tracks.len() - i,
    {
        durations.push(Some(tracks[i].attributes.duration_in_millis));
        i += 1;
        assert(durations@ =~= album_track_durations(tracks@.take(i as int)));
    }
    assert(tracks@.take(tracks.len() as int) =~= tracks@);
    durations
}

/// The durations of the tracks of a playlist, in order.
pub open spec fn playlist_track_durations(tracks: Seq<playlists::Daum2>) -> Seq<
    Option<u64>,
> {
    Seq::new(tracks.len(), |i: int| Some(tracks[i].attributes.duration_in_millis))
}

/// Collects the durations of the tracks of a playlist.
fn playlist_tracks(tracks: &Vec<playlists::Daum2>) -> (durations: Vec<Option<u64>>)
    ensures
        durations@ == playlist_track_durations(tracks@),
{
    let mut durations: Vec<Option<u64>> = Vec::new();
    let mut i: usize = 0;
    while i < tracks.len()
        invariant
            i <= tracks.len(),
            durations@ == playlist_track_durations(tracks@.take(i as int)),
        decreases tracks.len() - i,
    {
        durations.push(Some(tracks[i].attributes.duration_in_millis));
        i += 1;
        assert(durations@ =~= playlist_track_durations(tracks@.take(i as int)));
    }
    assert(tracks@.take(tracks.len() as int) =~= tracks@);
    durations
}

/// What a preview reads from one entry of the catalog's answer for a song.
pub open spec fn song_entry(entry: songs::Daum) -> EntryView {
    EntryView {
        name: Some(entry.attributes.name@),
        url: Some(entry.attributes.url@),
        artwork: Some(entry.attributes.artwork.url@),
        album_name: Some(entry.attributes.album_name@),
        artist_name: Some(entry.attributes.artist_name@),
        curator_name: None,
        release_date: Some(entry.attributes.release_date@),
        duration_in_millis: Some(entry.attributes.duration_in_millis),
        tracks: None,
    }
}

/// What a preview reads from the catalog's answer for a song.
pub open spec fn song_record(answer: Song) -> RecordView {
    RecordView { data: Seq::new(answer.data@.len(), |i: int| song_entry(answer.data@[i])) }
}

impl CatalogEntry {
    /// Reads one entry of the catalog's answer for a song.
    pub fn from_song(entry: &songs::Daum) -> (read: CatalogEntry)
        ensures
            read@ == song_entry(*entry),
    {
        CatalogEntry {
            name: Some(entry.attributes.name.clone()),
            url: Some(entry.attributes.url.clone()),
            artwork: Some(entry.attributes.artwork.url.clone()),
            album_name: Some(entry.attributes.album_name.clone()),
            artist_name: Some(entry.attributes.artist_name.clone()),
            curator_name: None,
            release_date: Some(entry.attributes.release_date.clone()),
            duration_in_millis: Some(entry.attributes.duration_in_millis),
            tracks: None,
        }
    }
}

impl CatalogRecord {
    /// Reads the catalog's answer for a song.
    pub fn from_song(answer: &Song) -> (record: CatalogRecord)
        ensures
            record@ == song_record(*answer),
    {
        let mut data: Vec<CatalogEntry> = Vec::new();
        let mut i: usize = 0;
        while i < answer.data.len()
            invariant
                i <= answer.data.len(),
                data@.len() == i,
                forall|j: int|
                    0 <= j < i ==> (#[trigger] data@[j])@ == song_entry(answer.data@[j]),
            decreases answer.data.len() - i,
        {
            data.push(CatalogEntry::from_song(&answer.data[i]));
            i += 1;
        }
        let record = CatalogRecord { data };
        assert(record@.data =~= song_record(*answer).data);
        record
    }
}

/// What a preview reads from one entry of the catalog's answer for an album.
pub open spec fn album_entry(entry: albums::Daum) -> EntryView {
    EntryView {
        name: Some(entry.attributes.name@),
        url: Some(entry.attributes.url@),
        artwork: Some(entry.attributes.artwork.url@),
        album_name: None,
        artist_name: Some(entry.attributes.artist_name@),
        curator_name: None,
        release_date: Some(entry.attributes.release_date@),
        duration_in_millis: None,
        tracks: Some(album_track_durations(entry.relationships.tracks.data@)),
    }
}

/// What a preview reads from the catalog's answer for an album.
pub open spec fn album_record(answer: Album) -> RecordView {
    RecordView { data: Seq::new(answer.data@.len(), |i: int| album_entry(answer.data@[i])) }
}

impl CatalogEntry {
    /// Reads one entry of the catalog's answer for an album.
    pub fn from_album(entry: &albums::Daum) -> (read: CatalogEntry)
        ensures
            read@ == album_entry(*entry),
    {
        CatalogEntry {
            name: Some(entry.attributes.name.clone()),
            url: Some(entry.attributes.url.clone()),
            artwork: Some(entry.attributes.artwork.url.clone()),
            album_name: None,
            artist_name: Some(entry.attributes.artist_name.clone()),
            curator_name: None,
            release_date: Some(entry.attributes.release_date.clone()),
            duration_in_millis: None,
            tracks: Some(album_tracks(&entry.relationships.tracks.data)),
        }
    }
}

impl CatalogRecord {
    /// Reads the catalog's answer for an album.
    pub fn from_album(answer: &Album) -> (record: CatalogRecord)
        ensures
            record@ == album_record(*answer),
    {
        let mut data: Vec<CatalogEntry> = Vec::new();
        let mut i: usize = 0;
        while i < answer.data.len()
            invariant
                i <= answer.data.len(),
                data@.len() == i,
                forall|j: int|
                    0 <= j < i ==> (#[trigger] data@[j])@ == album_entry(answer.data@[j]),
            decreases answer.data.len() - i,
        {
            data.push(CatalogEntry::from_album(&answer.data[i]));
            i += 1;
        }
        let record = CatalogRecord { data };
        assert(record@.data =~= album_record(*answer).data);
        record
    }
}

/// What a preview reads from one entry of the catalog's answer for a playlist.
pub open spec fn playlist_entry(entry: playlists::Daum) -> EntryView {
    EntryView {
        name: Some(entry.attributes.name@),
        url: Some(entry.attributes.url@),
        artwork: Some(entry.attributes.artwork.url@),
        album_name: None,
        artist_name: None,
        curator_name: Some(entry.attributes.curator_name@),
        release_date: None,
        duration_in_millis: None,
        tracks: Some(playlist_track_durations(entry.relationships.tracks.data@)),
    }
}

/// What a preview reads from the catalog's answer for a playlist.
pub open spec fn playlist_record(answer: Playlist) -> RecordView {
    RecordView { data: Seq::new(answer.data@.len(), |i: int| playlist_entry(answer.data@[i])) }
}

impl CatalogEntry {
    /// Reads one entry of the catalog's answer for a playlist.
    pub fn from_playlist(entry: &playlists::Daum) -> (read: CatalogEntry)
        ensures
            read@ == playlist_entry(*entry),
    {
        CatalogEntry {
            name: Some(entry.attributes.name.clone()),
            url: Some(entry.attributes.url.clone()),
            artwork: Some(entry.attributes.artwork.url.clone()),
            album_name: None,
            artist_name: None,
            curator_name: Some(entry.attributes.curator_name.clone()),
            release_date: None,
            duration_in_millis: None,
            tracks: Some(playlist_tracks(&entry.relationships.tracks.data)),
        }
    }
}

impl CatalogRecord {
    /// Reads the catalog's answer for a playlist.
    pub fn from_playlist(answer: &Playlist) -> (record: CatalogRecord)
        ensures
            record@ == playlist_record(*answer),
    {
        let mut data: Vec<CatalogEntry> = Vec::new();
        let mut i: usize = 0;
        while i < answer.data.len()
            invariant
                i <= answer.data.len(),
                data@.len() == i,
                forall|j: int|
                    0 <= j < i ==> (#[trigger] data@[j])@ == playlist_entry(answer.data@[j]),
            decreases answer.data.len() - i,
        {
            data.push(CatalogEntry::from_playlist(&answer.data[i]));
            i += 1;
        }
        let record = CatalogRecord { data };
        assert(record@.data =~= playlist_record(*answer).data);
        record
    }
}

/// What a preview reads from one entry of the catalog's answer for a music video.
pub open spec fn music_video_entry(entry: musicvideos::Daum) -> EntryView {
    EntryView {
        name: Some(entry.attributes.name@),
        url: Some(entry.attributes.url@),
        artwork: Some(entry.attributes.artwork.url@),
        album_name: None,
        artist_name: Some(entry.attributes.artist_name@),
        curator_name: None,
        release_date: Some(entry.attributes.release_date@),
        duration_in_millis: Some(entry.attributes.duration_in_millis),
        tracks: None,
    }
}

/// What a preview reads from the catalog's answer for a music video.
pub open spec fn music_video_record(answer: MusicVideo) -> RecordView {
    RecordView { data: Seq::new(answer.data@.len(), |i: int| music_video_entry(answer.data@[i])) }
}

impl CatalogEntry {
    /// Reads one entry of the catalog's answer for a music video.
    pub fn from_music_video(entry: &musicvideos::Daum) -> (read: CatalogEntry)
        ensures
            read@ == music_video_entry(*entry),
    {
        CatalogEntry {
            name: Some(entry.attributes.name.clone()),
            url: Some(entry.attributes.url.clone()),
            artwork: Some(entry.attributes.artwork.url.clone()),
            album_name: None,
            artist_name: Some(entry.attributes.artist_name.clone()),
            curator_name: None,
            release_date: Some(entry.attributes.release_date.clone()),
            duration_in_millis: Some(entry.attributes.duration_in_millis),
            tracks: None,
        }
    }
}

impl CatalogRecord {
    /// Reads the catalog's answer for a music video.
    pub fn from_music_video(answer: &MusicVideo) -> (record: CatalogRecord)
        ensures
            record@ == music_video_record(*answer),
    {
        let mut data: Vec<CatalogEntry> = Vec::new();
        let mut i: usize = 0;
        while i < answer.data.len()
            invariant
                i <= answer.data.len(),
                data@.len() == i,
                forall|j: int|
                    0 <= j < i ==> (#[trigger] data@[j])@ == music_video_entry(answer.data@[j]),
            decreases answer.data.len() - i,
        {
            data.push(CatalogEntry::from_music_video(&answer.data[i]));
            i += 1;
        }
        let record = CatalogRecord { data };
        assert(record@.data =~= music_video_record(*answer).data);
        record
    }
}

/// What a preview reads from one entry of the catalog's answer for a station.
pub open spec fn station_entry(entry: stations::Daum) -> EntryView {
    EntryView {
        name: Some(entry.attributes.name@),
        url: Some(entry.attributes.url@),
        artwork: Some(entry.attributes.artwork.url@),
        album_name: None,
        artist_name: None,
        curator_name: None,
        release_date: None,
        duration_in_millis: None,
        tracks: None,
    }
}

/// What a preview reads from the catalog's answer for a station.
pub open spec fn station_record(answer: Station) -> RecordView {
    RecordView { data: Seq::new(answer.data@.len(), |i: int| station_entry(answer.data@[i])) }
}

impl CatalogEntry {
    /// Reads one entry of the catalog's answer for a station.
    pub fn from_station(entry: &stations::Daum) -> (read: CatalogEntry)
        ensures
            read@ == station_entry(*entry),
    {
        CatalogEntry {
            name: Some(entry.attributes.name.clone()),
            url: Some(entry.attributes.url.clone()),
            artwork: Some(entry.attributes.artwork.url.clone()),
            album_name: None,
            artist_name: None,
            curator_name: None,
            release_date: None,
            duration_in_millis: None,
            tracks: None,
        }
    }
}

impl CatalogRecord {
    /// Reads the catalog's answer for a station.
    pub fn from_station(answer: &Station) -> (record: CatalogRecord)
        ensures
            record@ == station_record(*answer),
    {
        let mut data: Vec<CatalogEntry> = Vec::new();
        let mut i: usize = 0;
        while i < answer.data.len()
            invariant
                i <= answer.data.len(),
                data@.len() == i,
                forall|j: int|
                    0 <= j < i ==> (#[trigger] data@[j])@ == station_entry(answer.data@[j]),
            decreases answer.data.len() - i,
        {
            data.push(CatalogEntry::from_station(&answer.data[i]));
            i += 1;
        }
        let record = CatalogRecord { data };
        assert(record@.data =~= station_record(*answer).data);
        record
    }
}

/// What a preview reads from one entry of the catalog's answer for an artist.
pub open spec fn artist_entry(entry: artists::Daum) -> EntryView {
    EntryView {
        name: Some(entry.attributes.name@),
        url: Some(entry.attributes.url@),
        artwork: Some(entry.attributes.artwork.url@),
        album_name: None,
        artist_name: None,
        curator_name: None,
        release_date: None,
        duration_in_millis: None,
        tracks: None,
    }
}

/// What a preview reads from the catalog's answer for an artist.
pub open spec fn artist_record(answer: Artist) -> RecordView {
    RecordView { data: Seq::new(answer.data@.len(), |i: int| artist_entry(answer.data@[i])) }
}

impl CatalogEntry {
    /// Reads one entry of the catalog's answer for an artist.
    pub fn from_artist(entry: &artists::Daum) -> (read: CatalogEntry)
        ensures
            read@ == artist_entry(*entry),
    {
        CatalogEntry {
            name: Some(entry.attributes.name.clone()),
            url: Some(entry.attributes.url.clone()),
            artwork: Some(entry.attributes.artwork.url.clone()),
            album_name: None,
            artist_name: None,
            curator_name: None,
            release_date: None,
            duration_in_millis: None,
            tracks: None,
        }
    }
}

impl CatalogRecord {
    /// Reads the catalog's answer for an artist.
    pub fn from_artist(answer: &Artist) -> (record: CatalogRecord)
        ensures
            record@ == artist_record(*answer),
    {
        let mut data: Vec<CatalogEntry> = Vec::new();
        let mut i: usize = 0;
        while i < answer.data.len()
            invariant
                i <= answer.data.len(),
                data@.len() == i,
                forall|j: int|
                    0 <= j < i ==> (#[trigger] data@[j])@ == artist_entry(answer.data@[j]),
            decreases answer.data.len() - i,
        {
            data.push(CatalogEntry::from_artist(&answer.data[i]));
            i += 1;
        }
        let record = CatalogRecord { data };
        assert(record@.data =~= artist_record(*answer).data);
        record
    }
}

} // verus!
