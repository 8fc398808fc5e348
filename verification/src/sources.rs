//! Where tracks come from: Spotify links and YouTube queries.

use crate::commands::QueryType;
use crate::model::TrackInfo;
use crate::text::{lemma_has_prefix_chars, has_prefix, join, join_strings, starts_with, str_eq, views};
use rspotify::model::{IdError, TrackId};
use vstd::prelude::*;

verus! {

#[verifier::external_type_specification]
#[verifier::external_body]
pub struct ExTrackId<'a>(TrackId<'a>);

#[verifier::external_type_specification]
#[verifier::external_body]
pub struct ExIdError(IdError);

/// The text that the group named `group` of the regular expression
/// `pattern` captures in the leftmost-first match of the expression in
/// `haystack`; absent when the pattern does not compile, nothing matches, or
/// the group took no part in the match.
pub uninterp spec fn regex_named_capture(pattern: Seq<char>, haystack: Seq<char>, group: Seq<char>) -> Option<Seq<char>>;

/// Compiles `pattern` with `regex::Regex::new`, runs `Regex::captures` on
/// `haystack` and takes the named group with `Captures::name`. Only the
/// name `regex_named_capture` is claimed of the result, tied to all three
/// arguments; what the regex engine matches is not restated here.
#[verifier::external_body]
fn named_capture(pattern: &str, haystack: &str, group: &str) -> (r: Option<String>)
    ensures
        match r {
            Some(s) => regex_named_capture(pattern@, haystack@, group@) == Some(s@),
            None => regex_named_capture(pattern@, haystack@, group@) is None,
        },
{
    match regex::Regex::new(pattern) {
        Ok(re) => match re.captures(haystack) {
            Some(caps) => match caps.name(group) {
                Some(m) => Some(m.as_str().to_string()),
                None => None,
            },
            None => None,
        },
        Err(_) => None,
    }
}

/// Whether `c` is an ASCII letter or digit.
pub open spec fn is_ascii_alphanumeric(c: char) -> bool {
    ('0' <= c && c <= '9') || ('a' <= c && c <= 'z') || ('A' <= c && c <= 'Z')
}

/// Whether `id` is made of ASCII letters and digits only, as Spotify ids are.
pub open spec fn spotify_id_valid(id: Seq<char>) -> bool {
    forall|i: int| 0 <= i < id.len() ==> is_ascii_alphanumeric(#[trigger] id[i])
}

/// The id text a Spotify track id holds.
pub uninterp spec fn track_id_text(id: TrackId<'static>) -> Seq<char>;

/// `rspotify::model::TrackId::from_id`: its source accepts the id exactly
/// when every character is an ASCII letter or digit (the empty id
/// included), and then wraps the given text unchanged.
#[verifier::external_body]
fn track_id_from(id: String) -> (r: Result<TrackId<'static>, IdError>)
    ensures
        r is Ok <==> spotify_id_valid(id@),
        r matches Ok(t) ==> track_id_text(t) == id@,
{
    TrackId::from_id(id)
}

/// The kind of Spotify item a link points to.
#[derive(Debug, Clone, Copy, PartialEq, Eq, Structural)]
pub enum MediaType {
    Track,
    Album,
    Playlist,
}

/// The media type that the path segment `s` names.
pub open spec fn media_type_of(s: Seq<char>) -> Option<MediaType> {
    if s == "track"@ {
        Some(MediaType::Track)
    } else if s == "album"@ {
        Some(MediaType::Album)
    } else if s == "playlist"@ {
        Some(MediaType::Playlist)
    } else {
        None
    }
}

impl MediaType {
    /// Reads `track`, `album` or `playlist`; anything else is refused.
    pub fn from_str(s: &str) -> (r: Result<MediaType, ()>)
        ensures
            match media_type_of(s@) {
                Some(t) => r == Ok::<MediaType, ()>(t),
                None => r is Err,
            },
    {
        if str_eq(s, "track") {
            Ok(MediaType::Track)
        } else if str_eq(s, "album") {
            Ok(MediaType::Album)
        } else if str_eq(s, "playlist") {
            Ok(MediaType::Playlist)
        } else {
            Err(())
        }
    }
}

/// The expression a Spotify link is read with: the path segment after
/// `spotify.com/` up to the last `/` is the media type, and what follows up
/// to a `?` or the end is the media id.
pub const SPOTIFY_QUERY_PATTERN: &'static str = "spotify.com/(?P<media_type>.+)/(?P<media_id>.*?)(?:\\?|$)";

/// What a Spotify link asks for: its media type and media id, when the link
/// matches the pattern and names a known media type.
pub open spec fn spotify_request(query: Seq<char>) -> Option<(MediaType, Seq<char>)> {
    match regex_named_capture(SPOTIFY_QUERY_PATTERN@, query, "media_type"@) {
        None => None,
        Some(t) => match media_type_of(t) {
            None => None,
            Some(m) => match regex_named_capture(SPOTIFY_QUERY_PATTERN@, query, "media_id"@) {
                None => None,
                Some(id) => Some((m, id)),
            },
        },
    }
}

/// The search words for a Spotify track: its artists, a dash, its name.
pub open spec fn spotify_query_text(artists: Seq<char>, track_name: Seq<char>) -> Seq<char> {
    artists + " - "@ + track_name
}

/// Spotify, as a source of search words.
pub struct Spotify {}

impl Spotify {
    /// Reads the media type and media id out of a Spotify link.
    pub fn media_request(query: &str) -> (r: Option<(MediaType, String)>)
        ensures
            match spotify_request(query@) {
                None => r is None,
                Some((m, id)) => r matches Some((rm, rid)) && rm == m && rid@ == id,
            },
    {
        let type_text = named_capture(SPOTIFY_QUERY_PATTERN, query, "media_type");
        match type_text {
            None => None,
            Some(t) => match MediaType::from_str(t.as_str()) {
                Err(_) => None,
                Ok(m) => match named_capture(SPOTIFY_QUERY_PATTERN, query, "media_id") {
                    None => None,
                    Some(id) => Some((m, id)),
                },
            },
        }
    }

    /// The track id for `media_id`, when it is a valid Spotify id; it holds
    /// `media_id` itself.
    pub fn track_id(media_id: &str) -> (r: Option<TrackId<'static>>)
        ensures
            r is Some <==> spotify_id_valid(media_id@),
            r matches Some(t) ==> track_id_text(t) == media_id@,
    {
        match track_id_from(media_id.to_string()) {
            Ok(id) => Some(id),
            Err(_) => None,
        }
    }

    /// `artists - track_name`.
    pub fn build_query(artists: &str, track_name: &str) -> (r: String)
        ensures
            r@ == spotify_query_text(artists@, track_name@),
    {
        let mut r = artists.to_string();
        proof { reveal_strlit(" - "); }
        r.append(" - ");
        r.append(track_name);
        r
    }

    /// The artists' names, separated by spaces.
    pub fn join_artists(artists: &Vec<String>) -> (r: String)
        ensures
            r@ == join(views(artists@), " "@),
    {
        join_strings(artists, " ")
    }

    /// The search a Spotify track turns into: its artists' names separated
    /// by spaces, a dash, and its name.
    pub fn track_query(artists: &Vec<String>, track_name: &str) -> (q: QueryType)
        ensures
            q matches QueryType::Keywords(k) && k@ == spotify_query_text(
                join(views(artists@), " "@),
                track_name@,
            ),
    {
        let names = Self::join_artists(artists);
        QueryType::Keywords(Self::build_query(names.as_str(), track_name))
    }
}


/// What the YouTube source reports of a video; any part may be missing.
pub struct TrackMetadata {
    pub title: Option<String>,
    pub artist: Option<String>,
    pub duration_secs: Option<u64>,
    pub thumbnail: Option<String>,
}

/// Whether `query` is a search (anything that does not start with `http`).
pub open spec fn is_search(query: Seq<char>) -> bool {
    !has_prefix(query, "http"@)
}

/// YouTube, as a source of playable tracks.
pub struct YouTube {}

impl YouTube {
    /// What to ask YouTube for: a link is fetched as given, anything else is
    /// searched for.
    pub fn query(query: String) -> (r: Result<QueryType, ()>)
        ensures
            match r {
                Ok(QueryType::Keywords(k)) => is_search(query@) && k@ == query@,
                Ok(QueryType::VideoLink(l)) => !is_search(query@) && l@ == query@,
                _ => false,
            },
    {
        let do_search = !starts_with(query.as_str(), "http");
        if do_search {
            Ok(QueryType::Keywords(query))
        } else {
            Ok(QueryType::VideoLink(query))
        }
    }

    /// The track info for a video: its reported title, artist, duration in
    /// seconds and thumbnail when the metadata could be fetched, and
    /// placeholder values when it could not.
    pub fn info(metadata: Option<TrackMetadata>) -> (info: TrackInfo)
        requires
            metadata matches Some(m) ==> m.title is Some && m.artist is Some && m.duration_secs is Some
                && m.thumbnail is Some,
        ensures
            match metadata {
                Some(m) => info.name@ == m.title.unwrap()@ && info.artists@.len() == 1
                    && info.artists@[0]@ == m.artist.unwrap()@ && info.duration
                    == m.duration_secs.unwrap() && info.image_url@ == m.thumbnail.unwrap()@,
                None => info.name@ == "Track"@ && info.artists@.len() == 1 && info.artists@[0]@
                    == "Artist"@ && info.duration == 0 && info.image_url@
                    == "https://imgur.com/hAV6F86"@,
            },
    {
        match metadata {
            Some(m) => {
                let name = m.title.unwrap();
                let artist = m.artist.unwrap();
                let duration = m.duration_secs.unwrap();
                let image_url = m.thumbnail.unwrap();
                let mut artists = Vec::new();
                artists.push(artist);
                TrackInfo { name, artists, duration, image_url }
            },
            None => {
                let mut artists = Vec::new();
                artists.push("Artist".to_string());
                TrackInfo {
                    name: "Track".to_string(),
                    artists,
                    duration: 0,
                    image_url: "https://imgur.com/hAV6F86".to_string(),
                }
            },
        }
    }
}


/// A play request is fetched as a link exactly when its first four
/// characters are `h`, `t`, `t`, `p`; everything else (a single word
/// included) is searched for.
pub proof fn lemma_search_unless_http(query: Seq<char>)
    ensures
        !is_search(query) <==> (query.len() >= 4 && query[0] == 'h' && query[1] == 't' && query[2]
            == 't' && query[3] == 'p'),
{
    reveal_strlit("http");
    lemma_has_prefix_chars(query, "http"@);
}

/// The search words for a Spotify track are the artists, then ` - `, then
/// the track name, whatever their lengths.
pub proof fn lemma_spotify_query_layout(artists: Seq<char>, track_name: Seq<char>)
    ensures
        ({
            let q = spotify_query_text(artists, track_name);
            let a = artists.len() as int;
            &&& q.len() == a + 3 + track_name.len()
            &&& q.take(a) == artists
            &&& q[a] == ' '
            &&& q[a + 1] == '-'
            &&& q[a + 2] == ' '
            &&& q.skip(a + 3) == track_name
        }),
{
    reveal_strlit(" - ");
    let q = spotify_query_text(artists, track_name);
    let a = artists.len() as int;
    assert(q.take(a) =~= artists);
    assert(q.skip(a + 3) =~= track_name);
}


/// Exactly three path segments name a media type, and each names its own.
pub proof fn lemma_media_type_names(s: Seq<char>)
    ensures
        media_type_of(s) == Some(MediaType::Track) <==> s == seq!['t', 'r', 'a', 'c', 'k'],
        media_type_of(s) == Some(MediaType::Album) <==> s == seq!['a', 'l', 'b', 'u', 'm'],
        media_type_of(s) == Some(MediaType::Playlist) <==> s == seq![
            'p',
            'l',
            'a',
            'y',
            'l',
            'i',
            's',
            't',
        ],
{
    reveal_strlit("track");
    reveal_strlit("album");
    reveal_strlit("playlist");
    assert("track"@ =~= seq!['t', 'r', 'a', 'c', 'k']);
    assert("album"@ =~= seq!['a', 'l', 'b', 'u', 'm']);
    assert("playlist"@ =~= seq!['p', 'l', 'a', 'y', 'l', 'i', 's', 't']);
}

/// A Spotify id is valid exactly when each character is an ASCII digit
/// (codes 48 to 57), upper-case letter (65 to 90) or lower-case letter (97
/// to 122).
pub proof fn lemma_spotify_id_chars(id: Seq<char>)
    ensures
        spotify_id_valid(id) <==> forall|i: int| 0 <= i < id.len() ==> {
            let c = #[trigger] id[i] as int;
            (48 <= c <= 57) || (65 <= c <= 90) || (97 <= c <= 122)
        },
{
    assert('0' as int == 48 && '9' as int == 57 && 'A' as int == 65 && 'Z' as int == 90 && 'a' as int
        == 97 && 'z' as int == 122);
}


/// A Spotify link is read from the two named groups of the link pattern:
/// the media type from `media_type`, the id from `media_id`; without either
/// group, or with an unknown media type, nothing is read.
pub proof fn lemma_spotify_request_groups(query: Seq<char>)
    ensures
        ({
            let ty = regex_named_capture(SPOTIFY_QUERY_PATTERN@, query, "media_type"@);
            let id = regex_named_capture(SPOTIFY_QUERY_PATTERN@, query, "media_id"@);
            &&& spotify_request(query) matches Some((m, i)) ==> ty is Some && media_type_of(ty.unwrap())
                == Some(m) && id == Some(i)
            &&& (ty is None || id is None) ==> spotify_request(query) is None
            &&& (ty matches Some(t) && media_type_of(t) is None) ==> spotify_request(query) is None
        }),
{
}

} // verus!
