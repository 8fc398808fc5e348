//! The messages the bot posts: the "now playing" card and its parts.

use crate::text::{
    all_digits, decimal, digits_value, join, join_strings, lemma_pad2_reads_back, pad2, push_decimal,
    push_pad2, views,
};
use vstd::prelude::*;

verus! {

/// The colour of the "now playing" card, as a 24-bit RGB value (dark blue).
pub const DARK_BLUE: u32 = 0x206694;

/// One titled entry of a card.
pub struct EmbedField {
    pub name: String,
    pub value: String,
    pub inline: bool,
}

/// A card to post in a channel: title, entries in order, image, colour,
/// footer, and the time it was made (seconds since 1970-01-01 UTC).
pub struct MusicEmbed {
    pub title: String,
    pub fields: Vec<EmbedField>,
    pub image_url: String,
    pub colour: u32,
    pub footer: String,
    pub timestamp: i64,
}

/// The error a send reported, if any; the caller logs it.
pub fn check_msg<T, E>(result: Result<T, E>) -> (failure: Option<E>)
    ensures
        match result {
            Ok(_) => failure is None,
            Err(e) => failure == Some(e),
        },
{
    match result {
        Ok(_) => None,
        Err(e) => Some(e),
    }
}

/// `minutes` as hours and minutes, `HH:MM`, each at least two digits wide.
pub open spec fn format_time_text(minutes: nat) -> Seq<char> {
    pad2(minutes / 60) + ":"@ + pad2(minutes % 60)
}

/// Renders `minutes` as `HH:MM`.
pub fn format_time(minutes: u64) -> (s: String)
    ensures
        s@ == format_time_text(minutes as nat),
{
    let hours = minutes / 60;
    let rest = minutes % 60;
    let mut s = String::new();
    push_pad2(&mut s, hours);
    proof { reveal_strlit(":"); }
    s.append(":");
    push_pad2(&mut s, rest);
    assert(s@ =~= format_time_text(minutes as nat));
    s
}

/// Reading a rendered time back: the text before the last three characters
/// is the hours, then a colon, then exactly two digits of minutes below
/// sixty, and hours times sixty plus minutes is the input.
pub proof fn lemma_format_time_reads_back(minutes: nat)
    ensures
        ({
            let s = format_time_text(minutes);
            let k = s.len() - 3;
            &&& k >= 2
            &&& s[k] == ':'
            &&& all_digits(s.take(k))
            &&& all_digits(s.skip(k + 1))
            &&& s.skip(k + 1).len() == 2
            &&& digits_value(s.skip(k + 1)) < 60
            &&& digits_value(s.take(k)) * 60 + digits_value(s.skip(k + 1)) == minutes
        }),
{
    lemma_pad2_reads_back(minutes / 60);
    lemma_pad2_reads_back(minutes % 60);
    reveal_strlit(":");
    let h = pad2(minutes / 60);
    let m = pad2(minutes % 60);
    let s = format_time_text(minutes);
    let k = s.len() - 3;
    assert(k == h.len());
    assert(s.take(k) =~= h);
    assert(s.skip(k + 1) =~= m);
    assert(s[k] == ':');
}

/// The footer text of a card for a queue of `queue` tracks.
pub open spec fn queue_footer(queue: nat) -> Seq<char> {
    "Queue: "@ + decimal(queue)
}

/// The "now playing" card: title, artist and duration entries, the cover
/// image, dark blue, the queue length in the footer, stamped with `now`
/// (the clock reading, in seconds since 1970-01-01 UTC).
pub fn create_music_embed(
    title: String,
    artist: String,
    duration: u64,
    queue: usize,
    image_url: String,
    now: i64,
) -> (embed: MusicEmbed)
    ensures
        embed.title@ == "Now Playing"@,
        embed.fields@.len() == 3,
        embed.fields@[0].name@ == "Title"@,
        embed.fields@[0].value@ == title@,
        !embed.fields@[0].inline,
        embed.fields@[1].name@ == "Artist"@,
        embed.fields@[1].value@ == artist@,
        !embed.fields@[1].inline,
        embed.fields@[2].name@ == "Duration"@,
        embed.fields@[2].value@ == format_time_text(duration as nat),
        !embed.fields@[2].inline,
        embed.image_url@ == image_url@,
        embed.colour == DARK_BLUE,
        embed.footer@ == queue_footer(queue as nat),
        embed.timestamp == now,
{
    let mut footer = "Queue: ".to_string();
    push_decimal(&mut footer, queue as u64);
    let mut fields: Vec<EmbedField> = Vec::new();
    fields.push(EmbedField { name: "Title".to_string(), value: title, inline: false });
    fields.push(EmbedField { name: "Artist".to_string(), value: artist, inline: false });
    fields.push(
        EmbedField { name: "Duration".to_string(), value: format_time(duration), inline: false },
    );
    MusicEmbed {
        title: "Now Playing".to_string(),
        fields,
        image_url,
        colour: DARK_BLUE,
        footer,
        timestamp: now,
    }
}


/// The "now playing" card for a track whose artists are listed separately:
/// the artist entry holds their names separated by spaces; stamped `now`.
pub fn track_embed(
    name: &String,
    artists: &Vec<String>,
    duration: u64,
    queue: usize,
    image_url: &String,
    now: i64,
) -> (embed: MusicEmbed)
    ensures
        embed.title@ == "Now Playing"@,
        embed.fields@.len() == 3,
        embed.fields@[0].name@ == "Title"@,
        embed.fields@[0].value@ == name@,
        embed.fields@[1].name@ == "Artist"@,
        embed.fields@[1].value@ == join(views(artists@), " "@),
        embed.fields@[2].name@ == "Duration"@,
        embed.fields@[2].value@ == format_time_text(duration as nat),
        forall|i: int| 0 <= i < 3 ==> !(#[trigger] embed.fields@[i]).inline,
        embed.image_url@ == image_url@,
        embed.colour == DARK_BLUE,
        embed.footer@ == queue_footer(queue as nat),
        embed.timestamp == now,
{
    let artist = join_strings(artists, " ");
    create_music_embed(name.clone(), artist, duration, queue, image_url.clone(), now)
}


/// The footer is `Queue: ` followed by the queue length in decimal.
pub proof fn lemma_queue_footer_layout(queue: nat)
    ensures
        ({
            let f = queue_footer(queue);
            &&& f.take(7) == seq!['Q', 'u', 'e', 'u', 'e', ':', ' ']
            &&& f.skip(7) == decimal(queue)
        }),
{
    reveal_strlit("Queue: ");
    let f = queue_footer(queue);
    assert(f.take(7) =~= seq!['Q', 'u', 'e', 'u', 'e', ':', ' ']);
    assert(f.skip(7) =~= decimal(queue));
}

} // verus!
