use rustonance::errors::not_in_range_text;
use rustonance::messaging::{check_msg, create_music_embed, format_time, track_embed, DARK_BLUE};

#[test]
fn time_formatting() {
    assert_eq!(format_time(0), "00:00");
    assert_eq!(format_time(5), "00:05");
    assert_eq!(format_time(65), "01:05");
    assert_eq!(format_time(600), "10:00");
    assert_eq!(format_time(6000), "100:00");
    assert_eq!(format_time(59 + 60 * 23), "23:59");
}

#[test]
fn time_formatting_reads_back() {
    for m in [0u64, 1, 59, 60, 61, 3599, 3600, 123456] {
        let s = format_time(m);
        let (h, rest) = s.split_at(s.len() - 3);
        assert_eq!(&rest[..1], ":");
        let mm: u64 = rest[1..].parse().unwrap();
        let hh: u64 = h.parse().unwrap();
        assert!(mm < 60);
        assert_eq!(hh * 60 + mm, m);
    }
}

#[test]
fn check_msg_hands_back_the_error() {
    assert_eq!(check_msg::<u8, String>(Ok(1)), None);
    assert_eq!(check_msg::<u8, String>(Err("boom".to_string())), Some("boom".to_string()));
}

#[test]
fn music_embed_layout() {
    let e = create_music_embed("Song".into(), "Band".into(), 125, 3, "http://img".into(), 1_700_000_000);
    assert_eq!(e.title, "Now Playing");
    assert_eq!(e.fields.len(), 3);
    assert_eq!((e.fields[0].name.as_str(), e.fields[0].value.as_str(), e.fields[0].inline), ("Title", "Song", false));
    assert_eq!((e.fields[1].name.as_str(), e.fields[1].value.as_str(), e.fields[1].inline), ("Artist", "Band", false));
    assert_eq!((e.fields[2].name.as_str(), e.fields[2].value.as_str(), e.fields[2].inline), ("Duration", "02:05", false));
    assert_eq!(e.image_url, "http://img");
    assert_eq!(e.colour, DARK_BLUE);
    assert_eq!(e.colour, 0x206694);
    assert_eq!(e.footer, "Queue: 3");
    assert_eq!(e.timestamp, 1_700_000_000);
}

#[test]
fn track_embed_joins_artists() {
    let e = track_embed(&"T".to_string(), &vec!["A".to_string(), "B".to_string()], 0, 12, &"u".to_string(), -5);
    assert_eq!(e.fields[1].value, "A B");
    assert_eq!(e.footer, "Queue: 12");
    assert_eq!(e.fields[2].value, "00:00");
    assert_eq!(e.timestamp, -5);
}

#[test]
fn card_for_the_reviewed_example() {
    let e = create_music_embed("Song".into(), "Band".into(), 65, 3, "https://img.example/a.png".into(), 42);
    let fields: Vec<(&str, &str, bool)> =
        e.fields.iter().map(|f| (f.name.as_str(), f.value.as_str(), f.inline)).collect();
    assert_eq!(e.title, "Now Playing");
    assert_eq!(fields, vec![("Title", "Song", false), ("Artist", "Band", false), ("Duration", "01:05", false)]);
    assert_eq!(e.image_url, "https://img.example/a.png");
    assert_eq!(e.footer, "Queue: 3");
    assert_eq!(e.timestamp, 42);
}

#[test]
fn out_of_range_text() {
    assert_eq!(not_in_range_text("volume", 150, 0, 100), "`volume` should be between 0 and 100 but was 150");
    assert_eq!(not_in_range_text("x", -3, i64::MIN, -1), format!("`x` should be between {} and -1 but was -3", i64::MIN));
}
