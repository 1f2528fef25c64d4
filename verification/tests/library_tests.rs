use nullamp::library::{
    Batcher, BATCH_SIZE,
    file_name, fill_title_artist, fmt_elapsed, menu_label, fmt_minutes_seconds, humanize, is_audio_extension,
    parse_filename, scan_phase_badge, search_sql, status_line, strip_trailing_id, tracks_sql, window_title,
};
use nullamp::models::SearchQuery;

#[test]
fn audio_extensions_ignore_ascii_case() {
    for e in ["mp3", "FLAC", "Ogg", "m4a", "wav", "aiff", "wma", "opus", "ape", "wv"] {
        assert!(is_audio_extension(e), "{e}");
    }
    assert!(!is_audio_extension("txt"));
    assert!(!is_audio_extension(""));
    assert!(!is_audio_extension("mp33"));
}

#[test]
fn humanize_capitalizes_words() {
    // fails if either case mapping handed its argument back unchanged
    assert_eq!(humanize("hello_world"), "Hello World");
    assert_eq!(humanize("THE-BEATLES"), "The Beatles");
    assert_eq!(humanize("  a  b "), "A B");
    assert_eq!(humanize(""), "");
    assert_eq!(humanize("élan vital"), "Élan Vital");
}

#[test]
fn strip_trailing_numeric_id() {
    assert_eq!(strip_trailing_id("song-12345"), "song");
    assert_eq!(strip_trailing_id("song-12"), "song-12");
    assert_eq!(strip_trailing_id("song-12a4"), "song-12a4");
    assert_eq!(strip_trailing_id("song"), "song");
    assert_eq!(strip_trailing_id("a-b-999"), "a-b");
}

#[test]
fn filenames_with_spaced_dash() {
    assert_eq!(parse_filename("queen - bohemian_rhapsody"), (Some("Queen".to_string()), "Bohemian Rhapsody".to_string()));
}

#[test]
fn filenames_with_plain_dash() {
    assert_eq!(parse_filename("artist-my_song-123456"), (Some("Artist".to_string()), "My Song".to_string()));
    assert_eq!(parse_filename("-title"), (None, "Title".to_string()));
    assert_eq!(parse_filename("track01"), (None, "Track01".to_string()));
}

#[test]
fn title_and_artist_fallbacks() {
    let s = |x: &str| Some(x.to_string());
    assert_eq!(fill_title_artist(None, None, s("abba - waterloo")), (s("Waterloo"), s("Abba")));
    assert_eq!(fill_title_artist(None, s("Abba"), s("file")), (s("file"), s("Abba")));
    assert_eq!(fill_title_artist(s("T"), None, s("file")), (s("T"), None));
    assert_eq!(fill_title_artist(None, None, None), (None, None));
}

#[test]
fn track_listing_sql() {
    assert!(tracks_sql(true, true).contains("WHERE artist = ?1 AND album = ?2 ORDER BY track_number, title"));
    assert!(tracks_sql(true, false).contains("WHERE artist = ?1 ORDER BY album, track_number, title"));
    assert!(tracks_sql(false, true).ends_with("FROM tracks ORDER BY artist, album, track_number, title"));
    assert!(tracks_sql(false, false).starts_with("SELECT id, file_path, title"));
}

#[test]
fn search_sql_numbers_parameters() {
    let q = SearchQuery { text: Some("x".into()), artist: Some("a".into()), album: None, genre: Some("g".into()) };
    let (sql, params) = search_sql(&q);
    assert_eq!(params, vec!["%a%", "%g%", "%x%"]);
    assert!(sql.contains(
        "FROM tracks WHERE artist LIKE ?1 AND genre LIKE ?2 AND (title LIKE ?3 OR artist LIKE ?3 OR album LIKE ?3 OR genre LIKE ?3)"
    ));
    assert!(sql.ends_with("ORDER BY artist, album, track_number, title\n         LIMIT 100"));
}

#[test]
fn search_sql_without_conditions() {
    let q = SearchQuery { text: None, artist: None, album: None, genre: None };
    let (sql, params) = search_sql(&q);
    assert!(params.is_empty());
    assert_eq!(
        sql,
        "SELECT id, file_path, title, artist, album, genre, track_number, duration_secs, bpm, file_size\n         FROM tracks \n         ORDER BY artist, album, track_number, title\n         LIMIT 100"
    );
}

#[test]
fn elapsed_times() {
    assert_eq!(fmt_elapsed(0), "0s");
    assert_eq!(fmt_elapsed(42_999), "42s");
    assert_eq!(fmt_elapsed(60_000), "1m 00s");
    assert_eq!(fmt_elapsed(65_000), "1m 05s");
    assert_eq!(fmt_elapsed(3_725_000), "62m 05s");
}

#[test]
fn minutes_and_seconds() {
    assert_eq!(fmt_minutes_seconds(0), "0:00");
    assert_eq!(fmt_minutes_seconds(59), "0:59");
    assert_eq!(fmt_minutes_seconds(185), "3:05");
    assert_eq!(fmt_minutes_seconds(3600), "60:00");
}

#[test]
fn file_names() {
    // fails if the path lookup handed its argument back unchanged
    assert_eq!(file_name("/music/a/song.mp3"), "song.mp3");
    assert_eq!(file_name("song.mp3"), "song.mp3");
    assert_eq!(file_name("/"), "/");
    assert_eq!(file_name("a/.."), "a/..");
}

#[test]
fn window_titles() {
    assert_eq!(window_title(None), "Nullamp");
    assert_eq!(window_title(Some((Some("Song"), Some("Band")))), "Song - Band | Nullamp");
    assert_eq!(window_title(Some((None, None))), "Unknown - Unknown | Nullamp");
}

#[test]
fn status_bar_text() {
    assert_eq!(status_line(false, None, 1234, "Scanning...", "tracks in library"), "1234 tracks in library");
    assert_eq!(status_line(true, None, 7, "Scanning...", "tracks in library"), "Scanning...");
    assert_eq!(
        status_line(true, Some(("indexing", 40, 120)), 7, "Scanning...", "tracks"),
        "indexing \u{2014} 40/120 files"
    );
}

#[test]
fn scan_window_badges() {
    assert_eq!(scan_phase_badge(Some("discovering"), true), "DISCOVERING");
    assert_eq!(scan_phase_badge(Some("indexing"), true), "INDEXING");
    assert_eq!(scan_phase_badge(Some("removing"), true), "REMOVING");
    assert_eq!(scan_phase_badge(Some("complete"), false), "COMPLETE");
    assert_eq!(scan_phase_badge(Some("cancelled"), false), "CANCELLED");
    assert_eq!(scan_phase_badge(None, true), "STARTING");
    assert_eq!(scan_phase_badge(None, false), "IDLE");
    assert_eq!(scan_phase_badge(Some("odd"), false), "IDLE");
}

#[test]
fn context_menu_title_line() {
    assert_eq!(menu_label(None), "Track");
    assert_eq!(menu_label(Some("Bohemian Rhapsody")), "Bohemian Rhapsody");
    // exactly 22 bytes stays whole
    assert_eq!(menu_label(Some("abcdefghijklmnopqrstuv")), "abcdefghijklmnopqrstuv");
    assert_eq!(menu_label(Some("abcdefghijklmnopqrstuvw")), "abcdefghijklmnopqrstu\u{2026}");
    // "Ç" takes two bytes, so the cut after byte 21 keeps twenty characters
    assert_eq!(menu_label(Some("Ça plane pour moi (remix)")), "Ça plane pour moi (r\u{2026}");
    // a character across byte 21 is left out whole
    assert_eq!(menu_label(Some("éééééééééééé")), "éééééééééé\u{2026}");
    assert_eq!(menu_label(Some("abcdefghijklmnopqrst€€")), "abcdefghijklmnopqrst\u{2026}");
}

#[test]
fn batches_of_scanned_tracks() {
    let mut b: Batcher<u32> = Batcher::new();
    let mut out: Vec<Vec<u32>> = Vec::new();
    for t in 0..250u32 {
        if let Some(batch) = b.push(t) {
            out.push(batch);
        }
    }
    if let Some(batch) = b.finish() {
        out.push(batch);
    }
    assert_eq!(out.iter().map(|x| x.len()).collect::<Vec<_>>(), vec![BATCH_SIZE, BATCH_SIZE, 50]);
    assert_eq!(out.concat(), (0..250u32).collect::<Vec<_>>());
    let empty: Batcher<u32> = Batcher::new();
    assert!(empty.finish().is_none());
}

#[test]
fn file_name_is_the_last_component() {
    // what `last_component` gives for paths every platform splits alike
    assert_eq!(file_name("music/rock/song.mp3"), "song.mp3");
    assert_eq!(file_name("/music/rock/"), "rock");
    assert_eq!(file_name("a//b///"), "b");
    assert_eq!(file_name("a/b/."), "b");
    assert_eq!(file_name("a/./b"), "b");
    assert_eq!(file_name("../x.flac"), "x.flac");
    assert_eq!(file_name("..."), "...");
    // no last name: the whole path
    assert_eq!(file_name("a/.."), "a/..");
    assert_eq!(file_name("/"), "/");
    assert_eq!(file_name("."), ".");
    assert_eq!(file_name("./."), "./.");
    assert_eq!(file_name(""), "");
}
