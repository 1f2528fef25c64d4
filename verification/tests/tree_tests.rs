use nullamp::tree::{artist_tree_rows, sorts_before, TrackTags, TreeRow};

fn tags(id: i64, artist: Option<&str>, album: Option<&str>) -> TrackTags {
    TrackTags { id, artist: artist.map(str::to_string), album: album.map(str::to_string) }
}

fn names(v: &[&str]) -> Vec<String> {
    v.iter().map(|s| s.to_string()).collect()
}

fn library() -> Vec<TrackTags> {
    vec![
        tags(10, Some("Queen"), Some("News of the World")),
        tags(11, Some("ABBA"), Some("Arrival")),
        tags(12, Some("Queen"), Some("A Night at the Opera")),
        tags(13, Some("Queen"), None),
        tags(14, Some("Queen"), Some("News of the World")),
        tags(15, None, Some("Bootleg")),
    ]
}

#[test]
fn folded_artists_show_only_their_counts() {
    let rows = artist_tree_rows(&names(&["ABBA", "Queen"]), &library(), &vec![], None);
    assert_eq!(rows.len(), 2);
    match &rows[0] {
        TreeRow::Artist { name, track_count, expanded } => {
            assert_eq!(name, "ABBA");
            assert_eq!(*track_count, 1);
            assert!(!expanded);
        }
        _ => panic!("artist row expected"),
    }
    match &rows[1] {
        TreeRow::Artist { name, track_count, expanded } => {
            assert_eq!(name, "Queen");
            assert_eq!(*track_count, 4);
            assert!(!expanded);
        }
        _ => panic!("artist row expected"),
    }
}

#[test]
fn unfolded_artist_lists_albums_alphabetically() {
    let rows = artist_tree_rows(&names(&["Queen"]), &library(), &names(&["Queen"]), Some(14));
    let shape: Vec<String> = rows
        .iter()
        .map(|r| match r {
            TreeRow::Artist { name, track_count, expanded } => {
                format!("artist {name} {track_count} {expanded}")
            }
            TreeRow::Album { name, track_count } => format!("album {name} {track_count}"),
            TreeRow::Track { library_index, number, is_current } => {
                format!("track {library_index} {number} {is_current}")
            }
        })
        .collect();
    assert_eq!(
        shape,
        vec![
            "artist Queen 4 true",
            "album (No Album) 1",
            "track 3 1 false",
            "album A Night at the Opera 1",
            "track 2 1 false",
            "album News of the World 2",
            "track 0 1 false",
            "track 4 2 true",
        ]
    );
}

#[test]
fn tracks_without_artist_are_listed_under_unknown() {
    let rows = artist_tree_rows(&names(&["Unknown"]), &library(), &names(&["Unknown"]), None);
    assert_eq!(rows.len(), 3);
    assert!(matches!(&rows[0], TreeRow::Artist { track_count: 1, expanded: true, .. }));
    assert!(matches!(&rows[1], TreeRow::Album { name, track_count: 1 } if name == "Bootleg"));
    assert!(matches!(&rows[2], TreeRow::Track { library_index: 5, number: 1, is_current: false }));
}

#[test]
fn string_order_matches_std() {
    let words = ["", "a", "ab", "b", "B", "Zeta", "zeta", "é", "e", "(No Album)", "A Night"];
    for x in words {
        for y in words {
            assert_eq!(sorts_before(x, y), x < y, "{x:?} {y:?}");
        }
    }
}

#[test]
fn every_track_of_an_unfolded_artist_is_listed_once() {
    let lib = library();
    let rows = artist_tree_rows(
        &names(&["ABBA", "Queen", "Unknown"]),
        &lib,
        &names(&["ABBA", "Queen", "Unknown"]),
        None,
    );
    let mut seen = vec![0usize; lib.len()];
    for r in &rows {
        if let TreeRow::Track { library_index, .. } = r {
            seen[*library_index] += 1;
        }
    }
    assert_eq!(seen, vec![1, 1, 1, 1, 1, 1]);
}
