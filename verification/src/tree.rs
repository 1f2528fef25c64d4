//! The artist tree of the library view: one row per artist, and under an unfolded
//! artist one row per album (in alphabetical order) followed by its tracks.
use vstd::prelude::*;

use crate::session::no_duplicates;
use crate::text::{chars_of, owned, str_eq, views};

verus! {

// ───────────────────────── string order ─────────────────────────

/// `a` sorts strictly before `b`: the order of `String`, character by character by
/// code point, a proper prefix first.
pub open spec fn lex_lt(a: Seq<char>, b: Seq<char>) -> bool
    decreases a.len(),
{
    if a.len() == 0 {
        b.len() > 0
    } else if b.len() == 0 {
        false
    } else if a[0] != b[0] {
        (a[0] as int) < (b[0] as int)
    } else {
        lex_lt(a.drop_first(), b.drop_first())
    }
}

/// No string sorts before itself.
pub proof fn lemma_lex_irreflexive(a: Seq<char>)
    ensures
        !lex_lt(a, a),
    decreases a.len(),
{
    if a.len() > 0 {
        lemma_lex_irreflexive(a.drop_first());
    }
}

/// The order is transitive.
pub proof fn lemma_lex_transitive(a: Seq<char>, b: Seq<char>, c: Seq<char>)
    requires
        lex_lt(a, b),
        lex_lt(b, c),
    ensures
        lex_lt(a, c),
    decreases a.len(),
{
    if a.len() > 0 && b.len() > 0 && c.len() > 0 && a[0] == b[0] && b[0] == c[0] {
        lemma_lex_transitive(a.drop_first(), b.drop_first(), c.drop_first());
    }
}

/// Of two different strings one sorts before the other.
pub proof fn lemma_lex_total(a: Seq<char>, b: Seq<char>)
    requires
        a != b,
    ensures
        lex_lt(a, b) || lex_lt(b, a),
    decreases a.len(),
{
    if a.len() > 0 && b.len() > 0 && a[0] == b[0] {
        assert(a =~= seq![a[0]] + a.drop_first());
        assert(b =~= seq![b[0]] + b.drop_first());
        lemma_lex_total(a.drop_first(), b.drop_first());
    } else if a.len() == 0 && b.len() == 0 {
        assert(a =~= b);
    }
}

/// Each string sorts strictly before every later one.
pub open spec fn strictly_sorted(s: Seq<Seq<char>>) -> bool {
    forall|i: int, j: int| 0 <= i < j < s.len() ==> lex_lt(#[trigger] s[i], #[trigger] s[j])
}

/// Two strictly sorted lists of the same strings are the same list.
pub proof fn lemma_sorted_unique(s: Seq<Seq<char>>, t: Seq<Seq<char>>)
    requires
        strictly_sorted(s),
        strictly_sorted(t),
        s.to_set() == t.to_set(),
    ensures
        s == t,
    decreases s.len(),
{
    if s.len() == 0 {
        if t.len() > 0 {
            assert(t.to_set().contains(t[0]));
        }
        assert(s =~= t);
    } else {
        assert(s.to_set().contains(s[0]));
        assert(t.to_set().contains(s[0]));
        let j = choose|j: int| 0 <= j < t.len() && t[j] == s[0];
        assert(t.len() > 0);
        assert(t.to_set().contains(t[0]));
        let k = choose|k: int| 0 <= k < s.len() && s[k] == t[0];
        if j > 0 && k > 0 {
            assert(lex_lt(t[0], t[j]));
            assert(lex_lt(s[0], s[k]));
            lemma_lex_transitive(s[0], s[k], s[0]);
            lemma_lex_irreflexive(s[0]);
        }
        assert(s[0] == t[0]);
        let s1 = s.drop_first();
        let t1 = t.drop_first();
        assert forall|x: Seq<char>| s1.to_set().contains(x) implies t1.to_set().contains(x) by {
            let i = choose|i: int| 0 <= i < s1.len() && s1[i] == x;
            assert(s[i + 1] == x);
            assert(lex_lt(s[0], s[i + 1]));
            lemma_lex_irreflexive(x);
            assert(s.to_set().contains(x));
            let m = choose|m: int| 0 <= m < t.len() && t[m] == x;
            assert(m != 0);
            assert(t1[m - 1] == x);
        }
        assert forall|x: Seq<char>| t1.to_set().contains(x) implies s1.to_set().contains(x) by {
            let i = choose|i: int| 0 <= i < t1.len() && t1[i] == x;
            assert(t[i + 1] == x);
            assert(lex_lt(t[0], t[i + 1]));
            lemma_lex_irreflexive(x);
            assert(t.to_set().contains(x));
            let m = choose|m: int| 0 <= m < s.len() && s[m] == x;
            assert(m != 0);
            assert(s1[m - 1] == x);
        }
        assert(s1.to_set() =~= t1.to_set());
        lemma_sorted_unique(s1, t1);
        assert(s =~= seq![s[0]] + s1);
        assert(t =~= seq![t[0]] + t1);
    }
}

/// Whether `a` sorts strictly before `b` (see `lex_lt`).
pub fn sorts_before(a: &str, b: &str) -> (r: bool)
    ensures
        r == lex_lt(a@, b@),
{
    let x = chars_of(a);
    let y = chars_of(b);
    let mut i: usize = 0;
    assert(a@.skip(0) =~= a@);
    assert(b@.skip(0) =~= b@);
    while i < x.len() && i < y.len() && x[i] == y[i]
        invariant
            x@ == a@,
            y@ == b@,
            i <= x.len(),
            i <= y.len(),
            lex_lt(a@, b@) == lex_lt(a@.skip(i as int), b@.skip(i as int)),
        decreases x.len() - i,
    {
        proof {
            assert(a@.skip(i as int).drop_first() =~= a@.skip(i + 1));
            assert(b@.skip(i as int).drop_first() =~= b@.skip(i + 1));
        }
        i = i + 1;
    }
    if i == x.len() {
        i < y.len()
    } else if i == y.len() {
        false
    } else {
        x[i] < y[i]
    }
}

// ───────────────────────── grouping ─────────────────────────

/// What the tree reads of a library track.
#[derive(Debug, Clone)]
pub struct TrackTags {
    pub id: i64,
    pub artist: Option<String>,
    pub album: Option<String>,
}

/// The artist a track is listed under.
pub open spec fn artist_of(t: TrackTags) -> Seq<char> {
    match t.artist {
        Some(a) => a@,
        None => "Unknown"@,
    }
}

/// The album a track is listed under.
pub open spec fn album_of(t: TrackTags) -> Seq<char> {
    match t.album {
        Some(a) => a@,
        None => "(No Album)"@,
    }
}

/// The library positions `0..n` of the tracks of `artist`, in library order.
pub open spec fn artist_tracks(tags: Seq<TrackTags>, artist: Seq<char>, n: nat) -> Seq<int>
    decreases n,
{
    if n == 0 {
        seq![]
    } else {
        let s = artist_tracks(tags, artist, (n - 1) as nat);
        if artist_of(tags[n - 1]) == artist {
            s.push(n - 1)
        } else {
            s
        }
    }
}

/// The positions of `idx` whose track is on `album`, in the order of `idx`.
pub open spec fn album_tracks(tags: Seq<TrackTags>, idx: Seq<int>, album: Seq<char>) -> Seq<int>
    decreases idx.len(),
{
    if idx.len() == 0 {
        seq![]
    } else {
        let s = album_tracks(tags, idx.drop_last(), album);
        if album_of(tags[idx.last()]) == album {
            s.push(idx.last())
        } else {
            s
        }
    }
}

/// The albums of the tracks at the positions `idx`.
pub open spec fn album_set(tags: Seq<TrackTags>, idx: Seq<int>) -> Set<Seq<char>> {
    idx.map_values(|i: int| album_of(tags[i])).to_set()
}

/// The albums of the tracks at the positions `idx`, each once, in alphabetical order.
pub open spec fn sorted_albums(tags: Seq<TrackTags>, idx: Seq<int>) -> Seq<Seq<char>> {
    choose|s: Seq<Seq<char>>| strictly_sorted(s) && s.to_set() == album_set(tags, idx)
}

/// A row of the artist tree.
pub enum TreeRow {
    /// An artist, with the number of its tracks and whether it is unfolded.
    Artist { name: String, track_count: usize, expanded: bool },
    /// An album of the artist above, with the number of its tracks.
    Album { name: String, track_count: usize },
    /// A track: its position in the library, its number within the album (from 1),
    /// and whether it is the track being played.
    Track { library_index: usize, number: usize, is_current: bool },
}

/// A row as plain values.
pub enum RowView {
    Artist(Seq<char>, nat, bool),
    Album(Seq<char>, nat),
    Track(int, nat, bool),
}

impl View for TreeRow {
    type V = RowView;

    open spec fn view(&self) -> RowView {
        match self {
            TreeRow::Artist { name, track_count, expanded } => RowView::Artist(
                name@,
                *track_count as nat,
                *expanded,
            ),
            TreeRow::Album { name, track_count } => RowView::Album(name@, *track_count as nat),
            TreeRow::Track { library_index, number, is_current } => RowView::Track(
                *library_index as int,
                *number as nat,
                *is_current,
            ),
        }
    }
}

/// The rows as plain values.
pub open spec fn row_views(rows: Seq<TreeRow>) -> Seq<RowView> {
    rows.map_values(|r: TreeRow| r@)
}

/// The track rows for the positions `idx`, numbered from 1.
pub open spec fn track_rows(tags: Seq<TrackTags>, idx: Seq<int>, current: Option<i64>) -> Seq<
    RowView,
> {
    Seq::new(
        idx.len(),
        |k: int| RowView::Track(idx[k], (k + 1) as nat, current == Some(tags[idx[k]].id)),
    )
}

/// The rows of one album among the tracks at the positions `idx`.
pub open spec fn album_block(
    tags: Seq<TrackTags>,
    idx: Seq<int>,
    album: Seq<char>,
    current: Option<i64>,
) -> Seq<RowView> {
    let t = album_tracks(tags, idx, album);
    seq![RowView::Album(album, t.len())] + track_rows(tags, t, current)
}

/// The rows of the albums `albums` in turn.
pub open spec fn albums_rows(
    tags: Seq<TrackTags>,
    idx: Seq<int>,
    albums: Seq<Seq<char>>,
    current: Option<i64>,
) -> Seq<RowView>
    decreases albums.len(),
{
    if albums.len() == 0 {
        seq![]
    } else {
        albums_rows(tags, idx, albums.drop_last(), current) + album_block(
            tags,
            idx,
            albums.last(),
            current,
        )
    }
}

/// The rows of one artist: its own row, and when unfolded its albums.
pub open spec fn artist_block(
    tags: Seq<TrackTags>,
    artist: Seq<char>,
    expanded: Seq<Seq<char>>,
    current: Option<i64>,
) -> Seq<RowView> {
    let idx = artist_tracks(tags, artist, tags.len());
    let open = expanded.contains(artist);
    seq![RowView::Artist(artist, idx.len(), open)] + if open {
        albums_rows(tags, idx, sorted_albums(tags, idx), current)
    } else {
        seq![]
    }
}

/// The rows of the artists `artists` in turn.
pub open spec fn tree_rows(
    artists: Seq<Seq<char>>,
    tags: Seq<TrackTags>,
    expanded: Seq<Seq<char>>,
    current: Option<i64>,
) -> Seq<RowView>
    decreases artists.len(),
{
    if artists.len() == 0 {
        seq![]
    } else {
        tree_rows(artists.drop_last(), tags, expanded, current) + artist_block(
            tags,
            artists.last(),
            expanded,
            current,
        )
    }
}

/// The positions as integers.
pub open spec fn ints(v: Seq<usize>) -> Seq<int> {
    v.map_values(|x: usize| x as int)
}

/// Whether `t` is listed under `artist`.
fn is_artist(t: &TrackTags, artist: &str) -> (r: bool)
    ensures
        r == (artist_of(*t) == artist@),
{
    match &t.artist {
        Some(a) => str_eq(a.as_str(), artist),
        None => str_eq("Unknown", artist),
    }
}

/// The album `t` is listed under.
fn album_name(t: &TrackTags) -> (r: String)
    ensures
        r@ == album_of(*t),
{
    match &t.album {
        Some(a) => a.clone(),
        None => owned("(No Album)"),
    }
}

/// The library positions of the tracks of `artist` (see `artist_tracks`).
fn artist_track_positions(tags: &Vec<TrackTags>, artist: &str) -> (r: Vec<usize>)
    ensures
        ints(r@) == artist_tracks(tags@, artist@, tags@.len()),
        forall|k: int| 0 <= k < r@.len() ==> r@[k] < tags@.len(),
{
    let mut r: Vec<usize> = Vec::new();
    let mut i: usize = 0;
    while i < tags.len()
        invariant
            i <= tags@.len(),
            ints(r@) == artist_tracks(tags@, artist@, i as nat),
            forall|k: int| 0 <= k < r@.len() ==> r@[k] < i,
        decreases tags.len() - i,
    {
        if is_artist(&tags[i], artist) {
            r.push(i);
            assert(ints(r@) =~= artist_tracks(tags@, artist@, i as nat).push(i as int));
        }
        i = i + 1;
    }
    r
}

/// The positions of `idx` whose track is on `album` (see `album_tracks`).
fn album_track_positions(tags: &Vec<TrackTags>, idx: &Vec<usize>, album: &str) -> (r: Vec<usize>)
    requires
        forall|k: int| 0 <= k < idx@.len() ==> idx@[k] < tags@.len(),
    ensures
        ints(r@) == album_tracks(tags@, ints(idx@), album@),
        forall|k: int| 0 <= k < r@.len() ==> r@[k] < tags@.len(),
{
    let mut r: Vec<usize> = Vec::new();
    let mut j: usize = 0;
    while j < idx.len()
        invariant
            j <= idx@.len(),
            forall|k: int| 0 <= k < idx@.len() ==> idx@[k] < tags@.len(),
            ints(r@) == album_tracks(tags@, ints(idx@).take(j as int), album@),
            forall|k: int| 0 <= k < r@.len() ==> r@[k] < tags@.len(),
        decreases idx.len() - j,
    {
        let name = album_name(&tags[idx[j]]);
        proof {
            assert(ints(idx@).take(j + 1).drop_last() =~= ints(idx@).take(j as int));
        }
        if str_eq(name.as_str(), album) {
            r.push(idx[j]);
            assert(ints(r@) =~= album_tracks(tags@, ints(idx@).take(j as int), album@).push(
                idx@[j as int] as int,
            ));
        }
        j = j + 1;
    }
    assert(ints(idx@).take(idx@.len() as int) =~= ints(idx@));
    r
}

/// The albums of the tracks at the positions `idx`, each once, in alphabetical order
/// (see `sorted_albums`).
fn sorted_album_names(tags: &Vec<TrackTags>, idx: &Vec<usize>) -> (r: Vec<String>)
    requires
        forall|k: int| 0 <= k < idx@.len() ==> idx@[k] < tags@.len(),
    ensures
        views(r@) == sorted_albums(tags@, ints(idx@)),
{
    let mut r: Vec<String> = Vec::new();
    let mut j: usize = 0;
    while j < idx.len()
        invariant
            j <= idx@.len(),
            forall|k: int| 0 <= k < idx@.len() ==> idx@[k] < tags@.len(),
            strictly_sorted(views(r@)),
            views(r@).to_set() == album_set(tags@, ints(idx@).take(j as int)),
        decreases idx.len() - j,
    {
        let name = album_name(&tags[idx[j]]);
        let ghost before = views(r@);
        // the first album that does not sort before `name`
        let mut p: usize = 0;
        while p < r.len() && sorts_before(r[p].as_str(), name.as_str())
            invariant
                p <= r@.len(),
                views(r@) == before,
                forall|q: int| 0 <= q < p ==> lex_lt(before[q], name@),
            decreases r.len() - p,
        {
            p = p + 1;
        }
        let present = p < r.len() && str_eq(r[p].as_str(), name.as_str());
        proof {
            let a = album_set(tags@, ints(idx@).take(j + 1));
            assert(ints(idx@).take(j + 1).map_values(|i: int| album_of(tags@[i]))
                =~= ints(idx@).take(j as int).map_values(|i: int| album_of(tags@[i])).push(name@));
            ints(idx@).take(j as int).map_values(|i: int| album_of(tags@[i])).lemma_push_to_set_commute(
                name@,
            );
            assert(a =~= album_set(tags@, ints(idx@).take(j as int)).insert(name@));
        }
        if !present {
            r.insert(p, name);
            proof {
                let after = views(r@);
                assert(after =~= before.insert(p as int, name@));
                if p < before.len() {
                    lemma_lex_total(before[p as int], name@);
                    assert(lex_lt(name@, before[p as int]));
                }
                assert forall|x: int, y: int| 0 <= x < y < after.len() implies lex_lt(
                    after[x],
                    after[y],
                ) by {
                    if y == p {
                        assert(lex_lt(before[x], name@));
                    } else if x == p {
                        if y - 1 > p {
                            assert(lex_lt(before[p as int], before[y - 1]));
                            lemma_lex_transitive(name@, before[p as int], before[y - 1]);
                        }
                    } else if x < p && y > p {
                        assert(lex_lt(before[x], name@));
                        assert(lex_lt(before[x], before[y - 1]));
                    } else if x > p {
                        assert(lex_lt(before[x - 1], before[y - 1]));
                    } else {
                        assert(lex_lt(before[x], before[y]));
                    }
                }
                assert(after.to_set() =~= before.to_set().insert(name@)) by {
                    assert forall|s: Seq<char>| after.to_set().contains(s) implies before.to_set().insert(
                        name@,
                    ).contains(s) by {
                        let i = choose|i: int| 0 <= i < after.len() && after[i] == s;
                        if i < p {
                            assert(before[i] == s);
                        } else if i > p {
                            assert(before[i - 1] == s);
                        }
                    }
                    assert forall|s: Seq<char>| before.to_set().insert(name@).contains(s) implies after.to_set().contains(
                        s,
                    ) by {
                        if s == name@ {
                            assert(after[p as int] == s);
                        } else {
                            let i = choose|i: int| 0 <= i < before.len() && before[i] == s;
                            if i < p {
                                assert(after[i] == s);
                            } else {
                                assert(after[i + 1] == s);
                            }
                        }
                    }
                }
            }
        } else {
            proof {
                assert(before[p as int] == name@);
                assert(before.to_set().contains(name@));
                assert(before.to_set().insert(name@) =~= before.to_set());
            }
        }
        j = j + 1;
    }
    proof {
        assert(ints(idx@).take(idx@.len() as int) =~= ints(idx@));
        let s = views(r@);
        assert(strictly_sorted(s) && s.to_set() == album_set(tags@, ints(idx@)));
        let c = sorted_albums(tags@, ints(idx@));
        lemma_sorted_unique(s, c);
    }
    r
}

/// Whether `artist` is among the unfolded artists.
fn is_expanded(expanded: &Vec<String>, artist: &str) -> (r: bool)
    ensures
        r == views(expanded@).contains(artist@),
{
    let mut i: usize = 0;
    while i < expanded.len()
        invariant
            i <= expanded@.len(),
            forall|k: int| 0 <= k < i ==> expanded@[k]@ != artist@,
        decreases expanded.len() - i,
    {
        if str_eq(expanded[i].as_str(), artist) {
            assert(views(expanded@)[i as int] == artist@);
            return true;
        }
        i = i + 1;
    }
    assert(!views(expanded@).contains(artist@)) by {
        if views(expanded@).contains(artist@) {
            let k = choose|k: int| 0 <= k < views(expanded@).len() && views(expanded@)[k] == artist@;
            assert(expanded@[k]@ == artist@);
        }
    }
    false
}

/// Appends the album row of `album` and its track rows (see `album_block`).
fn push_album_block(
    rows: &mut Vec<TreeRow>,
    tags: &Vec<TrackTags>,
    idx: &Vec<usize>,
    album: &String,
    current: Option<i64>,
)
    requires
        forall|k: int| 0 <= k < idx@.len() ==> idx@[k] < tags@.len(),
    ensures
        row_views(final(rows)@) == row_views(old(rows)@) + album_block(
            tags@,
            ints(idx@),
            album@,
            current,
        ),
{
    let t = album_track_positions(tags, idx, album.as_str());
    let ghost base = row_views(rows@);
    rows.push(TreeRow::Album { name: album.clone(), track_count: t.len() });
    assert(row_views(rows@) =~= base + seq![RowView::Album(album@, t@.len())]);
    let mut k: usize = 0;
    while k < t.len()
        invariant
            k <= t@.len(),
            forall|q: int| 0 <= q < t@.len() ==> t@[q] < tags@.len(),
            row_views(rows@) == base + seq![RowView::Album(album@, t@.len())] + track_rows(
                tags@,
                ints(t@),
                current,
            ).take(k as int),
        decreases t.len() - k,
    {
        let i = t[k];
        let is_current = match current {
            Some(c) => c == tags[i].id,
            None => false,
        };
        let ghost prev = row_views(rows@);
        rows.push(TreeRow::Track { library_index: i, number: k + 1, is_current });
        proof {
            let tr = track_rows(tags@, ints(t@), current);
            assert(row_views(rows@) =~= prev.push(RowView::Track(i as int, (k + 1) as nat, is_current)));
            assert(tr[k as int] == RowView::Track(i as int, (k + 1) as nat, is_current));
            assert(tr.take(k + 1) =~= tr.take(k as int).push(tr[k as int]));
        }
        assert(row_views(rows@) =~= base + seq![RowView::Album(album@, t@.len())] + track_rows(
            tags@,
            ints(t@),
            current,
        ).take(k + 1));
        k = k + 1;
    }
    assert(track_rows(tags@, ints(t@), current).take(t@.len() as int) =~= track_rows(
        tags@,
        ints(t@),
        current,
    ));
    assert(row_views(rows@) =~= base + album_block(tags@, ints(idx@), album@, current));
}

/// Appends the rows of `artist` (see `artist_block`).
fn push_artist_block(
    rows: &mut Vec<TreeRow>,
    tags: &Vec<TrackTags>,
    artist: &String,
    expanded: &Vec<String>,
    current: Option<i64>,
)
    ensures
        row_views(final(rows)@) == row_views(old(rows)@) + artist_block(
            tags@,
            artist@,
            views(expanded@),
            current,
        ),
{
    let idx = artist_track_positions(tags, artist.as_str());
    let open = is_expanded(expanded, artist.as_str());
    let ghost base = row_views(rows@);
    rows.push(TreeRow::Artist { name: artist.clone(), track_count: idx.len(), expanded: open });
    let ghost head = base + seq![RowView::Artist(artist@, idx@.len(), open)];
    assert(row_views(rows@) =~= head);
    if open {
        let albums = sorted_album_names(tags, &idx);
        let mut a: usize = 0;
        while a < albums.len()
            invariant
                a <= albums@.len(),
                forall|k: int| 0 <= k < idx@.len() ==> idx@[k] < tags@.len(),
                row_views(rows@) == head + albums_rows(
                    tags@,
                    ints(idx@),
                    views(albums@).take(a as int),
                    current,
                ),
            decreases albums.len() - a,
        {
            push_album_block(rows, tags, &idx, &albums[a], current);
            proof {
                assert(views(albums@).take(a + 1).drop_last() =~= views(albums@).take(a as int));
            }
            assert(row_views(rows@) =~= head + albums_rows(
                tags@,
                ints(idx@),
                views(albums@).take(a + 1),
                current,
            ));
            a = a + 1;
        }
        assert(views(albums@).take(albums@.len() as int) =~= views(albums@));
    }
    assert(row_views(rows@) =~= base + artist_block(tags@, artist@, views(expanded@), current));
}

/// The rows of the artist tree: for each artist of `artists` in turn, its row with the
/// number of its tracks, and when it is among `expanded`, each of its albums in
/// alphabetical order with the album's tracks below it (see `tree_rows`). `current` is
/// the id of the track being played.
pub fn artist_tree_rows(
    artists: &Vec<String>,
    tags: &Vec<TrackTags>,
    expanded: &Vec<String>,
    current: Option<i64>,
) -> (rows: Vec<TreeRow>)
    ensures
        row_views(rows@) == tree_rows(views(artists@), tags@, views(expanded@), current),
{
    let mut rows: Vec<TreeRow> = Vec::new();
    let mut a: usize = 0;
    assert(row_views(rows@) =~= tree_rows(views(artists@).take(0), tags@, views(expanded@), current));
    while a < artists.len()
        invariant
            a <= artists@.len(),
            row_views(rows@) == tree_rows(
                views(artists@).take(a as int),
                tags@,
                views(expanded@),
                current,
            ),
        decreases artists.len() - a,
    {
        push_artist_block(&mut rows, tags, &artists[a], expanded, current);
        proof {
            assert(views(artists@).take(a + 1).drop_last() =~= views(artists@).take(a as int));
        }
        a = a + 1;
    }
    assert(views(artists@).take(artists@.len() as int) =~= views(artists@));
    rows
}

// ───────────────────────── what the tree lists ─────────────────────────

/// `s` with `x` put in its alphabetical place, unless it is there already.
pub open spec fn sorted_insert(s: Seq<Seq<char>>, x: Seq<char>) -> Seq<Seq<char>>
    decreases s.len(),
{
    if s.len() == 0 {
        seq![x]
    } else if s[0] == x {
        s
    } else if lex_lt(x, s[0]) {
        seq![x] + s
    } else {
        seq![s[0]] + sorted_insert(s.drop_first(), x)
    }
}

/// Inserting into a sorted list keeps it sorted and adds exactly the new string.
proof fn lemma_sorted_insert(s: Seq<Seq<char>>, x: Seq<char>)
    requires
        strictly_sorted(s),
    ensures
        strictly_sorted(sorted_insert(s, x)),
        sorted_insert(s, x).to_set() == s.to_set().insert(x),
    decreases s.len(),
{
    let r = sorted_insert(s, x);
    if s.len() == 0 {
        assert(r.to_set() =~= s.to_set().insert(x)) by {
            assert(r[0] == x);
        }
    } else if s[0] == x {
        assert(s.to_set().contains(x));
        assert(s.to_set().insert(x) =~= s.to_set());
    } else if lex_lt(x, s[0]) {
        assert forall|i: int, j: int| 0 <= i < j < r.len() implies lex_lt(r[i], r[j]) by {
            if i == 0 {
                if j > 1 {
                    lemma_lex_transitive(x, s[0], s[j - 1]);
                }
            } else {
                assert(r[i] == s[i - 1] && r[j] == s[j - 1]);
            }
        }
        assert forall|y: Seq<char>| r.to_set().contains(y) <==> s.to_set().insert(x).contains(y) by {
            if r.to_set().contains(y) {
                let k = choose|k: int| 0 <= k < r.len() && r[k] == y;
                if k > 0 {
                    assert(s[k - 1] == y);
                }
            }
            if s.to_set().insert(x).contains(y) {
                if y == x {
                    assert(r[0] == y);
                } else {
                    let k = choose|k: int| 0 <= k < s.len() && s[k] == y;
                    assert(r[k + 1] == y);
                }
            }
        }
        assert(r.to_set() =~= s.to_set().insert(x));
    } else {
        lemma_lex_total(s[0], x);
        let t = s.drop_first();
        assert(strictly_sorted(t)) by {
            assert forall|i: int, j: int| 0 <= i < j < t.len() implies lex_lt(t[i], t[j]) by {
                assert(t[i] == s[i + 1] && t[j] == s[j + 1]);
            }
        }
        lemma_sorted_insert(t, x);
        let u = sorted_insert(t, x);
        assert(r == seq![s[0]] + u);
        assert forall|i: int, j: int| 0 <= i < j < r.len() implies lex_lt(r[i], r[j]) by {
            if i == 0 {
                assert(r[j] == u[j - 1]);
                assert(u.to_set().contains(u[j - 1]));
                if u[j - 1] != x {
                    assert(t.to_set().contains(u[j - 1]));
                    let k = choose|k: int| 0 <= k < t.len() && t[k] == u[j - 1];
                    assert(s[k + 1] == u[j - 1]);
                }
            } else {
                assert(r[i] == u[i - 1] && r[j] == u[j - 1]);
            }
        }
        assert forall|y: Seq<char>| r.to_set().contains(y) <==> s.to_set().insert(x).contains(y) by {
            if r.to_set().contains(y) {
                let k = choose|k: int| 0 <= k < r.len() && r[k] == y;
                if k > 0 {
                    assert(u.to_set().contains(y));
                    if y != x {
                        assert(t.to_set().contains(y));
                        let m = choose|m: int| 0 <= m < t.len() && t[m] == y;
                        assert(s[m + 1] == y);
                    }
                }
            }
            if s.to_set().insert(x).contains(y) {
                if y == s[0] {
                    assert(r[0] == y);
                } else {
                    if y != x {
                        let m = choose|m: int| 0 <= m < s.len() && s[m] == y;
                        assert(m > 0);
                        assert(t[m - 1] == y);
                    }
                    assert(t.to_set().insert(x).contains(y));
                    assert(u.to_set().contains(y));
                    let k = choose|k: int| 0 <= k < u.len() && u[k] == y;
                    assert(r[k + 1] == y);
                }
            }
        }
        assert(r.to_set() =~= s.to_set().insert(x));
    }
}

/// Some strictly sorted list holds exactly the albums of the tracks at `idx`.
proof fn lemma_sorted_albums_exist(tags: Seq<TrackTags>, idx: Seq<int>)
    ensures
        exists|s: Seq<Seq<char>>| strictly_sorted(s) && s.to_set() == album_set(tags, idx),
    decreases idx.len(),
{
    if idx.len() == 0 {
        let e: Seq<Seq<char>> = seq![];
        assert(e.to_set() =~= album_set(tags, idx));
        assert(strictly_sorted(e));
    } else {
        let rest = idx.drop_last();
        lemma_sorted_albums_exist(tags, rest);
        let s = choose|s: Seq<Seq<char>>| strictly_sorted(s) && s.to_set() == album_set(tags, rest);
        let x = album_of(tags[idx.last()]);
        lemma_sorted_insert(s, x);
        assert(idx.map_values(|i: int| album_of(tags[i])) =~= rest.map_values(
            |i: int| album_of(tags[i]),
        ).push(x));
        rest.map_values(|i: int| album_of(tags[i])).lemma_push_to_set_commute(x);
        assert(sorted_insert(s, x).to_set() == album_set(tags, idx));
    }
}

/// The listed albums are in alphabetical order, each once, and they are exactly the
/// albums of the tracks at `idx`.
pub proof fn lemma_sorted_albums(tags: Seq<TrackTags>, idx: Seq<int>)
    ensures
        strictly_sorted(sorted_albums(tags, idx)),
        sorted_albums(tags, idx).to_set() == album_set(tags, idx),
{
    lemma_sorted_albums_exist(tags, idx);
}

/// The positions of an artist's tracks are those below `n` whose track is listed under
/// the artist, in increasing order.
proof fn lemma_artist_tracks(tags: Seq<TrackTags>, artist: Seq<char>, n: nat)
    requires
        n <= tags.len(),
    ensures
        forall|x: int|
            #[trigger] artist_tracks(tags, artist, n).contains(x) <==> 0 <= x < n && artist_of(
                tags[x],
            ) == artist,
        forall|i: int, j: int|
            0 <= i < j < artist_tracks(tags, artist, n).len() ==> artist_tracks(tags, artist, n)[i]
                < artist_tracks(tags, artist, n)[j],
    decreases n,
{
    if n > 0 {
        lemma_artist_tracks(tags, artist, (n - 1) as nat);
        let prev = artist_tracks(tags, artist, (n - 1) as nat);
        let cur = artist_tracks(tags, artist, n);
        assert forall|x: int| cur.contains(x) <==> 0 <= x < n && artist_of(tags[x]) == artist by {
            if cur.contains(x) {
                let k = choose|k: int| 0 <= k < cur.len() && cur[k] == x;
                if k < prev.len() {
                    assert(prev.contains(x));
                }
            }
            if 0 <= x < n && artist_of(tags[x]) == artist {
                if x < n - 1 {
                    let k = choose|k: int| 0 <= k < prev.len() && prev[k] == x;
                    assert(cur[k] == x);
                } else {
                    assert(cur[cur.len() - 1] == x);
                }
            }
        }
        assert forall|i: int, j: int| 0 <= i < j < cur.len() implies cur[i] < cur[j] by {
            if j == prev.len() {
                assert(prev.contains(prev[i]));
            }
        }
    }
}

/// A position is in an album's block when it is among `idx` and its track is on that
/// album; when `idx` holds no position twice, neither does the block.
proof fn lemma_album_tracks(tags: Seq<TrackTags>, idx: Seq<int>, album: Seq<char>)
    ensures
        forall|x: int|
            #[trigger] album_tracks(tags, idx, album).contains(x) <==> idx.contains(x) && album_of(
                tags[x],
            ) == album,
        no_duplicates(idx) ==> no_duplicates(album_tracks(tags, idx, album)),
    decreases idx.len(),
{
    if idx.len() > 0 {
        let rest = idx.drop_last();
        lemma_album_tracks(tags, rest, album);
        let prev = album_tracks(tags, rest, album);
        let cur = album_tracks(tags, idx, album);
        assert(cur == if album_of(tags[idx.last()]) == album {
            prev.push(idx.last())
        } else {
            prev
        });
        assert forall|x: int| cur.contains(x) <==> idx.contains(x) && album_of(tags[x]) == album by {
            if cur.contains(x) {
                let k = choose|k: int| 0 <= k < cur.len() && cur[k] == x;
                if k < prev.len() {
                    assert(prev.contains(x));
                    assert(rest.contains(x));
                    let m = choose|m: int| 0 <= m < rest.len() && rest[m] == x;
                    assert(idx[m] == x);
                } else {
                    assert(idx[idx.len() - 1] == x);
                }
            }
            if idx.contains(x) && album_of(tags[x]) == album {
                let m = choose|m: int| 0 <= m < idx.len() && idx[m] == x;
                if m < idx.len() - 1 {
                    assert(rest[m] == x);
                    assert(rest.contains(x));
                    assert(prev.contains(x));
                    let k = choose|k: int| 0 <= k < prev.len() && prev[k] == x;
                    assert(cur[k] == x);
                } else {
                    assert(cur[cur.len() - 1] == x);
                }
            }
        }
        if no_duplicates(idx) {
            assert(no_duplicates(rest)) by {
                assert forall|i: int, j: int|
                    0 <= i < rest.len() && 0 <= j < rest.len() && i != j implies rest[i] != rest[j] by {
                    assert(rest[i] == idx[i] && rest[j] == idx[j]);
                }
            }
            if album_of(tags[idx.last()]) == album {
                assert forall|i: int| 0 <= i < prev.len() implies prev[i] != idx.last() by {
                    assert(prev.contains(prev[i]));
                    let m = choose|m: int| 0 <= m < rest.len() && rest[m] == prev[i];
                    assert(idx[m] == prev[i]);
                }
            }
        }
    }
}

/// Under an unfolded artist each of its tracks is listed exactly once: some listed
/// album's block holds its position, no two blocks hold the same position, no block
/// holds a position twice, and every position in a block is a track of the artist.
pub proof fn lemma_each_track_listed_once(tags: Seq<TrackTags>, artist: Seq<char>)
    ensures
        ({
            let idx = artist_tracks(tags, artist, tags.len());
            let albums = sorted_albums(tags, idx);
            &&& forall|x: int|
                0 <= x < tags.len() && artist_of(tags[x]) == artist ==> exists|j: int|
                    0 <= j < albums.len() && #[trigger] album_tracks(
                        tags,
                        idx,
                        albums[j],
                    ).contains(x)
            &&& forall|x: int, i: int, j: int|
                0 <= i < albums.len() && 0 <= j < albums.len() && #[trigger] album_tracks(
                    tags,
                    idx,
                    albums[i],
                ).contains(x) && #[trigger] album_tracks(tags, idx, albums[j]).contains(x) ==> i
                    == j
            &&& forall|j: int|
                0 <= j < albums.len() ==> no_duplicates(#[trigger] album_tracks(tags, idx, albums[j]))
            &&& forall|x: int, j: int|
                0 <= j < albums.len() && #[trigger] album_tracks(tags, idx, albums[j]).contains(x)
                    ==> 0 <= x < tags.len() && artist_of(tags[x]) == artist
        }),
{
    let idx = artist_tracks(tags, artist, tags.len());
    let albums = sorted_albums(tags, idx);
    lemma_artist_tracks(tags, artist, tags.len());
    lemma_sorted_albums(tags, idx);
    assert(no_duplicates(idx)) by {
        assert forall|i: int, j: int|
            0 <= i < idx.len() && 0 <= j < idx.len() && i != j implies idx[i] != idx[j] by {
            if i < j {
                assert(idx[i] < idx[j]);
            } else {
                assert(idx[j] < idx[i]);
            }
        }
    }
    assert forall|j: int| 0 <= j < albums.len() implies no_duplicates(
        #[trigger] album_tracks(tags, idx, albums[j]),
    ) by {
        lemma_album_tracks(tags, idx, albums[j]);
    }
    assert forall|x: int, j: int|
        0 <= j < albums.len() && #[trigger] album_tracks(tags, idx, albums[j]).contains(
            x,
        ) implies 0 <= x < tags.len() && artist_of(tags[x]) == artist by {
        lemma_album_tracks(tags, idx, albums[j]);
        assert(idx.contains(x));
    }
    assert forall|x: int| 0 <= x < tags.len() && artist_of(tags[x]) == artist implies exists|j: int|
        0 <= j < albums.len() && #[trigger] album_tracks(tags, idx, albums[j]).contains(x) by {
        let b = album_of(tags[x]);
        assert(idx.contains(x));
        let m = choose|m: int| 0 <= m < idx.len() && idx[m] == x;
        assert(idx.map_values(|i: int| album_of(tags[i]))[m] == b);
        assert(album_set(tags, idx).contains(b));
        assert(albums.to_set().contains(b));
        let j = choose|j: int| 0 <= j < albums.len() && albums[j] == b;
        lemma_album_tracks(tags, idx, b);
        assert(album_tracks(tags, idx, albums[j]).contains(x));
    }
    assert forall|x: int, i: int, j: int|
        0 <= i < albums.len() && 0 <= j < albums.len() && #[trigger] album_tracks(
            tags,
            idx,
            albums[i],
        ).contains(x) && #[trigger] album_tracks(tags, idx, albums[j]).contains(x) implies i
        == j by {
        lemma_album_tracks(tags, idx, albums[i]);
        lemma_album_tracks(tags, idx, albums[j]);
        assert(albums[i] == album_of(tags[x]) && albums[j] == album_of(tags[x]));
        if i < j {
            lemma_lex_irreflexive(albums[i]);
            assert(lex_lt(albums[i], albums[j]));
        } else if j < i {
            lemma_lex_irreflexive(albums[j]);
            assert(lex_lt(albums[j], albums[i]));
        }
    }
}

} // verus!
