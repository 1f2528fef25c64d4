//! Library helpers: which files are indexed, titles and artists recovered from file
//! names, the SQL text of library queries, and the short texts the interface shows.
use vstd::prelude::*;

use crate::models::SearchQuery;
use crate::text::{
    char_to_uppercase, chars_of, decimal, decimal_2, has_prefix, has_substring, is_white_space,
    is_whitespace, join,
    join_strings, lowercase, occurs_at, owned, push_char, push_decimal, push_decimal_2, push_str, str_eq,
    string_of, to_lowercase, trim, trim_range, uppercase_char, views,
};

verus! {

// ───────────────────────── audio files ─────────────────────────

/// The file extensions the indexer picks up.
pub open spec fn audio_extensions() -> Seq<Seq<char>> {
    seq!["mp3"@, "flac"@, "ogg"@, "m4a"@, "wav"@, "aiff"@, "wma"@, "opus"@, "ape"@, "wv"@]
}

/// `c` with ASCII upper-case letters mapped to lower case.
pub open spec fn ascii_lower_char(c: char) -> char {
    if 'A' <= c <= 'Z' {
        ((c as u32) + 32) as char
    } else {
        c
    }
}

/// `s` with ASCII upper-case letters mapped to lower case (what `to_ascii_lowercase` returns).
pub open spec fn ascii_lower(s: Seq<char>) -> Seq<char> {
    s.map_values(|c: char| ascii_lower_char(c))
}

/// The ASCII lower-case form of `c`.
fn to_ascii_lower(c: char) -> (r: char)
    ensures
        r == ascii_lower_char(c),
{
    match c {
        'A' => 'a', 'B' => 'b', 'C' => 'c', 'D' => 'd', 'E' => 'e', 'F' => 'f', 'G' => 'g',
        'H' => 'h', 'I' => 'i', 'J' => 'j', 'K' => 'k', 'L' => 'l', 'M' => 'm', 'N' => 'n',
        'O' => 'o', 'P' => 'p', 'Q' => 'q', 'R' => 'r', 'S' => 's', 'T' => 't', 'U' => 'u',
        'V' => 'v', 'W' => 'w', 'X' => 'x', 'Y' => 'y', 'Z' => 'z',
        _ => c,
    }
}

/// Whether a file with this extension is indexed: the extension, with ASCII letters
/// in lower case, is one of `audio_extensions`.
pub fn is_audio_extension(ext: &str) -> (r: bool)
    ensures
        r == audio_extensions().contains(ascii_lower(ext@)),
{
    let v = chars_of(ext);
    let mut lower = String::new();
    let n = v.len();
    let mut i: usize = 0;
    while i < n
        invariant
            n == v@.len(),
            v@ == ext@,
            i <= n,
            lower@ == ascii_lower(v@.take(i as int)),
        decreases n - i,
    {
        push_char(&mut lower, to_ascii_lower(v[i]));
        i += 1;
        assert(lower@ =~= ascii_lower(v@.take(i as int)));
    }
    assert(v@.take(n as int) =~= v@);
    let l = lower.as_str();
    let known: [&str; 10] = ["mp3", "flac", "ogg", "m4a", "wav", "aiff", "wma", "opus", "ape", "wv"];
    assert(known@.map_values(|k: &str| k@) =~= audio_extensions());
    let mut k: usize = 0;
    while k < 10
        invariant
            k <= 10,
            known@.map_values(|x: &str| x@) == audio_extensions(),
            l@ == ascii_lower(ext@),
            forall|j: int| 0 <= j < k ==> audio_extensions()[j] != l@,
        decreases 10 - k,
    {
        if str_eq(known[k], l) {
            assert(audio_extensions()[k as int] == l@);
            return true;
        }
        k += 1;
    }
    false
}

// ───────────────────────── titles from file names ─────────────────────────

/// `c`, with underscores and hyphens read as spaces.
pub open spec fn dash_to_space(c: char) -> char {
    if c == '_' || c == '-' {
        ' '
    } else {
        c
    }
}

/// The words of `s`: the maximal runs of characters that are not white space
/// (what `split_whitespace` yields).
pub open spec fn words(s: Seq<char>) -> Seq<Seq<char>>
    decreases s.len(),
{
    if s.len() == 0 {
        Seq::empty()
    } else {
        let prev = words(s.drop_last());
        let c = s.last();
        if is_white_space(c) {
            prev
        } else if s.len() >= 2 && !is_white_space(s[s.len() - 2]) {
            prev.update(prev.len() - 1, prev.last().push(c))
        } else {
            prev.push(seq![c])
        }
    }
}

/// A word with its first character in upper case and the rest in lower case.
pub open spec fn capitalized(w: Seq<char>) -> Seq<char> {
    if w.len() == 0 {
        Seq::empty()
    } else {
        uppercase_char(w[0]) + lowercase(w.drop_first())
    }
}

/// `s` as a title: underscores and hyphens become spaces, and the words are
/// capitalized and joined by single spaces.
pub open spec fn humanized(s: Seq<char>) -> Seq<char> {
    join(words(s.map_values(|c: char| dash_to_space(c))).map_values(|w: Seq<char>| capitalized(w)), " "@)
}

/// The words of `v` (see `words`).
fn split_words(v: &Vec<char>) -> (r: Vec<Vec<char>>)
    ensures
        r@.map_values(|w: Vec<char>| w@) == words(v@),
{
    let mut r: Vec<Vec<char>> = Vec::new();
    let n = v.len();
    let mut i: usize = 0;
    while i < n
        invariant
            n == v@.len(),
            i <= n,
            r@.map_values(|w: Vec<char>| w@) == words(v@.take(i as int)),
            i > 0 && !is_white_space(v@[i - 1]) ==> r@.len() > 0,
        decreases n - i,
    {
        let c = v[i];
        proof {
            assert(v@.take(i + 1).drop_last() =~= v@.take(i as int));
            assert(v@.take(i + 1).last() == c);
            if i >= 1 {
                assert(v@.take(i + 1)[i - 1] == v@[i - 1]);
            }
        }
        let ghost prev = r@;
        if is_whitespace(c) {
        } else if i > 0 && !is_whitespace(v[i - 1]) {
            let last = r.len() - 1;
            let mut w = r.remove(last);
            w.push(c);
            r.push(w);
            proof {
                assert(r@.map_values(|w: Vec<char>| w@) =~= prev.map_values(|w: Vec<char>| w@).update(
                    last as int,
                    prev[last as int]@.push(c),
                ));
            }
        } else {
            let mut w: Vec<char> = Vec::new();
            w.push(c);
            r.push(w);
            proof {
                assert(w@ =~= seq![c]);
                assert(r@.map_values(|w: Vec<char>| w@) =~= prev.map_values(|w: Vec<char>| w@).push(
                    seq![c],
                ));
            }
        }
        i += 1;
    }
    assert(v@.take(n as int) =~= v@);
    r
}

/// A word with its first character in upper case and the rest in lower case.
fn capitalize(w: &Vec<char>) -> (r: String)
    ensures
        r@ == capitalized(w@),
{
    if w.len() == 0 {
        return String::new();
    }
    let mut r = char_to_uppercase(w[0]);
    let rest = string_of(w, 1, w.len());
    assert(w@.subrange(1, w@.len() as int) =~= w@.drop_first());
    let lower_rest = to_lowercase(rest.as_str());
    push_str(&mut r, lower_rest.as_str());
    r
}

/// Turns a file-name fragment into a title (see `humanized`).
pub fn humanize(s: &str) -> (r: String)
    ensures
        r@ == humanized(s@),
{
    let v = chars_of(s);
    let mut spaced: Vec<char> = Vec::new();
    let n = v.len();
    let mut i: usize = 0;
    while i < n
        invariant
            n == v@.len(),
            v@ == s@,
            i <= n,
            spaced@ == v@.take(i as int).map_values(|c: char| dash_to_space(c)),
        decreases n - i,
    {
        let c = v[i];
        spaced.push(if c == '_' || c == '-' { ' ' } else { c });
        i += 1;
        assert(spaced@ =~= v@.take(i as int).map_values(|c: char| dash_to_space(c)));
    }
    assert(v@.take(n as int) =~= v@);
    let ws = split_words(&spaced);
    let mut caps: Vec<String> = Vec::new();
    let m = ws.len();
    let mut k: usize = 0;
    while k < m
        invariant
            m == ws@.len(),
            k <= m,
            ws@.map_values(|w: Vec<char>| w@) == words(spaced@),
            views(caps@) == ws@.take(k as int).map_values(|w: Vec<char>| capitalized(w@)),
        decreases m - k,
    {
        let c = capitalize(&ws[k]);
        assert(ws@.take(k + 1) =~= ws@.take(k as int).push(ws@[k as int]));
        let ghost before = caps@;
        caps.push(c);
        assert(views(caps@) =~= views(before).push(c@));
        assert(c@ == capitalized(ws@[k as int]@));
        k += 1;
        assert(views(caps@) =~= ws@.take(k as int).map_values(|w: Vec<char>| capitalized(w@)));
    }
    assert(views(caps@) =~= words(spaced@).map_values(|w: Seq<char>| capitalized(w)));
    join_strings(&caps, " ")
}

/// The first position of `p` in `s` at or after `i`.
pub open spec fn find_from(s: Seq<char>, p: Seq<char>, i: int) -> Option<int>
    decreases s.len() + 1 - i,
{
    if i < 0 || i + p.len() > s.len() {
        None
    } else if s.subrange(i, i + p.len()) == p {
        Some(i)
    } else {
        find_from(s, p, i + 1)
    }
}

/// The last position of `c` in `s` before `i`.
pub open spec fn rfind_before(s: Seq<char>, c: char, i: int) -> Option<int>
    decreases i,
{
    if i <= 0 || i > s.len() {
        None
    } else if s[i - 1] == c {
        Some(i - 1)
    } else {
        rfind_before(s, c, i - 1)
    }
}

/// Every character of `s` is an ASCII digit.
pub open spec fn all_digits(s: Seq<char>) -> bool {
    forall|i: int| 0 <= i < s.len() ==> '0' <= #[trigger] s[i] <= '9'
}

/// `s` without a trailing `-` followed by at least three digits (a numeric id), if it has one.
pub open spec fn without_trailing_id(s: Seq<char>) -> Seq<char> {
    match rfind_before(s, '-', s.len() as int) {
        Some(d) => if all_digits(s.skip(d + 1)) && s.len() - (d + 1) >= 3 {
            s.take(d)
        } else {
            s
        },
        None => s,
    }
}

/// The artist and title read from a file name without tags:
/// `"artist - title"`; else `"artist-title"` where a trailing numeric id of the title is
/// dropped and neither part is empty; else no artist and the whole name as title.
/// Parts are trimmed and humanized.
pub open spec fn filename_parts(stem: Seq<char>) -> (Option<Seq<char>>, Seq<char>) {
    match find_from(stem, " - "@, 0) {
        Some(i) => (
            Some(humanized(trim(stem.take(i)))),
            humanized(trim(stem.skip(i + 3))),
        ),
        None => match find_from(stem, "-"@, 0) {
            Some(i) => {
                let first = trim(stem.take(i));
                let title = without_trailing_id(trim(stem.skip(i + 1)));
                if first.len() > 0 && title.len() > 0 {
                    (Some(humanized(first)), humanized(title))
                } else {
                    (None, humanized(stem))
                }
            },
            None => (None, humanized(stem)),
        },
    }
}

/// `find_from` gives the first occurrence at or after `i`.
pub proof fn lemma_find_from_first(s: Seq<char>, p: Seq<char>, i: int, k: int)
    requires
        0 <= i <= k,
        occurs_at(s, p, k),
        forall|j: int| i <= j < k ==> !#[trigger] occurs_at(s, p, j),
    ensures
        find_from(s, p, i) == Some(k),
    decreases k - i,
{
    if i < k {
        assert(!occurs_at(s, p, i));
        lemma_find_from_first(s, p, i + 1, k);
    }
}

/// A name with a spaced dash is cut at its first spaced dash: the artist is what comes
/// before it and the title what comes after it, each trimmed and humanized, whatever
/// plain dashes either part holds ("Jay-Z - 99 Problems" gives "Jay Z" and "99 Problems").
pub proof fn lemma_spaced_dash_splits_first(stem: Seq<char>, i: int)
    requires
        occurs_at(stem, " - "@, i),
        forall|j: int| 0 <= j < i ==> !#[trigger] occurs_at(stem, " - "@, j),
    ensures
        filename_parts(stem) == (
            Some(humanized(trim(stem.take(i)))),
            humanized(trim(stem.skip(i + 3))),
        ),
{
    reveal_strlit(" - ");
    lemma_find_from_first(stem, " - "@, 0, i);
}

/// A name made of `a`, a spaced dash and `b`, where the spaced dash is the first one in
/// the name, gives `a` as the artist and `b` as the title, trimmed and humanized.
pub proof fn lemma_spaced_dash_parts(a: Seq<char>, b: Seq<char>)
    requires
        !has_substring(a + " -"@, " - "@),
    ensures
        filename_parts(a + " - "@ + b) == (Some(humanized(trim(a))), humanized(trim(b))),
{
    reveal_strlit(" - ");
    reveal_strlit(" -");
    let stem = a + " - "@ + b;
    let i = a.len() as int;
    assert(stem.subrange(i, i + 3) =~= " - "@);
    assert forall|j: int| 0 <= j < i implies !#[trigger] occurs_at(stem, " - "@, j) by {
        if occurs_at(stem, " - "@, j) {
            assert(stem.subrange(j, j + 3) =~= (a + " -"@).subrange(j, j + 3));
            assert(occurs_at(a + " -"@, " - "@, j));
        }
    }
    lemma_spaced_dash_splits_first(stem, i);
    assert(stem.take(i) =~= a);
    assert(stem.skip(i + 3) =~= b);
}

/// The first position of `p` in `v` at or after `from`.
fn find_chars(v: &Vec<char>, p: &Vec<char>, from: usize) -> (r: Option<usize>)
    requires
        from <= v@.len(),
    ensures
        match r {
            Some(i) => find_from(v@, p@, from as int) == Some(i as int) && i + p@.len() <= v@.len(),
            None => find_from(v@, p@, from as int) is None,
        },
{
    let n = v.len();
    let mut i = from;
    while i < n
        invariant
            n == v@.len(),
            from <= i <= n,
            find_from(v@, p@, from as int) == find_from(v@, p@, i as int),
        decreases n - i,
    {
        if crate::text::occurs_at_exec(v, p, i) {
            return Some(i);
        }
        i += 1;
    }
    if crate::text::occurs_at_exec(v, p, n) {
        Some(n)
    } else {
        assert(find_from(v@, p@, n + 1) is None);
        None
    }
}

/// `s` without a trailing numeric id (see `without_trailing_id`).
pub fn strip_trailing_id(s: &str) -> (r: String)
    ensures
        r@ == without_trailing_id(s@),
{
    let v = chars_of(s);
    let n = v.len();
    let mut j = n;
    while j > 0 && v[j - 1] != '-'
        invariant
            n == v@.len(),
            v@ == s@,
            j <= n,
            rfind_before(v@, '-', n as int) == rfind_before(v@, '-', j as int),
        decreases j,
    {
        j -= 1;
    }
    if j == 0 {
        return string_of(&v, 0, n);
    }
    let d = j - 1;
    let mut k = j;
    while k < n && '0' <= v[k] && v[k] <= '9'
        invariant
            n == v@.len(),
            j <= k <= n,
            forall|q: int| j <= q < k ==> '0' <= #[trigger] v@[q] <= '9',
        decreases n - k,
    {
        k += 1;
    }
    proof {
        let suffix = v@.skip(j as int);
        if k < n {
            assert(!('0' <= suffix[k - j] <= '9'));
        } else {
            assert forall|q: int| 0 <= q < suffix.len() implies '0' <= #[trigger] suffix[q] <= '9' by {
                assert(suffix[q] == v@[j + q]);
            }
        }
    }
    if k == n && n - j >= 3 {
        assert(v@.subrange(0, d as int) =~= v@.take(d as int));
        string_of(&v, 0, d)
    } else {
        assert(v@.subrange(0, n as int) =~= v@);
        string_of(&v, 0, n)
    }
}

/// Reads artist and title out of a file name without tags (see `filename_parts`).
pub fn parse_filename(stem: &str) -> (r: (Option<String>, String))
    ensures
        r.1@ == filename_parts(stem@).1,
        match (r.0, filename_parts(stem@).0) {
            (Some(a), Some(b)) => a@ == b,
            (None, None) => true,
            _ => false,
        },
{
    let v = chars_of(stem);
    let n = v.len();
    let sep = chars_of(" - ");
    proof { reveal_strlit(" - "); }
    if let Some(i) = find_chars(&v, &sep, 0) {
        let (a0, a1) = trim_range(&v, 0, i);
        let (t0, t1) = trim_range(&v, i + 3, n);
        assert(v@.subrange(0, i as int) =~= v@.take(i as int));
        assert(v@.subrange(i + 3, n as int) =~= v@.skip(i + 3));
        let artist = string_of(&v, a0, a1);
        let title = string_of(&v, t0, t1);
        return (Some(humanize(artist.as_str())), humanize(title.as_str()));
    }
    let dash = chars_of("-");
    if let Some(i) = find_chars(&v, &dash, 0) {
        proof { reveal_strlit("-"); }
        let (f0, f1) = trim_range(&v, 0, i);
        let (r0, r1) = trim_range(&v, i + 1, n);
        assert(v@.subrange(0, i as int) =~= v@.take(i as int));
        assert(v@.subrange(i + 1, n as int) =~= v@.skip(i + 1));
        let first = string_of(&v, f0, f1);
        let rest = string_of(&v, r0, r1);
        let title_part = strip_trailing_id(rest.as_str());
        if f0 < f1 && !title_part.as_str().is_empty() {
            return (Some(humanize(first.as_str())), humanize(title_part.as_str()));
        }
    }
    (None, humanize(stem))
}

/// The title and artist of a track after the file name filled what the tags left open:
/// with neither, both come from the file name (see `filename_parts`); with an artist but
/// no title, the file name is the title.
pub open spec fn filled_title_artist(
    title: Option<Seq<char>>,
    artist: Option<Seq<char>>,
    stem: Option<Seq<char>>,
) -> (Option<Seq<char>>, Option<Seq<char>>) {
    if title is None && artist is None {
        match stem {
            Some(s) => (Some(filename_parts(s).1), filename_parts(s).0),
            None => (title, artist),
        }
    } else if title is None {
        (stem, artist)
    } else {
        (title, artist)
    }
}

/// A track without title and artist tags whose file name is `a`, a spaced dash and `b`
/// (the first spaced dash) gets `b` as its title and `a` as its artist, trimmed and humanized.
pub proof fn lemma_untagged_spaced_dash_name(a: Seq<char>, b: Seq<char>)
    requires
        !has_substring(a + " -"@, " - "@),
    ensures
        filled_title_artist(None, None, Some(a + " - "@ + b)) == (
            Some(humanized(trim(b))),
            Some(humanized(trim(a))),
        ),
{
    lemma_spaced_dash_parts(a, b);
}

/// The character sequence of an optional string.
pub open spec fn opt_view(o: Option<String>) -> Option<Seq<char>> {
    match o {
        Some(s) => Some(s@),
        None => None,
    }
}

/// Fills title and artist that the tags left open from the file name (without its
/// extension) when there is one (see `filled_title_artist`).
pub fn fill_title_artist(title: Option<String>, artist: Option<String>, stem: Option<String>) -> (r: (
    Option<String>,
    Option<String>,
))
    ensures
        (opt_view(r.0), opt_view(r.1)) == filled_title_artist(
            opt_view(title),
            opt_view(artist),
            opt_view(stem),
        ),
{
    if title.is_none() && artist.is_none() {
        match stem {
            Some(s) => {
                let (a, t) = parse_filename(s.as_str());
                (Some(t), a)
            },
            None => (title, artist),
        }
    } else if title.is_none() {
        (stem, artist)
    } else {
        (title, artist)
    }
}

// ───────────────────────── writing scanned tracks ─────────────────────────

/// How many tracks go to the database in one transaction.
pub const BATCH_SIZE: usize = 100;

/// One track pushed into a batcher holding `pending`: what stays pending and the batch
/// handed out, if any. Once `BATCH_SIZE` tracks are pending they are all handed out.
pub open spec fn push_step<T>(pending: Seq<T>, item: T) -> (Seq<T>, Option<Seq<T>>) {
    if pending.len() + 1 >= BATCH_SIZE {
        (Seq::empty(), Some(pending.push(item)))
    } else {
        (pending.push(item), None)
    }
}

/// The batches handed out when `items` are pushed one by one into a batcher holding
/// `pending`, and the batcher is then finished.
pub open spec fn batches<T>(pending: Seq<T>, items: Seq<T>) -> Seq<Seq<T>>
    decreases items.len(),
{
    if items.len() == 0 {
        if pending.len() == 0 {
            seq![]
        } else {
            seq![pending]
        }
    } else {
        let (rest, out) = push_step(pending, items[0]);
        match out {
            Some(b) => seq![b] + batches(rest, items.drop_first()),
            None => batches(rest, items.drop_first()),
        }
    }
}

/// Every pushed track reaches the database exactly once and in order: the batches
/// handed out, one after the other, are the pending tracks followed by the pushed ones;
/// no batch is empty or holds more than `BATCH_SIZE` tracks, and every batch but the
/// last holds exactly `BATCH_SIZE`.
pub proof fn lemma_batches_keep_every_track<T>(pending: Seq<T>, items: Seq<T>)
    requires
        pending.len() < BATCH_SIZE,
    ensures
        batches(pending, items).flatten() == pending + items,
        forall|i: int|
            0 <= i < batches(pending, items).len() ==> 0 < (#[trigger] batches(pending, items)[i]).len()
                <= BATCH_SIZE,
        forall|i: int|
            0 <= i < batches(pending, items).len() - 1 ==> (#[trigger] batches(
                pending,
                items,
            )[i]).len() == BATCH_SIZE,
    decreases items.len(),
{
    let bs = batches(pending, items);
    if items.len() == 0 {
        if pending.len() == 0 {
            assert(pending + items =~= Seq::<T>::empty());
        } else {
            bs.lemma_flatten_one_element();
            assert(pending + items =~= pending);
        }
    } else {
        let x = items[0];
        let more = items.drop_first();
        let (rest, out) = push_step(pending, x);
        lemma_batches_keep_every_track(rest, more);
        let tail = batches(rest, more);
        assert(pending.push(x) + more =~= pending + items);
        match out {
            Some(b) => {
                assert(bs == seq![b] + tail);
                assert((seq![b] + tail).drop_first() =~= tail);
                assert(bs.flatten() == b + tail.flatten());
                assert(rest + more =~= more);
                assert forall|i: int| 0 <= i < bs.len() implies 0 < (#[trigger] bs[i]).len()
                    <= BATCH_SIZE by {
                    if i > 0 {
                        assert(bs[i] == tail[i - 1]);
                    }
                }
                assert forall|i: int| 0 <= i < bs.len() - 1 implies (#[trigger] bs[i]).len()
                    == BATCH_SIZE by {
                    if i > 0 {
                        assert(bs[i] == tail[i - 1]);
                    }
                }
            },
            None => {},
        }
    }
}

/// Collects scanned tracks and hands them out in batches of `BATCH_SIZE` for the
/// database, in the order they came (see `lemma_batches_keep_every_track`).
pub struct Batcher<T> {
    pending: Vec<T>,
}

impl<T> Batcher<T> {
    /// The tracks collected and not handed out yet.
    pub closed spec fn pending(&self) -> Seq<T> {
        self.pending@
    }

    /// A batcher with nothing pending.
    pub fn new() -> (r: Self)
        ensures
            r.pending() == Seq::<T>::empty(),
    {
        Batcher { pending: Vec::new() }
    }

    /// Adds a track (see `push_step`).
    pub fn push(&mut self, item: T) -> (r: Option<Vec<T>>)
        ensures
            (final(self).pending(), match r {
                Some(b) => Some(b@),
                None => None,
            }) == push_step(old(self).pending(), item),
    {
        self.pending.push(item);
        if self.pending.len() >= BATCH_SIZE {
            let mut batch: Vec<T> = Vec::new();
            std::mem::swap(&mut batch, &mut self.pending);
            Some(batch)
        } else {
            None
        }
    }

    /// Hands out what is still pending, if anything is.
    pub fn finish(self) -> (r: Option<Vec<T>>)
        ensures
            self.pending().len() == 0 ==> r is None,
            self.pending().len() > 0 ==> (r matches Some(b) && b@ == self.pending()),
    {
        if self.pending.len() == 0 {
            None
        } else {
            Some(self.pending)
        }
    }
}

// ───────────────────────── SQL of library queries ─────────────────────────

/// The columns every track query selects, in the order rows are read.
pub open spec fn track_columns() -> Seq<char> {
    "SELECT id, file_path, title, artist, album, genre, track_number, duration_secs, bpm, file_size"@
}

/// The SQL of a track listing: one artist's album, one artist, or the whole library.
pub open spec fn tracks_query(has_artist: bool, has_album: bool) -> Seq<char> {
    if has_artist && has_album {
        track_columns() + "\n             FROM tracks WHERE artist = ?1 AND album = ?2 ORDER BY track_number, title"@
    } else if has_artist {
        track_columns() + "\n             FROM tracks WHERE artist = ?1 ORDER BY album, track_number, title"@
    } else {
        track_columns() + "\n             FROM tracks ORDER BY artist, album, track_number, title"@
    }
}

/// The SQL of a track listing (see `tracks_query`); the parameters are the artist and
/// then the album, as far as they are used.
pub fn tracks_sql(has_artist: bool, has_album: bool) -> (r: String)
    ensures
        r@ == tracks_query(has_artist, has_album),
{
    let mut r = owned(
        "SELECT id, file_path, title, artist, album, genre, track_number, duration_secs, bpm, file_size",
    );
    if has_artist && has_album {
        push_str(
            &mut r,
            "\n             FROM tracks WHERE artist = ?1 AND album = ?2 ORDER BY track_number, title",
        );
    } else if has_artist {
        push_str(
            &mut r,
            "\n             FROM tracks WHERE artist = ?1 ORDER BY album, track_number, title",
        );
    } else {
        push_str(&mut r, "\n             FROM tracks ORDER BY artist, album, track_number, title");
    }
    r
}

/// The condition for parameter number `n` on one column: `<column> LIKE ?<n>`.
pub open spec fn like_condition(column: Seq<char>, n: nat) -> Seq<char> {
    column + " LIKE ?"@ + decimal(n)
}

/// The condition for the free text, parameter number `n`: any of title, artist,
/// album and genre contains it.
pub open spec fn text_condition(n: nat) -> Seq<char> {
    "("@ + like_condition("title"@, n) + " OR "@ + like_condition("artist"@, n) + " OR "@
        + like_condition("album"@, n) + " OR "@ + like_condition("genre"@, n) + ")"@
}

/// `%<value>%`: the pattern of a substring match.
pub open spec fn like_pattern(value: Seq<char>) -> Seq<char> {
    "%"@ + value + "%"@
}

/// Adds the condition and parameter of one column when its value is set.
pub open spec fn add_column(
    acc: (Seq<Seq<char>>, Seq<Seq<char>>),
    column: Seq<char>,
    value: Option<String>,
) -> (Seq<Seq<char>>, Seq<Seq<char>>) {
    match value {
        Some(v) => (
            acc.0.push(like_condition(column, acc.1.len() + 1)),
            acc.1.push(like_pattern(v@)),
        ),
        None => acc,
    }
}

/// The conditions and parameters of a search: artist, album and genre, then the free
/// text, each only when set, numbered from 1 in that order.
pub open spec fn search_conditions(q: SearchQuery) -> (Seq<Seq<char>>, Seq<Seq<char>>) {
    let a = add_column((Seq::empty(), Seq::empty()), "artist"@, q.artist);
    let b = add_column(a, "album"@, q.album);
    let c = add_column(b, "genre"@, q.genre);
    match q.text {
        Some(t) => (c.0.push(text_condition(c.1.len() + 1)), c.1.push(like_pattern(t@))),
        None => c,
    }
}

/// A search has one parameter for each condition.
pub proof fn lemma_one_parameter_per_condition(q: SearchQuery)
    ensures
        search_conditions(q).0.len() == search_conditions(q).1.len(),
        search_conditions(q).0.len() == (if q.artist is Some { 1int } else { 0 }) + (if q.album is Some {
            1int
        } else {
            0
        }) + (if q.genre is Some { 1int } else { 0 }) + (if q.text is Some { 1int } else { 0 }),
{
}

/// The SQL of a search: the conditions joined by `AND` after `WHERE` (no `WHERE` without
/// conditions), sorted by artist, album, track number and title, at most 100 rows.
pub open spec fn search_query_sql(q: SearchQuery) -> Seq<char> {
    let conds = search_conditions(q).0;
    let where_clause = if conds.len() == 0 {
        Seq::empty()
    } else {
        "WHERE "@ + join(conds, " AND "@)
    };
    track_columns() + "\n         FROM tracks "@ + where_clause
        + "\n         ORDER BY artist, album, track_number, title\n         LIMIT 100"@
}

/// Appends the condition and parameter of one column when its value is set.
fn push_column(conds: &mut Vec<String>, params: &mut Vec<String>, column: &str, value: &Option<String>)
    requires
        old(params)@.len() < 1000,
    ensures
        final(params)@.len() <= old(params)@.len() + 1,
        (views(final(conds)@), views(final(params)@)) == add_column(
            (views(old(conds)@), views(old(params)@)),
            column@,
            *value,
        ),
{
    if let Some(v) = value {
        let mut c = owned(column);
        push_str(&mut c, " LIKE ?");
        push_decimal(&mut c, (params.len() + 1) as u64);
        conds.push(c);
        let mut p = owned("%");
        push_str(&mut p, v.as_str());
        push_str(&mut p, "%");
        params.push(p);
        assert(views(final(conds)@) =~= views(old(conds)@).push(
            like_condition(column@, old(params)@.len() + 1),
        ));
        assert(views(final(params)@) =~= views(old(params)@).push(like_pattern(v@)));
    }
}

/// Builds the SQL text of a library search and its parameters (see `search_query_sql`
/// and `search_conditions`); every parameter is a `%...%` substring pattern.
pub fn search_sql(query: &SearchQuery) -> (r: (String, Vec<String>))
    ensures
        r.0@ == search_query_sql(*query),
        views(r.1@) == search_conditions(*query).1,
{
    let mut conds: Vec<String> = Vec::new();
    let mut params: Vec<String> = Vec::new();
    push_column(&mut conds, &mut params, "artist", &query.artist);
    push_column(&mut conds, &mut params, "album", &query.album);
    push_column(&mut conds, &mut params, "genre", &query.genre);
    if let Some(t) = &query.text {
        let n = (params.len() + 1) as u64;
        let mut c = owned("(");
        push_str(&mut c, "title");
        push_str(&mut c, " LIKE ?");
        push_decimal(&mut c, n);
        push_str(&mut c, " OR ");
        push_str(&mut c, "artist");
        push_str(&mut c, " LIKE ?");
        push_decimal(&mut c, n);
        push_str(&mut c, " OR ");
        push_str(&mut c, "album");
        push_str(&mut c, " LIKE ?");
        push_decimal(&mut c, n);
        push_str(&mut c, " OR ");
        push_str(&mut c, "genre");
        push_str(&mut c, " LIKE ?");
        push_decimal(&mut c, n);
        push_str(&mut c, ")");
        let ghost before = conds@;
        let ghost before_p = params@;
        conds.push(c);
        let mut p = owned("%");
        push_str(&mut p, t.as_str());
        push_str(&mut p, "%");
        params.push(p);
        proof {
            assert(c@ =~= text_condition(before_p.len() + 1));
            assert(views(conds@) =~= views(before).push(c@));
            assert(views(params@) =~= views(before_p).push(like_pattern(t@)));
        }
    }
    let mut sql = owned(
        "SELECT id, file_path, title, artist, album, genre, track_number, duration_secs, bpm, file_size",
    );
    push_str(&mut sql, "\n         FROM tracks ");
    if conds.len() > 0 {
        push_str(&mut sql, "WHERE ");
        let joined = join_strings(&conds, " AND ");
        push_str(&mut sql, joined.as_str());
    }
    push_str(&mut sql, "\n         ORDER BY artist, album, track_number, title\n         LIMIT 100");
    proof {
        let conds_spec = search_conditions(*query).0;
        assert(views(conds@) == conds_spec);
        if conds@.len() == 0 {
            assert(sql@ =~= search_query_sql(*query));
        } else {
            assert(sql@ =~= search_query_sql(*query));
        }
    }
    (sql, params)
}

// ───────────────────────── short texts of the interface ─────────────────────────

/// A duration of `ms` milliseconds as the scan window shows it: whole seconds below a
/// minute (`"42s"`), otherwise minutes and two-digit seconds (`"3m 05s"`).
pub open spec fn elapsed_text(ms: nat) -> Seq<char> {
    let s = ms / 1000;
    if s < 60 {
        decimal(s) + "s"@
    } else {
        decimal(s / 60) + "m "@ + decimal_2(s % 60) + "s"@
    }
}

/// Formats an elapsed time (see `elapsed_text`).
pub fn fmt_elapsed(ms: u64) -> (r: String)
    ensures
        r@ == elapsed_text(ms as nat),
{
    let s = ms / 1000;
    let mut r = String::new();
    if s < 60 {
        push_decimal(&mut r, s);
        push_str(&mut r, "s");
    } else {
        push_decimal(&mut r, s / 60);
        push_str(&mut r, "m ");
        push_decimal_2(&mut r, s % 60);
        push_str(&mut r, "s");
    }
    assert(r@ =~= elapsed_text(ms as nat));
    r
}

/// The status bar: while scanning, the phase with the processed and found files (the
/// `scanning` text before the first report); otherwise the number of tracks followed by
/// `tracks_in_library`.
pub open spec fn status_text(
    is_scanning: bool,
    progress: Option<(Seq<char>, nat, nat)>,
    track_count: nat,
    scanning: Seq<char>,
    tracks_in_library: Seq<char>,
) -> Seq<char> {
    if is_scanning {
        match progress {
            Some((phase, processed, found)) => phase + " \u{2014} "@ + decimal(processed) + "/"@
                + decimal(found) + " files"@,
            None => scanning,
        }
    } else {
        decimal(track_count) + " "@ + tracks_in_library
    }
}

/// The text of the status bar (see `status_text`); `progress` is the phase and the
/// processed and found files of the last scan report.
pub fn status_line(
    is_scanning: bool,
    progress: Option<(&str, u64, u64)>,
    track_count: u64,
    scanning: &str,
    tracks_in_library: &str,
) -> (r: String)
    ensures
        r@ == status_text(
            is_scanning,
            match progress {
                Some((phase, processed, found)) => Some((phase@, processed as nat, found as nat)),
                None => None,
            },
            track_count as nat,
            scanning@,
            tracks_in_library@,
        ),
{
    if is_scanning {
        match progress {
            Some((phase, processed, found)) => {
                let mut r = owned(phase);
                push_str(&mut r, " \u{2014} ");
                push_decimal(&mut r, processed);
                push_str(&mut r, "/");
                push_decimal(&mut r, found);
                push_str(&mut r, " files");
                r
            },
            None => owned(scanning),
        }
    } else {
        let mut r = String::new();
        push_decimal(&mut r, track_count);
        push_str(&mut r, " ");
        push_str(&mut r, tracks_in_library);
        assert(r@ =~= decimal(track_count as nat) + " "@ + tracks_in_library@);
        r
    }
}

/// The badge of the scan window for the phase of the last report: the phase in capitals
/// for a known phase, otherwise `"STARTING"` while a scan runs and `"IDLE"` when none does.
pub open spec fn phase_badge(phase: Option<Seq<char>>, is_scanning: bool) -> Seq<char> {
    let known = match phase {
        Some(p) => if p == "discovering"@ {
            Some("DISCOVERING"@)
        } else if p == "indexing"@ {
            Some("INDEXING"@)
        } else if p == "removing"@ {
            Some("REMOVING"@)
        } else if p == "complete"@ {
            Some("COMPLETE"@)
        } else if p == "cancelled"@ {
            Some("CANCELLED"@)
        } else {
            None
        },
        None => None,
    };
    match known {
        Some(b) => b,
        None => if is_scanning {
            "STARTING"@
        } else {
            "IDLE"@
        },
    }
}

/// The badge of the scan window (see `phase_badge`).
pub fn scan_phase_badge(phase: Option<&str>, is_scanning: bool) -> (r: &'static str)
    ensures
        r@ == phase_badge(
            match phase {
                Some(p) => Some(p@),
                None => None,
            },
            is_scanning,
        ),
{
    let known: Option<&'static str> = match phase {
        Some(p) => if str_eq(p, "discovering") {
            Some("DISCOVERING")
        } else if str_eq(p, "indexing") {
            Some("INDEXING")
        } else if str_eq(p, "removing") {
            Some("REMOVING")
        } else if str_eq(p, "complete") {
            Some("COMPLETE")
        } else if str_eq(p, "cancelled") {
            Some("CANCELLED")
        } else {
            None
        },
        None => None,
    };
    match known {
        Some(b) => b,
        None => if is_scanning {
            "STARTING"
        } else {
            "IDLE"
        },
    }
}

/// Bytes of the UTF-8 encoding of `c`.
pub open spec fn utf8_width(c: char) -> nat {
    if (c as int) < 0x80 {
        1
    } else if (c as int) < 0x800 {
        2
    } else if (c as int) < 0x1_0000 {
        3
    } else {
        4
    }
}

/// Bytes of the UTF-8 encoding of `s`.
pub open spec fn utf8_len(s: Seq<char>) -> nat
    decreases s.len(),
{
    if s.len() == 0 {
        0
    } else {
        utf8_len(s.drop_last()) + utf8_width(s.last())
    }
}

/// Each character adds at least one byte: a longer prefix is longer in bytes.
pub proof fn lemma_utf8_prefixes(s: Seq<char>, i: int, j: int)
    requires
        0 <= i <= j <= s.len(),
    ensures
        utf8_len(s.take(i)) + (j - i) <= utf8_len(s.take(j)),
        utf8_len(s.take(j)) <= utf8_len(s.take(i)) + 4 * (j - i),
    decreases j - i,
{
    if i < j {
        lemma_utf8_prefixes(s, i, j - 1);
        assert(s.take(j).drop_last() =~= s.take(j - 1));
    }
}

/// `k` characters of `s` are the longest prefix of at most `limit` bytes: cutting there
/// splits no character and keeps as much as fits.
pub open spec fn is_byte_cut(s: Seq<char>, limit: nat, k: int) -> bool {
    &&& 0 <= k <= s.len()
    &&& utf8_len(s.take(k)) <= limit
    &&& (k == s.len() || utf8_len(s.take(k + 1)) > limit)
}

/// At most one prefix is the longest one within a byte limit.
pub proof fn lemma_byte_cut_unique(s: Seq<char>, limit: nat, k1: int, k2: int)
    requires
        is_byte_cut(s, limit, k1),
        is_byte_cut(s, limit, k2),
    ensures
        k1 == k2,
{
    if k1 < k2 {
        lemma_utf8_prefixes(s, k1 + 1, k2);
    } else if k2 < k1 {
        lemma_utf8_prefixes(s, k2 + 1, k1);
    }
}

/// The title line of a context menu: `"Track"` for a row without title; a title of more
/// than 22 bytes is cut to its longest start of at most 21 bytes that splits no
/// character, followed by an ellipsis.
pub open spec fn menu_label_text(title: Option<Seq<char>>) -> Seq<char> {
    match title {
        Some(name) => if utf8_len(name) > 22 {
            name.take(choose|k: int| is_byte_cut(name, 21, k)) + "\u{2026}"@
        } else {
            name
        },
        None => "Track"@,
    }
}

/// The title line of a context menu (see `menu_label_text`).
pub fn menu_label(title: Option<&str>) -> (r: String)
    ensures
        r@ == menu_label_text(
            match title {
                Some(t) => Some(t@),
                None => None,
            },
        ),
{
    let name: &str = match title {
        Some(t) => t,
        None => {
            return owned("Track");
        },
    };
    let v = chars_of(name);
    let mut bytes: u64 = 0;
    let mut i: usize = 0;
    let mut cut: usize = 0;
    while i < v.len() && bytes <= 22
        invariant
            v@ == name@,
            i <= v@.len(),
            bytes == utf8_len(v@.take(i as int)),
            bytes <= 26,
            bytes <= 21 ==> cut == i,
            bytes > 21 ==> cut < i && utf8_len(v@.take(cut as int)) <= 21 && utf8_len(
                v@.take(cut + 1),
            ) > 21,
        decreases v.len() - i,
    {
        let c = v[i];
        let two_bytes: char = '\u{80}';
        let three_bytes: char = '\u{800}';
        let four_bytes: char = '\u{10000}';
        let w: u64 = if c < two_bytes {
            1
        } else if c < three_bytes {
            2
        } else if c < four_bytes {
            3
        } else {
            4
        };
        proof {
            assert(v@.take(i + 1).drop_last() =~= v@.take(i as int));
        }
        if bytes + w <= 21 {
            cut = i + 1;
        }
        bytes = bytes + w;
        i = i + 1;
    }
    proof {
        lemma_utf8_prefixes(v@, i as int, v@.len() as int);
        assert(v@.take(v@.len() as int) =~= v@);
    }
    if bytes > 22 {
        proof {
            assert(is_byte_cut(v@, 21, cut as int));
            let k = choose|k: int| is_byte_cut(v@, 21, k);
            lemma_byte_cut_unique(v@, 21, k, cut as int);
        }
        let mut r = string_of(&v, 0, cut);
        push_str(&mut r, "\u{2026}");
        r
    } else {
        owned(name)
    }
}

/// A whole number of seconds as minutes and two-digit seconds (`"3:05"`).
pub open spec fn minutes_seconds_text(secs: nat) -> Seq<char> {
    decimal(secs / 60) + ":"@ + decimal_2(secs % 60)
}

/// Formats a track length or position given in whole seconds (see `minutes_seconds_text`).
pub fn fmt_minutes_seconds(secs: u64) -> (r: String)
    ensures
        r@ == minutes_seconds_text(secs as nat),
{
    let mut r = String::new();
    push_decimal(&mut r, secs / 60);
    push_str(&mut r, ":");
    push_decimal_2(&mut r, secs % 60);
    assert(r@ =~= minutes_seconds_text(secs as nat));
    r
}

/// The window title: `"<title> - <artist> | Nullamp"` while a track is current (an
/// unknown field reads `"Unknown"`), otherwise `"Nullamp"`.
pub open spec fn title_text(current: Option<(Option<Seq<char>>, Option<Seq<char>>)>) -> Seq<char> {
    match current {
        Some((t, a)) => (match t {
            Some(x) => x,
            None => "Unknown"@,
        }) + " - "@ + (match a {
            Some(x) => x,
            None => "Unknown"@,
        }) + " | Nullamp"@,
        None => "Nullamp"@,
    }
}

/// The window title for the current track's title and artist (see `title_text`).
pub fn window_title(current: Option<(Option<&str>, Option<&str>)>) -> (r: String)
    ensures
        r@ == title_text(match current {
            Some((t, a)) => Some((match t { Some(x) => Some(x@), None => None }, match a {
                Some(x) => Some(x@),
                None => None,
            })),
            None => None,
        }),
{
    match current {
        Some((t, a)) => {
            let mut r = match t {
                Some(x) => owned(x),
                None => owned("Unknown"),
            };
            push_str(&mut r, " - ");
            match a {
                Some(x) => push_str(&mut r, x),
                None => push_str(&mut r, "Unknown"),
            }
            push_str(&mut r, " | Nullamp");
            r
        },
        None => owned("Nullamp"),
    }
}

/// `name` could be the file name `Path::file_name` finds in `path`: a nonempty piece of
/// the path without `/`.
pub open spec fn is_path_component(path: Seq<char>, name: Seq<char>) -> bool {
    &&& name.len() > 0
    &&& has_substring(path, name)
    &&& !name.contains('/')
}

/// The part of `s` after its last `/` (all of `s` when it has none).
pub open spec fn tail_segment(s: Seq<char>) -> Seq<char>
    decreases s.len(),
{
    if s.len() == 0 || s.last() == '/' {
        Seq::empty()
    } else {
        tail_segment(s.drop_last()).push(s.last())
    }
}

/// The part after the last `/` is no longer than the path, and not empty when the path
/// does not end in `/`.
pub proof fn lemma_tail_segment_len(s: Seq<char>)
    ensures
        tail_segment(s).len() <= s.len(),
        s.len() > 0 && s.last() != '/' ==> tail_segment(s).len() > 0,
    decreases s.len(),
{
    if s.len() > 0 && s.last() != '/' {
        lemma_tail_segment_len(s.drop_last());
    }
}

/// The last name of a `/`-separated path: trailing slashes and `.` components are passed
/// over; `None` when the path ends in `..`, or is empty, a root or only `.`.
pub open spec fn last_component(s: Seq<char>) -> Option<Seq<char>>
    decreases s.len(),
{
    if s.len() == 0 {
        None
    } else if s.last() == '/' {
        last_component(s.drop_last())
    } else {
        let seg = tail_segment(s);
        if seg == "."@ {
            proof {
                lemma_tail_segment_len(s);
            }
            last_component(s.subrange(0, s.len() - seg.len()))
        } else if seg == ".."@ {
            None
        } else {
            Some(seg)
        }
    }
}

/// A path that every platform splits the same way: no backslash, no drive colon, and
/// no leading `//`.
pub open spec fn is_portable_path(s: Seq<char>) -> bool {
    &&& !s.contains('\\')
    &&& !s.contains(':')
    &&& !has_prefix(s, "//"@)
}

/// Calls `Path::file_name` on `path`. Which component it finds depends on the platform's
/// separators (a backslash separates components, and a drive or `//server` prefix is
/// read, on Windows only). On every platform a name found is a nonempty piece of the
/// path without `/`; for a path that all platforms split alike (see
/// `is_portable_path`) it is the last component (see `last_component`).
#[verifier::external_body]
fn path_file_name_of(path: &str) -> (r: Option<String>)
    ensures
        r matches Some(n) ==> is_path_component(path@, n@),
        is_portable_path(path@) ==> match r {
            Some(n) => last_component(path@) == Some(n@),
            None => last_component(path@) is None,
        },
{
    std::path::Path::new(path).file_name().map(|n| n.to_string_lossy().into_owned())
}

/// The last component of a path, or the whole path when it has none (see
/// `last_component` for a path that all platforms split alike).
pub fn file_name(path: &str) -> (r: String)
    ensures
        r@ == path@ || is_path_component(path@, r@),
        is_portable_path(path@) ==> r@ == match last_component(path@) {
            Some(n) => n,
            None => path@,
        },
{
    match path_file_name_of(path) {
        Some(n) => n,
        None => owned(path),
    }
}

} // verus!
