//! Incremental library scans: which discovered files are new, which stored tracks have
//! gone from the disk, and the phases a scan reports.
use vstd::prelude::*;

use crate::text::{decimal, digit_char, owned, push_char, push_decimal, push_str, str_eq, views};
use crate::tree::{lemma_lex_irreflexive, lemma_lex_total, lemma_lex_transitive, lex_lt, sorts_before};

verus! {

// ───────────────────────── sorted lookups ─────────────────────────

/// `a` sorts before `b` or is `b`.
pub open spec fn lex_le(a: Seq<char>, b: Seq<char>) -> bool {
    !lex_lt(b, a)
}

/// Strictly before excludes the other way round.
proof fn lemma_lex_asymmetric(a: Seq<char>, b: Seq<char>)
    requires
        lex_lt(a, b),
    ensures
        !lex_lt(b, a),
{
    if lex_lt(b, a) {
        lemma_lex_transitive(a, b, a);
        lemma_lex_irreflexive(a);
    }
}

/// Not after, then strictly before, is strictly before.
proof fn lemma_le_lt(a: Seq<char>, b: Seq<char>, c: Seq<char>)
    requires
        lex_le(a, b),
        lex_lt(b, c),
    ensures
        lex_lt(a, c),
{
    if a != b {
        lemma_lex_total(a, b);
        lemma_lex_transitive(a, b, c);
    }
}

/// Not after is transitive.
proof fn lemma_le_le(a: Seq<char>, b: Seq<char>, c: Seq<char>)
    requires
        lex_le(a, b),
        lex_le(b, c),
    ensures
        lex_le(a, c),
{
    if a != b && b != c {
        lemma_lex_total(a, b);
        lemma_lex_total(b, c);
        lemma_lex_transitive(a, b, c);
        lemma_lex_asymmetric(a, c);
    } else if a == b {
    } else {
    }
}

/// The positions `idx` list strings of `keys` in order.
pub open spec fn sorted_by(keys: Seq<Seq<char>>, idx: Seq<usize>) -> bool {
    forall|i: int, j: int|
        0 <= i < j < idx.len() ==> lex_le(keys[#[trigger] idx[i] as int], keys[#[trigger] idx[j] as int])
}

/// Every position of `idx` is a position of `keys`.
pub open spec fn in_range(keys: Seq<Seq<char>>, idx: Seq<usize>) -> bool {
    forall|i: int| 0 <= i < idx.len() ==> #[trigger] idx[i] < keys.len()
}

/// Merges two lists of positions that are in order into one.
fn merge(keys: &Vec<String>, a: Vec<usize>, b: Vec<usize>) -> (r: Vec<usize>)
    requires
        sorted_by(views(keys@), a@),
        sorted_by(views(keys@), b@),
        in_range(views(keys@), a@),
        in_range(views(keys@), b@),
    ensures
        sorted_by(views(keys@), r@),
        in_range(views(keys@), r@),
        forall|v: usize| r@.contains(v) <==> a@.contains(v) || b@.contains(v),
{
    let ghost k = views(keys@);
    let mut out: Vec<usize> = Vec::new();
    let mut i: usize = 0;
    let mut j: usize = 0;
    while i < a.len() || j < b.len()
        invariant
            k == views(keys@),
            i <= a@.len(),
            j <= b@.len(),
            sorted_by(k, a@),
            sorted_by(k, b@),
            in_range(k, a@),
            in_range(k, b@),
            sorted_by(k, out@),
            in_range(k, out@),
            forall|v: usize| out@.contains(v) ==> a@.contains(v) || b@.contains(v),
            forall|q: int| 0 <= q < i ==> out@.contains(#[trigger] a@[q]),
            forall|q: int| 0 <= q < j ==> out@.contains(#[trigger] b@[q]),
            out@.len() > 0 && i < a@.len() ==> lex_le(k[out@.last() as int], k[a@[i as int] as int]),
            out@.len() > 0 && j < b@.len() ==> lex_le(k[out@.last() as int], k[b@[j as int] as int]),
        decreases a@.len() - i + b@.len() - j,
    {
        let take_a = if i < a.len() && j < b.len() {
            !sorts_before(keys[b[j]].as_str(), keys[a[i]].as_str())
        } else {
            i < a.len()
        };
        let ghost before = out@;
        let e: usize;
        if take_a {
            e = a[i];
            proof {
                if j < b@.len() {
                    assert(lex_le(k[e as int], k[b@[j as int] as int]));
                }
                if i + 1 < a@.len() {
                    assert(lex_le(k[a@[i as int] as int], k[a@[i + 1] as int]));
                }
            }
            i = i + 1;
        } else {
            e = b[j];
            proof {
                if i < a@.len() {
                    lemma_lex_asymmetric(k[b@[j as int] as int], k[a@[i as int] as int]);
                }
                if j + 1 < b@.len() {
                    assert(lex_le(k[b@[j as int] as int], k[b@[j + 1] as int]));
                }
            }
            j = j + 1;
        }
        out.push(e);
        proof {
            assert(out@ == before.push(e));
            if before.len() > 0 {
                assert(lex_le(k[before.last() as int], k[e as int]));
            }
            assert forall|p: int, q: int| 0 <= p < q < out@.len() implies lex_le(
                k[#[trigger] out@[p] as int],
                k[#[trigger] out@[q] as int],
            ) by {
                if q == out@.len() - 1 {
                    if p < before.len() - 1 {
                        assert(lex_le(k[before[p] as int], k[before.last() as int]));
                        lemma_le_le(k[before[p] as int], k[before.last() as int], k[e as int]);
                    }
                } else {
                    assert(out@[p] == before[p] && out@[q] == before[q]);
                }
            }
            assert forall|v: usize| out@.contains(v) implies a@.contains(v) || b@.contains(v) by {
                if v != e {
                    let m = choose|m: int| 0 <= m < out@.len() && out@[m] == v;
                    assert(before[m] == v);
                }
            }
            assert forall|q: int| 0 <= q < i implies out@.contains(#[trigger] a@[q]) by {
                if take_a && q == i - 1 {
                    assert(out@[out@.len() - 1] == a@[q]);
                } else {
                    let m = choose|m: int| 0 <= m < before.len() && before[m] == a@[q];
                    assert(out@[m] == a@[q]);
                }
            }
            assert forall|q: int| 0 <= q < j implies out@.contains(#[trigger] b@[q]) by {
                if !take_a && q == j - 1 {
                    assert(out@[out@.len() - 1] == b@[q]);
                } else {
                    let m = choose|m: int| 0 <= m < before.len() && before[m] == b@[q];
                    assert(out@[m] == b@[q]);
                }
            }
        }
    }
    proof {
        assert forall|v: usize| a@.contains(v) || b@.contains(v) implies out@.contains(v) by {
            if a@.contains(v) {
                let m = choose|m: int| 0 <= m < a@.len() && a@[m] == v;
                assert(out@.contains(a@[m]));
            } else {
                let m = choose|m: int| 0 <= m < b@.len() && b@[m] == v;
                assert(out@.contains(b@[m]));
            }
        }
    }
    out
}

/// The positions `lo..hi` of `keys`, ordered by their strings.
fn sort_range(keys: &Vec<String>, lo: usize, hi: usize) -> (r: Vec<usize>)
    requires
        lo <= hi <= keys@.len(),
    ensures
        sorted_by(views(keys@), r@),
        in_range(views(keys@), r@),
        forall|v: usize| r@.contains(v) <==> lo <= v < hi,
    decreases hi - lo,
{
    if hi - lo <= 1 {
        let mut r: Vec<usize> = Vec::new();
        if lo < hi {
            r.push(lo);
        }
        proof {
            assert forall|v: usize| r@.contains(v) <==> lo <= v < hi by {
                if lo <= v < hi {
                    assert(r@[0] == v);
                }
            }
        }
        r
    } else {
        let mid = lo + (hi - lo) / 2;
        let left = sort_range(keys, lo, mid);
        let right = sort_range(keys, mid, hi);
        merge(keys, left, right)
    }
}

/// Whether `x` is among the strings that the ordered positions `idx` list.
fn listed(keys: &Vec<String>, idx: &Vec<usize>, x: &str) -> (r: bool)
    requires
        sorted_by(views(keys@), idx@),
        in_range(views(keys@), idx@),
    ensures
        r == exists|q: int| 0 <= q < idx@.len() && views(keys@)[#[trigger] idx@[q] as int] == x@,
{
    let ghost k = views(keys@);
    let mut lo: usize = 0;
    let mut hi: usize = idx.len();
    while lo < hi
        invariant
            k == views(keys@),
            lo <= hi <= idx@.len(),
            sorted_by(k, idx@),
            in_range(k, idx@),
            forall|q: int| 0 <= q < lo ==> lex_lt(k[#[trigger] idx@[q] as int], x@),
            forall|q: int| hi <= q < idx@.len() ==> !lex_lt(k[#[trigger] idx@[q] as int], x@),
        decreases hi - lo,
    {
        let mid = lo + (hi - lo) / 2;
        if sorts_before(keys[idx[mid]].as_str(), x) {
            proof {
                assert forall|q: int| 0 <= q <= mid implies lex_lt(k[#[trigger] idx@[q] as int], x@) by {
                    if q < mid {
                        lemma_le_lt(k[idx@[q] as int], k[idx@[mid as int] as int], x@);
                    }
                }
            }
            lo = mid + 1;
        } else {
            proof {
                assert forall|q: int| mid <= q < idx@.len() implies !lex_lt(
                    k[#[trigger] idx@[q] as int],
                    x@,
                ) by {
                    if q > mid && lex_lt(k[idx@[q] as int], x@) {
                        lemma_le_lt(k[idx@[mid as int] as int], k[idx@[q] as int], x@);
                    }
                }
            }
            hi = mid;
        }
    }
    if lo < idx.len() && str_eq(keys[idx[lo]].as_str(), x) {
        assert(k[idx@[lo as int] as int] == x@);
        true
    } else {
        proof {
            assert forall|q: int| 0 <= q < idx@.len() implies k[#[trigger] idx@[q] as int] != x@ by {
                if k[idx@[q] as int] == x@ {
                    lemma_lex_irreflexive(x@);
                    if q >= lo {
                        // the string at `lo` is neither before nor after `x`
                        assert(lo < idx@.len());
                        if q > lo {
                            assert(lex_le(k[idx@[lo as int] as int], k[idx@[q] as int]));
                        }
                        assert(!lex_lt(k[idx@[lo as int] as int], x@));
                        if k[idx@[lo as int] as int] != x@ {
                            lemma_lex_total(k[idx@[lo as int] as int], x@);
                        }
                    }
                }
            }
        }
        false
    }
}

/// An index of the strings of `keys` for quick lookups.
fn index_of_strings(keys: &Vec<String>) -> (r: Vec<usize>)
    ensures
        sorted_by(views(keys@), r@),
        in_range(views(keys@), r@),
        forall|v: usize| r@.contains(v) <==> v < keys@.len(),
{
    sort_range(keys, 0, keys.len())
}

/// Whether `x` is one of `keys`, given an index made by `index_of_strings`.
fn is_listed(keys: &Vec<String>, idx: &Vec<usize>, x: &str) -> (r: bool)
    requires
        sorted_by(views(keys@), idx@),
        in_range(views(keys@), idx@),
        forall|v: usize| idx@.contains(v) <==> v < keys@.len(),
    ensures
        r == views(keys@).contains(x@),
{
    let r = listed(keys, idx, x);
    let n = keys.len();
    proof {
        let k = views(keys@);
        if k.contains(x@) {
            let m = choose|m: int| 0 <= m < k.len() && k[m] == x@;
            assert(k.len() == n);
            assert((m as usize) as int == m);
            assert(idx@.contains(m as usize));
            let q = choose|q: int| 0 <= q < idx@.len() && idx@[q] == m as usize;
            assert(k[idx@[q] as int] == x@);
        }
        if r {
            let q = choose|q: int| 0 <= q < idx@.len() && k[#[trigger] idx@[q] as int] == x@;
            assert(k[idx@[q] as int] == x@);
        }
    }
    r
}

// ───────────────────────── new and missing files ─────────────────────────

/// The strings of `s` that are not among `known`, in order.
pub open spec fn without(s: Seq<Seq<char>>, known: Seq<Seq<char>>) -> Seq<Seq<char>>
    decreases s.len(),
{
    if s.len() == 0 {
        seq![]
    } else {
        let rest = without(s.drop_last(), known);
        if known.contains(s.last()) {
            rest
        } else {
            rest.push(s.last())
        }
    }
}

/// Leaving strings out keeps at most as many.
pub proof fn lemma_without_len(s: Seq<Seq<char>>, known: Seq<Seq<char>>)
    ensures
        without(s, known).len() <= s.len(),
    decreases s.len(),
{
    if s.len() > 0 {
        lemma_without_len(s.drop_last(), known);
    }
}

/// The strings of `items` that are not among `known`, in order (see `without`).
fn keep_unlisted(items: &Vec<String>, known: &Vec<String>) -> (r: Vec<String>)
    ensures
        views(r@) == without(views(items@), views(known@)),
{
    let idx = index_of_strings(known);
    let mut out: Vec<String> = Vec::new();
    let mut i: usize = 0;
    while i < items.len()
        invariant
            i <= items@.len(),
            sorted_by(views(known@), idx@),
            in_range(views(known@), idx@),
            forall|v: usize| idx@.contains(v) <==> v < known@.len(),
            views(out@) == without(views(items@).take(i as int), views(known@)),
        decreases items.len() - i,
    {
        proof {
            assert(views(items@).take(i + 1).drop_last() =~= views(items@).take(i as int));
        }
        if !is_listed(known, &idx, items[i].as_str()) {
            out.push(owned(items[i].as_str()));
            assert(views(out@) =~= without(views(items@).take(i as int), views(known@)).push(
                items@[i as int]@,
            ));
        }
        i = i + 1;
    }
    assert(views(items@).take(items@.len() as int) =~= views(items@));
    out
}

/// The discovered files that are not in the library yet, in the order found, and how
/// many discovered files are skipped because the library has them.
pub fn new_files(found: &Vec<String>, known: &Vec<String>) -> (r: (Vec<String>, usize))
    ensures
        views(r.0@) == without(views(found@), views(known@)),
        r.1 == found@.len() - r.0@.len(),
{
    let fresh = keep_unlisted(found, known);
    proof {
        lemma_without_len(views(found@), views(known@));
    }
    let skipped = found.len() - fresh.len();
    (fresh, skipped)
}

/// The stored paths whose files are no longer on the disk, in the order stored.
pub fn missing_paths(known: &Vec<String>, on_disk: &Vec<String>) -> (r: Vec<String>)
    ensures
        views(r@) == without(views(known@), views(on_disk@)),
{
    keep_unlisted(known, on_disk)
}

// ───────────────────────── changed files ─────────────────────────

/// The stamp of a file: its path, a NUL character, and its modification time in whole
/// seconds when it is known. Looking files up by stamp finds a file only while neither
/// its path nor its modification time has changed.
pub open spec fn stamp_text(path: Seq<char>, modified: Option<u64>) -> Seq<char> {
    path + seq!['\0'] + match modified {
        Some(t) => decimal(t as nat),
        None => Seq::empty(),
    }
}

/// The stamp of a file (see `stamp_text`).
pub fn file_stamp(path: &str, modified: Option<u64>) -> (r: String)
    ensures
        r@ == stamp_text(path@, modified),
{
    let mut r = owned(path);
    push_char(&mut r, '\0');
    if let Some(t) = modified {
        push_decimal(&mut r, t);
    }
    assert(r@ =~= stamp_text(path@, modified));
    r
}

/// The decimal digits of a number hold no NUL and at least one character.
proof fn lemma_decimal_digits(n: nat)
    ensures
        decimal(n).len() >= 1,
        !decimal(n).contains('\0'),
    decreases n,
{
    if n >= 10 {
        lemma_decimal_digits(n / 10);
        assert forall|i: int| 0 <= i < decimal(n).len() implies decimal(n)[i] != '\0' by {
            if i < decimal(n / 10).len() {
                assert(decimal(n)[i] == decimal(n / 10)[i]);
            }
        }
    }
}

/// Different digits have different characters.
proof fn lemma_digit_char_injective(a: nat, b: nat)
    requires
        a < 10,
        b < 10,
        digit_char(a) == digit_char(b),
    ensures
        a == b,
{
}

/// Different numbers have different decimal digits.
proof fn lemma_decimal_injective(a: nat, b: nat)
    requires
        decimal(a) == decimal(b),
    ensures
        a == b,
    decreases a + b,
{
    lemma_decimal_digits(a / 10);
    lemma_decimal_digits(b / 10);
    if a >= 10 && b >= 10 {
        assert(decimal(a / 10) =~= decimal(a).drop_last());
        assert(decimal(b / 10) =~= decimal(b).drop_last());
        assert(digit_char(a % 10) == decimal(a).last());
        assert(digit_char(b % 10) == decimal(b).last());
        lemma_digit_char_injective(a % 10, b % 10);
        lemma_decimal_injective(a / 10, b / 10);
    } else if a < 10 && b < 10 {
        assert(decimal(a)[0] == digit_char(a));
        assert(decimal(b)[0] == digit_char(b));
        lemma_digit_char_injective(a, b);
    } else if a < 10 {
        assert(decimal(a).len() == 1);
        assert(decimal(b).len() == decimal(b / 10).len() + 1);
    } else {
        assert(decimal(b).len() == 1);
        assert(decimal(a).len() == decimal(a / 10).len() + 1);
    }
}

/// Equal stamps come from the same path and the same modification time, for paths
/// without NUL (which no file system allows in a path).
pub proof fn lemma_stamp_identifies_file(p1: Seq<char>, m1: Option<u64>, p2: Seq<char>, m2: Option<u64>)
    requires
        !p1.contains('\0'),
        !p2.contains('\0'),
        stamp_text(p1, m1) == stamp_text(p2, m2),
    ensures
        p1 == p2,
        m1 == m2,
{
    let s = stamp_text(p1, m1);
    if p1.len() < p2.len() {
        assert(s[p1.len() as int] == '\0');
        assert(s[p1.len() as int] == p2[p1.len() as int]);
    } else if p2.len() < p1.len() {
        assert(s[p2.len() as int] == '\0');
        assert(s[p2.len() as int] == p1[p2.len() as int]);
    }
    assert(p1 =~= s.take(p1.len() as int));
    assert(p2 =~= s.take(p2.len() as int));
    let d1 = match m1 {
        Some(t) => decimal(t as nat),
        None => Seq::<char>::empty(),
    };
    let d2 = match m2 {
        Some(t) => decimal(t as nat),
        None => Seq::<char>::empty(),
    };
    assert(d1 =~= s.skip(p1.len() as int + 1));
    assert(d2 =~= s.skip(p2.len() as int + 1));
    match (m1, m2) {
        (Some(a), Some(b)) => {
            lemma_decimal_injective(a as nat, b as nat);
        },
        (Some(a), None) => {
            lemma_decimal_digits(a as nat);
        },
        (None, Some(b)) => {
            lemma_decimal_digits(b as nat);
        },
        (None, None) => {},
    }
}

// ───────────────────────── progress ─────────────────────────

/// The phases a scan reports.
#[derive(Debug, Clone, Copy, PartialEq, Eq, Structural)]
pub enum ScanPhase {
    Discovering,
    Indexing,
    Removing,
    Complete,
    Cancelled,
}

/// The phase after `phase` once its work is done; `cancelled` tells whether the scan was
/// cancelled meanwhile. A scan cancelled while files are discovered ends without a
/// further report (`None`); cancelled while indexing it reports `Cancelled`; otherwise
/// discovering leads to indexing, indexing to removing, removing to complete. Complete
/// and cancelled are final.
pub open spec fn phase_after(phase: ScanPhase, cancelled: bool) -> Option<ScanPhase> {
    match phase {
        ScanPhase::Discovering => if cancelled {
            None
        } else {
            Some(ScanPhase::Indexing)
        },
        ScanPhase::Indexing => if cancelled {
            Some(ScanPhase::Cancelled)
        } else {
            Some(ScanPhase::Removing)
        },
        ScanPhase::Removing => Some(ScanPhase::Complete),
        ScanPhase::Complete => None,
        ScanPhase::Cancelled => None,
    }
}

impl ScanPhase {
    /// The next phase (see `phase_after`).
    pub fn next(self, cancelled: bool) -> (r: Option<ScanPhase>)
        ensures
            r == phase_after(self, cancelled),
    {
        match self {
            ScanPhase::Discovering => if cancelled {
                None
            } else {
                Some(ScanPhase::Indexing)
            },
            ScanPhase::Indexing => if cancelled {
                Some(ScanPhase::Cancelled)
            } else {
                Some(ScanPhase::Removing)
            },
            ScanPhase::Removing => Some(ScanPhase::Complete),
            ScanPhase::Complete => None,
            ScanPhase::Cancelled => None,
        }
    }

    /// The name a progress report carries.
    pub fn name(self) -> (r: &'static str)
        ensures
            r@ == match self {
                ScanPhase::Discovering => "discovering"@,
                ScanPhase::Indexing => "indexing"@,
                ScanPhase::Removing => "removing"@,
                ScanPhase::Complete => "complete"@,
                ScanPhase::Cancelled => "cancelled"@,
            },
    {
        match self {
            ScanPhase::Discovering => "discovering",
            ScanPhase::Indexing => "indexing",
            ScanPhase::Removing => "removing",
            ScanPhase::Complete => "complete",
            ScanPhase::Cancelled => "cancelled",
        }
    }
}

/// A scan ends after at most four reports: each step moves forward, and complete and
/// cancelled have no successor.
pub proof fn lemma_scan_ends(c1: bool, c2: bool, c3: bool)
    ensures
        ({
            let p1 = phase_after(ScanPhase::Discovering, c1);
            p1 is None || ({
                let p2 = phase_after(p1->0, c2);
                p2 is None || ({
                    let p3 = phase_after(p2->0, c3);
                    p3 is None || phase_after(p3->0, c3) is None
                })
            })
        }),
{
}

/// The progress line of the scan window: processed and found files of the last report
/// (none before the first one).
pub open spec fn progress_text(progress: Option<(nat, nat)>) -> Seq<char> {
    let (processed, found) = match progress {
        Some(p) => p,
        None => (0, 0),
    };
    decimal(processed) + " / "@ + decimal(found) + " files"@
}

/// The progress line of the scan window (see `progress_text`).
pub fn progress_label(progress: Option<(u64, u64)>) -> (r: String)
    ensures
        r@ == progress_text(
            match progress {
                Some((p, f)) => Some((p as nat, f as nat)),
                None => None,
            },
        ),
{
    let (processed, found) = match progress {
        Some(p) => p,
        None => (0, 0),
    };
    let mut r = String::new();
    push_decimal(&mut r, processed);
    push_str(&mut r, " / ");
    push_decimal(&mut r, found);
    push_str(&mut r, " files");
    assert(r@ =~= decimal(processed as nat) + " / "@ + decimal(found as nat) + " files"@);
    r
}

/// The button of the scan window.
#[derive(Debug, Clone, Copy, PartialEq, Eq, Structural)]
pub enum ScanWindowAction {
    /// Cancel the running scan.
    CancelScan,
    /// Close the window.
    Close,
}

/// The scan window offers to cancel while a scan runs and to close otherwise.
pub fn scan_window_action(is_scanning: bool) -> (r: ScanWindowAction)
    ensures
        r == (if is_scanning {
            ScanWindowAction::CancelScan
        } else {
            ScanWindowAction::Close
        }),
{
    if is_scanning {
        ScanWindowAction::CancelScan
    } else {
        ScanWindowAction::Close
    }
}

} // verus!
