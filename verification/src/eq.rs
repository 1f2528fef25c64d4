//! Shared parameters of the ten-band equalizer.
//!
//! Gains are held as the bit patterns of 32-bit floating-point decibel values, in
//! atomics that the interface thread writes and the audio thread reads; the filter
//! arithmetic itself happens on the audio side.
use vstd::prelude::*;

use crate::text::str_eq;
use std::sync::atomic::{AtomicU32, Ordering};
use std::sync::Arc;

verus! {

/// Number of equalizer bands.
pub const EQ_BANDS: usize = 10;

/// `2^e`.
pub open spec fn two_to(e: nat) -> nat
    decreases e,
{
    if e == 0 {
        1
    } else {
        2 * two_to((e - 1) as nat)
    }
}

/// `floor(log2(m))` for `m >= 1` (0 for `m <= 1`).
pub open spec fn exponent_of(m: nat) -> nat
    decreases m,
{
    if m <= 1 {
        0
    } else {
        1 + exponent_of(m / 2)
    }
}

/// The bit pattern of the 32-bit floating-point number equal to the integer `n`,
/// for `|n| < 2^24`: sign bit, biased exponent, and the bits of `|n|` below its
/// leading one as mantissa.
pub open spec fn f32_bits_of_int(n: int) -> nat {
    if n == 0 {
        0
    } else {
        let m: nat = if n < 0 {
            (-n) as nat
        } else {
            n as nat
        };
        let e = exponent_of(m);
        (if n < 0 {
            0x8000_0000nat
        } else {
            0nat
        }) + (127 + e) * 0x80_0000 + ((m - two_to(e)) as nat) * two_to((23 - e) as nat)
    }
}

/// `2^exponent_of(m) <= m < 2^(exponent_of(m) + 1)`.
pub proof fn lemma_exponent_bounds(m: nat)
    requires
        m >= 1,
    ensures
        two_to(exponent_of(m)) <= m < 2 * two_to(exponent_of(m)),
    decreases m,
{
    if m > 1 {
        lemma_exponent_bounds(m / 2);
    }
}

/// `2^e` for a small exponent.
fn power_of_two(e: u32) -> (p: u32)
    requires
        e <= 23,
    ensures
        p == two_to(e as nat),
{
    let mut p: u32 = 1;
    let mut i: u32 = 0;
    while i < e
        invariant
            i <= e <= 23,
            p == two_to(i as nat),
        decreases e - i,
    {
        proof {
            lemma_two_to_monotone(i as nat + 1, 23);
            reveal_with_fuel(two_to, 24);
            assert(two_to(i as nat + 1) == 2 * two_to(i as nat));
        }
        p = p * 2;
        i += 1;
    }
    p
}

/// `2^a <= 2^b` for `a <= b`, and `2^23 == 0x80_0000`.
pub proof fn lemma_two_to_monotone(a: nat, b: nat)
    requires
        a <= b,
    ensures
        two_to(a) <= two_to(b),
        two_to(23) == 0x80_0000,
    decreases b,
{
    reveal_with_fuel(two_to, 24);
    if a < b {
        lemma_two_to_monotone(a, (b - 1) as nat);
    }
}

/// `2^a * 2^b == 2^(a + b)`.
pub proof fn lemma_two_to_adds(a: nat, b: nat)
    ensures
        two_to(a) * two_to(b) == two_to(a + b),
    decreases a,
{
    if a > 0 {
        lemma_two_to_adds((a - 1) as nat, b);
        assert(two_to(a) * two_to(b) == 2 * (two_to((a - 1) as nat) * two_to(b))) by (
        nonlinear_arith)
            requires
                two_to(a) == 2 * two_to((a - 1) as nat),
        ;
        assert(two_to(a + b) == 2 * two_to((a + b - 1) as nat));
        assert(((a - 1) as nat) + b == (a + b - 1) as nat);
    } else {
        assert(two_to(a) == 1);
        assert(two_to(a) * two_to(b) == two_to(b)) by (nonlinear_arith)
            requires
                two_to(a) == 1,
        ;
    }
}

/// The bit pattern of the 32-bit floating-point number equal to `n` decibels
/// (see `f32_bits_of_int`).
pub fn f32_bits_of_i8(n: i8) -> (r: u32)
    ensures
        r == f32_bits_of_int(n as int),
{
    if n == 0 {
        return 0;
    }
    let m: u32 = if n < 0 {
        (0i32 - (n as i32)) as u32
    } else {
        n as u32
    };
    let mut q: u32 = m;
    let mut e: u32 = 0;
    let mut p: u32 = 1;
    while q > 1
        invariant
            1 <= q <= m <= 128,
            e <= 7,
            p == two_to(e as nat),
            exponent_of(m as nat) == e + exponent_of(q as nat),
            q * p <= m,
            m < (q + 1) * p,
        decreases q,
    {
        proof {
            assert(exponent_of(q as nat) == 1 + exponent_of((q / 2) as nat));
            reveal_with_fuel(two_to, 8);
            if e == 7 {
                assert(p == 128);
                assert(q * p >= 256) by (nonlinear_arith)
                    requires
                        q >= 2,
                        p == 128,
                ;
            }
            assert((q / 2) * (2 * p) <= q * p) by (nonlinear_arith)
                requires
                    p >= 1,
            ;
            assert(m < (q / 2 + 1) * (2 * p)) by (nonlinear_arith)
                requires
                    m < (q + 1) * p,
                    p >= 1,
            ;
        }
        q = q / 2;
        e = e + 1;
        p = p * 2;
    }
    proof {
        lemma_exponent_bounds(m as nat);
        lemma_two_to_monotone(e as nat, 7);
        reveal_with_fuel(two_to, 8);
    }
    let scale = power_of_two(23 - e);
    proof {
        lemma_two_to_adds(e as nat, (23 - e) as nat);
        lemma_two_to_monotone(0, 23);
        assert(p * scale == 0x80_0000);
        assert((m - p) * scale < 0x80_0000) by (nonlinear_arith)
            requires
                m < 2 * p,
                p * scale == 0x80_0000,
                p <= m,
        ;
    }
    let sign: u32 = if n < 0 {
        0x8000_0000
    } else {
        0
    };
    sign + (127 + e) * 0x80_0000 + (m - p) * scale
}

/// Name and gains of each preset.
pub open spec fn preset_views(p: Seq<(&'static str, [i8; 10])>) -> Seq<(Seq<char>, Seq<i8>)> {
    p.map_values(|e: (&'static str, [i8; 10])| (e.0@, e.1@))
}

/// The gains of the preset named `name`, when there is one.
pub open spec fn preset_gains(table: Seq<(Seq<char>, Seq<i8>)>, name: Seq<char>) -> Option<Seq<i8>>
    decreases table.len(),
{
    if table.len() == 0 {
        None
    } else if table[0].0 == name {
        Some(table[0].1)
    } else {
        preset_gains(table.drop_first(), name)
    }
}

/// The built-in presets: name and the gain of each band in whole decibels. Bass boost
/// and treble lift the low and the high bands; rock, pop and classical shape the middle
/// as their names say; flat leaves every band at 0 dB.
pub open spec fn preset_table() -> Seq<(Seq<char>, Seq<i8>)> {
    seq![
        ("Flat"@, seq![0i8, 0, 0, 0, 0, 0, 0, 0, 0, 0]),
        ("Bass Boost"@, seq![5i8, 5, 5, 3, 1, -4i8, -6i8, -7i8, -7i8, -7i8]),
        ("Treble"@, seq![-7i8, -7i8, -7i8, -3i8, 1, 6, 9, 9, 9, 10]),
        ("Rock"@, seq![5i8, 3, -3i8, -4i8, -2i8, 2, 5, 6, 6, 6]),
        ("Pop"@, seq![-1i8, 3, 4, 5, 3, 0, -1i8, -1i8, -1i8, -1i8]),
        ("Jazz"@, seq![4i8, 3, 1, 2, -2i8, -2i8, 0, 1, 3, 4]),
        ("Classical"@, seq![0i8, 0, 0, 0, 0, 0, -4i8, -4i8, -4i8, -6i8]),
    ]
}

/// The built-in presets (see `preset_table`).
pub fn eq_presets() -> (r: Vec<(&'static str, [i8; 10])>)
    ensures
        preset_views(r@) == preset_table(),
{
    let r = vec![
        ("Flat", [0, 0, 0, 0, 0, 0, 0, 0, 0, 0]),
        ("Bass Boost", [5, 5, 5, 3, 1, -4, -6, -7, -7, -7]),
        ("Treble", [-7, -7, -7, -3, 1, 6, 9, 9, 9, 10]),
        ("Rock", [5, 3, -3, -4, -2, 2, 5, 6, 6, 6]),
        ("Pop", [-1, 3, 4, 5, 3, 0, -1, -1, -1, -1]),
        ("Jazz", [4, 3, 1, 2, -2, -2, 0, 1, 3, 4]),
        ("Classical", [0, 0, 0, 0, 0, 0, -4, -4, -4, -6]),
    ];
    assert(preset_views(r@) =~= preset_table());
    r
}

/// Equalizer parameters shared between the interface and the audio thread: the gain of
/// each band and the preamplifier gain (bit patterns of 32-bit floating-point decibels),
/// and whether the equalizer is on.
///
/// Another thread may store a new value at any moment, so nothing is promised about
/// the value a read returns.
pub struct EqParams {
    band_gains: [AtomicU32; 10],
    preamp_db: AtomicU32,
    enabled: AtomicU32,
}

impl EqParams {
    /// All gains 0 dB (bit pattern 0), equalizer on.
    pub fn new() -> Self {
        EqParams {
            band_gains: [
                AtomicU32::new(0),
                AtomicU32::new(0),
                AtomicU32::new(0),
                AtomicU32::new(0),
                AtomicU32::new(0),
                AtomicU32::new(0),
                AtomicU32::new(0),
                AtomicU32::new(0),
                AtomicU32::new(0),
                AtomicU32::new(0),
            ],
            preamp_db: AtomicU32::new(0),
            enabled: AtomicU32::new(1),
        }
    }

    /// Stores the gain of band `index` (ignored for an index past the last band).
    pub fn set_band(&self, index: usize, gain_bits: u32) {
        if index < EQ_BANDS {
            self.band_gains[index].store(gain_bits, Ordering::Relaxed);
        }
    }

    /// Reads the gain of band `index`; 0 dB (bit pattern 0) for an index past the last band.
    pub fn get_band(&self, index: usize) -> (r: u32)
        ensures
            index >= EQ_BANDS ==> r == 0,
    {
        if index < EQ_BANDS {
            self.band_gains[index].load(Ordering::Relaxed)
        } else {
            0
        }
    }

    /// Stores the preamplifier gain.
    pub fn set_preamp(&self, gain_bits: u32) {
        self.preamp_db.store(gain_bits, Ordering::Relaxed);
    }

    /// Reads the preamplifier gain.
    pub fn get_preamp(&self) -> u32 {
        self.preamp_db.load(Ordering::Relaxed)
    }

    /// Switches the equalizer on or off.
    pub fn set_enabled(&self, enabled: bool) {
        self.enabled.store(
            if enabled {
                1
            } else {
                0
            },
            Ordering::Relaxed,
        );
    }

    /// Whether the equalizer is on.
    pub fn is_enabled(&self) -> bool {
        self.enabled.load(Ordering::Relaxed) != 0
    }

    /// Loads a preset by name: every band gets the preset's gain and the preamplifier
    /// goes back to 0 dB. The result tells whether a preset of that name exists; when
    /// none does, nothing is stored.
    pub fn load_preset(&self, name: &str) -> (found: bool)
        ensures
            found == (preset_gains(preset_table(), name@) is Some),
    {
        let presets = eq_presets();
        let n = presets.len();
        let mut i: usize = 0;
        assert(preset_views(presets@).skip(0) =~= preset_views(presets@));
        while i < n
            invariant
                n == presets@.len(),
                i <= n,
                preset_views(presets@) == preset_table(),
                preset_gains(preset_table(), name@) == preset_gains(
                    preset_views(presets@).skip(i as int),
                    name@,
                ),
            decreases n - i,
        {
            assert(preset_views(presets@).skip(i as int).drop_first() =~= preset_views(
                presets@,
            ).skip(i + 1));
            let (preset_name, gains) = presets[i];
            if str_eq(preset_name, name) {
                let mut band: usize = 0;
                while band < EQ_BANDS
                    invariant
                        band <= EQ_BANDS,
                    decreases EQ_BANDS - band,
                {
                    self.set_band(band, f32_bits_of_i8(gains[band]));
                    band += 1;
                }
                self.set_preamp(0);
                return true;
            }
            i += 1;
        }
        false
    }
}

/// Drag state of the equalizer curve: the band that follows the pointer, if any.
pub struct EqCanvasState {
    pub drag_band: Option<usize>,
}

impl Default for EqCanvasState {
    fn default() -> (r: Self)
        ensures
            r.drag_band is None,
    {
        EqCanvasState { drag_band: None }
    }
}

/// A pointer event on the equalizer curve.
#[derive(Debug, Clone, Copy, PartialEq, Eq, Structural)]
pub enum CurveEvent {
    LeftPressed,
    Moved,
    LeftReleased,
    Other,
}

/// The pointer shape over the equalizer curve.
#[derive(Debug, Clone, Copy, PartialEq, Eq, Structural)]
pub enum CurvePointer {
    /// A band is being dragged.
    ResizingVertically,
    /// Over the curve.
    Crosshair,
    Default,
}

/// The band whose gain a pointer event sets, and the drag after it: pressing over the
/// curve grabs the band nearest the pointer, moving over the curve while a band is
/// grabbed sets that band, releasing lets go. `band_under_pointer` is the band nearest the
/// pointer when the pointer is over the curve.
pub open spec fn curve_step(
    drag_band: Option<usize>,
    event: CurveEvent,
    band_under_pointer: Option<usize>,
) -> (Option<usize>, Option<usize>) {
    match event {
        CurveEvent::LeftPressed => match band_under_pointer {
            Some(b) => (Some(b), Some(b)),
            None => (drag_band, None),
        },
        CurveEvent::Moved => match (drag_band, band_under_pointer) {
            (Some(b), Some(_)) => (drag_band, Some(b)),
            _ => (drag_band, None),
        },
        CurveEvent::LeftReleased => (None, None),
        CurveEvent::Other => (drag_band, None),
    }
}

impl EqCanvasState {
    /// Handles a pointer event (see `curve_step`); the result is the band whose gain
    /// follows the pointer's height, if any.
    pub fn handle(&mut self, event: CurveEvent, band_under_pointer: Option<usize>) -> (r: Option<
        usize,
    >)
        ensures
            (final(self).drag_band, r) == curve_step(old(self).drag_band, event, band_under_pointer),
    {
        match event {
            CurveEvent::LeftPressed => match band_under_pointer {
                Some(b) => {
                    self.drag_band = Some(b);
                    Some(b)
                },
                None => None,
            },
            CurveEvent::Moved => match (self.drag_band, band_under_pointer) {
                (Some(b), Some(_)) => Some(b),
                _ => None,
            },
            CurveEvent::LeftReleased => {
                self.drag_band = None;
                None
            },
            CurveEvent::Other => None,
        }
    }

    /// The pointer shape: resizing while a band is grabbed, a crosshair over the curve.
    pub fn pointer(&self, over_curve: bool) -> (r: CurvePointer)
        ensures
            r == (if self.drag_band is Some {
                CurvePointer::ResizingVertically
            } else if over_curve {
                CurvePointer::Crosshair
            } else {
                CurvePointer::Default
            }),
    {
        if self.drag_band.is_some() {
            CurvePointer::ResizingVertically
        } else if over_curve {
            CurvePointer::Crosshair
        } else {
            CurvePointer::Default
        }
    }
}

/// The draggable equalizer curve: the shared parameters it edits and whether the
/// equalizer is on.
pub struct EqCurve {
    pub eq_params: Arc<EqParams>,
    pub enabled: bool,
}

impl EqCurve {
    pub fn new(eq_params: Arc<EqParams>, enabled: bool) -> (r: Self)
        ensures
            r.eq_params == eq_params,
            r.enabled == enabled,
    {
        EqCurve { eq_params, enabled }
    }
}

} // verus!
