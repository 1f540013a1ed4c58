//! Lighting effects. An effect yields one frame per tick and owns whatever
//! animation state it needs to do so.

use crate::rgb::{
    frame_of, lemma_frame_of_view, uniform_frame, KeyColour, KeyboardData, KEYS_PER_ROW, KEY_COUNT,
};
use vstd::prelude::*;

verus! {

/// Last column of a row; a gradient runs from column 0 to this one.
pub const LAST_COLUMN: u8 = 14;

/// Ticks after which a wave gradient repeats: once across the row and back.
pub const WAVE_PERIOD: u8 = 28;

/// A producer of frames, one per tick.
pub trait Effect: Sized {
    /// The frame that the next tick returns.
    spec fn frame(&self) -> Seq<KeyColour>;

    /// The effect as the next tick leaves it.
    spec fn advanced(&self) -> Self;

    /// One tick: returns the effect's full frame and advances its animation.
    fn update(&mut self) -> (k: KeyboardData)
        ensures
            k@ == old(self).frame(),
            *final(self) == old(self).advanced(),
    ;
}

/// The column of the keyboard matrix in which key `k` lies.
pub open spec fn column_of(k: int) -> int {
    k % (KEYS_PER_ROW as int)
}

/// The channel value `t` steps out of `n` on the way from `from` to `to`.
pub open spec fn blend_channel(from: u8, to: u8, t: int, n: int) -> u8 {
    ((from * (n - t) + to * t) / n) as u8
}

/// The colour `t` steps out of `n` on the way from `from` to `to`.
pub open spec fn blend_colour(from: KeyColour, to: KeyColour, t: int, n: int) -> KeyColour {
    KeyColour {
        red: blend_channel(from.red, to.red, t, n),
        green: blend_channel(from.green, to.green, t, n),
        blue: blend_channel(from.blue, to.blue, t, n),
    }
}

/// A position on a cycle of `2 * half` steps folded onto `0..=half`: it
/// rises to `half` and falls back.
pub open spec fn fold_back(position: int, half: int) -> int {
    if position <= half {
        position
    } else {
        2 * half - position
    }
}

proof fn lemma_blend_in_range(from: u8, to: u8, t: int, n: int)
    requires
        0 <= t <= n,
        0 < n,
    ensures
        0 <= from * (n - t) + to * t <= 255 * n,
        0 <= (from * (n - t) + to * t) / n <= 255,
{
    assert(0 <= from * (n - t) <= 255 * (n - t)) by (nonlinear_arith)
        requires
            0 <= from <= 255,
            0 <= n - t,
    ;
    assert(0 <= to * t <= 255 * t) by (nonlinear_arith)
        requires
            0 <= to <= 255,
            0 <= t,
    ;
    assert(255 * (n - t) + 255 * t == 255 * n) by (nonlinear_arith);
    let x = from * (n - t) + to * t;
    assert(0 <= x / n <= 255) by (nonlinear_arith)
        requires
            0 <= x <= 255 * n,
            0 < n,
    ;
}

fn blend_channel_of(from: u8, to: u8, t: u8, n: u8) -> (c: u8)
    requires
        t <= n,
        0 < n,
    ensures
        c == blend_channel(from, to, t as int, n as int),
{
    proof {
        lemma_blend_in_range(from, to, t as int, n as int);
    }
    let near: u32 = from as u32 * (n - t) as u32;
    let far: u32 = to as u32 * t as u32;
    ((near + far) / n as u32) as u8
}

fn blend_colour_of(from: KeyColour, to: KeyColour, t: u8, n: u8) -> (c: KeyColour)
    requires
        t <= n,
        0 < n,
    ensures
        c == blend_colour(from, to, t as int, n as int),
{
    KeyColour {
        red: blend_channel_of(from.red, to.red, t, n),
        green: blend_channel_of(from.green, to.green, t, n),
        blue: blend_channel_of(from.blue, to.blue, t, n),
    }
}

/// A fixed frame: every tick returns it and changes nothing.
#[derive(Clone, Copy, Debug, PartialEq, Eq)]
pub struct StaticEffect {
    pub kbd: KeyboardData,
}

impl StaticEffect {
    /// The effect that lights every key in one colour.
    /// The effect that shows `colour` at every key.
    pub open spec fn solid(colour: KeyColour) -> StaticEffect {
        StaticEffect { kbd: frame_of(uniform_frame(colour)) }
    }

    /// The effect that lights every key in one colour.
    pub fn new(red: u8, green: u8, blue: u8) -> (e: StaticEffect)
        ensures
            e == StaticEffect::solid(KeyColour { red, green, blue }),
            e.kbd@ == uniform_frame(KeyColour { red, green, blue }),
    {
        let mut k = KeyboardData::new();
        k.set_kbd_colour(red, green, blue);
        proof {
            lemma_frame_of_view(k);
        }
        StaticEffect { kbd: k }
    }
}

impl Effect for StaticEffect {
    open spec fn frame(&self) -> Seq<KeyColour> {
        self.kbd@
    }

    open spec fn advanced(&self) -> StaticEffect {
        *self
    }

    fn update(&mut self) -> (k: KeyboardData)
        ensures
            k == old(self).kbd,
            *final(self) == *old(self),
    {
        self.kbd
    }
}

/// A gradient across each row, from `start` in the first column to `end` in
/// the last. It does not move.
#[derive(Clone, Copy, Debug, PartialEq, Eq)]
pub struct StaticGradient {
    pub start: KeyColour,
    pub end: KeyColour,
}

impl StaticGradient {
    pub fn new(start: KeyColour, end: KeyColour) -> (e: StaticGradient)
        ensures
            e == (StaticGradient { start, end }),
    {
        StaticGradient { start, end }
    }
}

impl Effect for StaticGradient {
    open spec fn frame(&self) -> Seq<KeyColour> {
        Seq::new(
            KEY_COUNT as nat,
            |k: int| blend_colour(self.start, self.end, column_of(k), LAST_COLUMN as int),
        )
    }

    open spec fn advanced(&self) -> StaticGradient {
        *self
    }

    fn update(&mut self) -> (k: KeyboardData) {
        let mut out = KeyboardData::new();
        let mut key: usize = 0;
        while key < KEY_COUNT
            invariant
                key <= KEY_COUNT,
                forall|i: int| 0 <= i < key ==> out@[i] == #[trigger] self.frame()[i],
            decreases KEY_COUNT - key,
        {
            let column: u8 = (key % KEYS_PER_ROW) as u8;
            out.set_key_at(key, blend_colour_of(self.start, self.end, column, LAST_COLUMN));
            key += 1;
        }
        assert(out@ =~= self.frame());
        out
    }
}

/// A gradient that travels along the rows: each tick shifts it by one column,
/// and after `WAVE_PERIOD` ticks it is back where it began.
#[derive(Clone, Copy, Debug, PartialEq, Eq)]
pub struct WaveGradient {
    pub start: KeyColour,
    pub end: KeyColour,
    pub phase: u8,
}

impl WaveGradient {
    /// How far along the gradient the key in `column` stands at `phase`.
    pub open spec fn blend_step(column: int, phase: u8) -> int {
        fold_back((column + phase % WAVE_PERIOD) % (WAVE_PERIOD as int), LAST_COLUMN as int)
    }

    /// A wave at the start of its cycle.
    pub fn new(start: KeyColour, end: KeyColour) -> (e: WaveGradient)
        ensures
            e == (WaveGradient { start, end, phase: 0 }),
    {
        WaveGradient { start, end, phase: 0 }
    }
}

impl Effect for WaveGradient {
    open spec fn frame(&self) -> Seq<KeyColour> {
        Seq::new(
            KEY_COUNT as nat,
            |k: int|
                blend_colour(
                    self.start,
                    self.end,
                    WaveGradient::blend_step(column_of(k), self.phase),
                    LAST_COLUMN as int,
                ),
        )
    }

    open spec fn advanced(&self) -> WaveGradient {
        WaveGradient {
            start: self.start,
            end: self.end,
            phase: ((self.phase % WAVE_PERIOD + 1) % (WAVE_PERIOD as int)) as u8,
        }
    }

    fn update(&mut self) -> (k: KeyboardData) {
        let shift: u8 = self.phase % WAVE_PERIOD;
        let mut out = KeyboardData::new();
        let mut key: usize = 0;
        while key < KEY_COUNT
            invariant
                key <= KEY_COUNT,
                shift == self.phase % WAVE_PERIOD,
                forall|i: int| 0 <= i < key ==> out@[i] == #[trigger] self.frame()[i],
            decreases KEY_COUNT - key,
        {
            let column: u8 = (key % KEYS_PER_ROW) as u8;
            let position: u8 = (column + shift) % WAVE_PERIOD;
            let step: u8 = if position <= LAST_COLUMN {
                position
            } else {
                WAVE_PERIOD - position
            };
            out.set_key_at(key, blend_colour_of(self.start, self.end, step, LAST_COLUMN));
            key += 1;
        }
        assert(out@ =~= self.frame());
        self.phase = (shift + 1) % WAVE_PERIOD;
        out
    }
}

/// One colour on every key that fades in from black over `duration` ticks
/// and out again over as many. A duration of zero counts as one.
#[derive(Clone, Copy, Debug, PartialEq, Eq)]
pub struct BreathSingle {
    pub colour: KeyColour,
    pub duration: u8,
    pub step: u16,
}

impl BreathSingle {
    /// Ticks of one fade, never zero.
    pub open spec fn fade_ticks(&self) -> int {
        if self.duration == 0 {
            1
        } else {
            self.duration as int
        }
    }

    /// Brightness of the next frame, between zero and `fade_ticks`.
    pub open spec fn level(&self) -> int {
        fold_back(self.step as int % (2 * self.fade_ticks()), self.fade_ticks())
    }

    /// A breath that starts dark.
    pub fn new(colour: KeyColour, duration: u8) -> (e: BreathSingle)
        ensures
            e == (BreathSingle { colour, duration, step: 0 }),
    {
        BreathSingle { colour, duration, step: 0 }
    }
}

impl Effect for BreathSingle {
    open spec fn frame(&self) -> Seq<KeyColour> {
        uniform_frame(
            blend_colour(KeyColour::black(), self.colour, self.level(), self.fade_ticks()),
        )
    }

    open spec fn advanced(&self) -> BreathSingle {
        BreathSingle {
            colour: self.colour,
            duration: self.duration,
            step: ((self.step as int % (2 * self.fade_ticks()) + 1) % (2 * self.fade_ticks()))
                as u16,
        }
    }

    fn update(&mut self) -> (k: KeyboardData) {
        let fade: u8 = if self.duration == 0 {
            1
        } else {
            self.duration
        };
        let cycle: u16 = 2 * fade as u16;
        let at: u16 = self.step % cycle;
        let level: u8 = if at <= fade as u16 {
            at as u8
        } else {
            (cycle - at) as u8
        };
        let black = KeyColour { red: 0, green: 0, blue: 0 };
        let shade = blend_colour_of(black, self.colour, level, fade);
        let mut out = KeyboardData::new();
        out.set_kbd_colour(shade.red, shade.green, shade.blue);
        self.step = (at + 1) % cycle;
        out
    }
}

/// Any of the effects that this library ships.
#[derive(Clone, Copy, Debug, PartialEq, Eq)]
pub enum LayerEffect {
    Static(StaticEffect),
    StaticGradient(StaticGradient),
    WaveGradient(WaveGradient),
    BreathSingle(BreathSingle),
}

impl Effect for LayerEffect {
    open spec fn frame(&self) -> Seq<KeyColour> {
        match *self {
            LayerEffect::Static(e) => e.frame(),
            LayerEffect::StaticGradient(e) => e.frame(),
            LayerEffect::WaveGradient(e) => e.frame(),
            LayerEffect::BreathSingle(e) => e.frame(),
        }
    }

    open spec fn advanced(&self) -> LayerEffect {
        match *self {
            LayerEffect::Static(e) => LayerEffect::Static(e.advanced()),
            LayerEffect::StaticGradient(e) => LayerEffect::StaticGradient(e.advanced()),
            LayerEffect::WaveGradient(e) => LayerEffect::WaveGradient(e.advanced()),
            LayerEffect::BreathSingle(e) => LayerEffect::BreathSingle(e.advanced()),
        }
    }

    fn update(&mut self) -> (k: KeyboardData) {
        match self {
            LayerEffect::Static(e) => e.update(),
            LayerEffect::StaticGradient(e) => e.update(),
            LayerEffect::WaveGradient(e) => e.update(),
            LayerEffect::BreathSingle(e) => e.update(),
        }
    }
}

/// The colour that three parameter bytes from `at` on spell out.
pub open spec fn colour_at(params: Seq<u8>, at: int) -> KeyColour
    recommends
        0 <= at,
        at + 3 <= params.len(),
{
    KeyColour { red: params[at], green: params[at + 1], blue: params[at + 2] }
}

/// The effect that a client names with `name` and `params`, if there is one.
///
/// `static` takes a colour; `static_gradient` and `wave_gradient` take the
/// colours of both ends; `breathing_single` takes a colour and the ticks of
/// one fade. Bytes beyond those are ignored. An unknown name, or fewer bytes
/// than the effect takes, names nothing.
pub open spec fn named_effect(name: Seq<char>, params: Seq<u8>) -> Option<LayerEffect> {
    if name == "static"@ && params.len() >= 3 {
        Some(LayerEffect::Static(StaticEffect::solid(colour_at(params, 0))))
    } else if name == "static_gradient"@ && params.len() >= 6 {
        Some(
            LayerEffect::StaticGradient(
                StaticGradient { start: colour_at(params, 0), end: colour_at(params, 3) },
            ),
        )
    } else if name == "wave_gradient"@ && params.len() >= 6 {
        Some(
            LayerEffect::WaveGradient(
                WaveGradient { start: colour_at(params, 0), end: colour_at(params, 3), phase: 0 },
            ),
        )
    } else if name == "breathing_single"@ && params.len() >= 4 {
        Some(
            LayerEffect::BreathSingle(
                BreathSingle { colour: colour_at(params, 0), duration: params[3], step: 0 },
            ),
        )
    } else {
        None
    }
}

fn colour_from(params: &Vec<u8>, at: usize) -> (c: KeyColour)
    requires
        at + 3 <= params.len(),
    ensures
        c == colour_at(params@, at as int),
{
    KeyColour { red: params[at], green: params[at + 1], blue: params[at + 2] }
}

/// Whether `name` reads as `literal`.
pub(crate) fn name_is(name: &String, literal: &str) -> (same: bool)
    ensures
        same == (name@ == literal@),
{
    let other = String::from_str(literal);
    *name == other
}

impl LayerEffect {
    /// Builds the effect that `name` and `params` name.
    pub fn from_name(name: &String, params: &Vec<u8>) -> (e: Option<LayerEffect>)
        ensures
            e == named_effect(name@, params@),
    {
        if name_is(name, "static") && params.len() >= 3 {
            Some(LayerEffect::Static(StaticEffect::new(params[0], params[1], params[2])))
        } else if name_is(name, "static_gradient") && params.len() >= 6 {
            Some(
                LayerEffect::StaticGradient(
                    StaticGradient::new(colour_from(params, 0), colour_from(params, 3)),
                ),
            )
        } else if name_is(name, "wave_gradient") && params.len() >= 6 {
            Some(
                LayerEffect::WaveGradient(
                    WaveGradient::new(colour_from(params, 0), colour_from(params, 3)),
                ),
            )
        } else if name_is(name, "breathing_single") && params.len() >= 4 {
            Some(LayerEffect::BreathSingle(BreathSingle::new(colour_from(params, 0), params[3])))
        } else {
            None
        }
    }
}

} // verus!
