use vstd::prelude::*;

verus! {

/// ppm from which a reading is a warning.
pub const WARNING_PPM: u32 = 700;

/// ppm from which a reading is critical.
pub const CRITICAL_PPM: u32 = 1000;

/// How long the buzzer sounds for one beep, in ms.
pub const BEEP_MS: u16 = 300;

/// Silence between two beeps of one pattern, in ms.
pub const BEEP_GAP_MS: u16 = 100;

#[derive(Clone, Copy, Debug, PartialEq, Eq, Structural)]
pub enum AlertLevel {
    Normal,
    Warning,
    Critical,
}

/// Colour of the numeric readout.
#[derive(Clone, Copy, Debug, PartialEq, Eq, Structural)]
pub enum TextColor {
    Green,
    Yellow,
    Red,
}

/// Severity order of the levels.
pub open spec fn rank(l: AlertLevel) -> int {
    match l {
        AlertLevel::Normal => 0,
        AlertLevel::Warning => 1,
        AlertLevel::Critical => 2,
    }
}

pub open spec fn spec_level(ppm: u32) -> AlertLevel {
    if ppm < WARNING_PPM {
        AlertLevel::Normal
    } else if ppm < CRITICAL_PPM {
        AlertLevel::Warning
    } else {
        AlertLevel::Critical
    }
}

pub open spec fn spec_color(l: AlertLevel) -> TextColor {
    match l {
        AlertLevel::Normal => TextColor::Green,
        AlertLevel::Warning => TextColor::Yellow,
        AlertLevel::Critical => TextColor::Red,
    }
}

/// Beeps owed when the level goes from `previous` to `level`: two on entering
/// Warning, three on entering Critical, none otherwise or while the display is dark.
pub open spec fn spec_beeps(level: AlertLevel, previous: AlertLevel, display_active: bool) -> u32 {
    if !display_active || rank(level) <= rank(previous) {
        0
    } else if level == AlertLevel::Warning {
        2
    } else {
        3
    }
}

/// Step function of ppm: below 700 Normal, below 1000 Warning, else Critical.
pub fn classify(sample: u32) -> (l: AlertLevel)
    ensures
        l == spec_level(sample),
        sample < WARNING_PPM <==> l == AlertLevel::Normal,
        WARNING_PPM <= sample < CRITICAL_PPM <==> l == AlertLevel::Warning,
        CRITICAL_PPM <= sample <==> l == AlertLevel::Critical,
{
    if sample < WARNING_PPM {
        AlertLevel::Normal
    } else if sample < CRITICAL_PPM {
        AlertLevel::Warning
    } else {
        AlertLevel::Critical
    }
}

/// A higher reading is never classified lower.
pub proof fn lemma_classify_monotone(a: u32, b: u32)
    requires
        a <= b,
    ensures
        rank(spec_level(a)) <= rank(spec_level(b)),
{
}

/// Readout colour of each level.
pub fn level_color(level: AlertLevel) -> (c: TextColor)
    ensures
        c == spec_color(level),
{
    match level {
        AlertLevel::Normal => TextColor::Green,
        AlertLevel::Warning => TextColor::Yellow,
        AlertLevel::Critical => TextColor::Red,
    }
}

/// Number of beeps to sound for a move from `previous_level` to `level`:
/// only on a move up, only while the display is lit.
pub fn maybe_sound(level: AlertLevel, previous_level: AlertLevel, display_active: bool) -> (n: u32)
    ensures
        n == spec_beeps(level, previous_level, display_active),
        n != 0 <==> display_active && rank(level) > rank(previous_level),
        n == 2 <==> display_active && level == AlertLevel::Warning && previous_level
            == AlertLevel::Normal,
        n == 3 <==> display_active && level == AlertLevel::Critical && previous_level
            != AlertLevel::Critical,
{
    if !display_active {
        0
    } else {
        match (level, previous_level) {
            (AlertLevel::Warning, AlertLevel::Normal) => 2,
            (AlertLevel::Critical, AlertLevel::Normal) => 3,
            (AlertLevel::Critical, AlertLevel::Warning) => 3,
            _ => 0,
        }
    }
}

/// What one new newest sample calls for.
#[derive(Clone, Copy, Debug, PartialEq, Eq, Structural)]
pub struct Alert {
    pub level: AlertLevel,
    pub color: TextColor,
    pub beeps: u32,
}

/// Classifies `sample` and the sample before it, and derives the readout
/// colour and the beeps owed by the move between the two.
pub fn assess(sample: u32, previous_sample: u32, display_active: bool) -> (a: Alert)
    ensures
        a.level == spec_level(sample),
        a.color == spec_color(spec_level(sample)),
        a.beeps == spec_beeps(spec_level(sample), spec_level(previous_sample), display_active),
{
    let level = classify(sample);
    let previous = classify(previous_sample);
    Alert { level, color: level_color(level), beeps: maybe_sound(level, previous, display_active) }
}

/// One step of a buzzer pattern: whether the tone sounds, then a wait.
#[derive(Clone, Copy, Debug, PartialEq, Eq, Structural)]
pub struct BuzzerStep {
    pub on: bool,
    pub hold_ms: u16,
}

/// Step `k` of a pattern of `n` beeps: beeps of `BEEP_MS` with gaps of
/// `BEEP_GAP_MS`, and the tone off at the end with no wait after it.
pub open spec fn spec_step(n: int, k: int) -> BuzzerStep {
    if k % 2 == 0 {
        BuzzerStep { on: true, hold_ms: BEEP_MS }
    } else if k == 2 * n - 1 {
        BuzzerStep { on: false, hold_ms: 0 }
    } else {
        BuzzerStep { on: false, hold_ms: BEEP_GAP_MS }
    }
}

/// The buzzer steps that sound `beeps` beeps.
pub fn buzzer_pattern(beeps: u32) -> (p: Vec<BuzzerStep>)
    requires
        beeps <= 3,
    ensures
        p@.len() == 2 * beeps,
        forall|k: int| 0 <= k < p@.len() ==> #[trigger] p@[k] == spec_step(beeps as int, k),
{
    let mut p: Vec<BuzzerStep> = Vec::new();
    let mut i: u32 = 0;
    while i < beeps
        invariant
            i <= beeps <= 3,
            p@.len() == 2 * i,
            forall|k: int| 0 <= k < p@.len() ==> #[trigger] p@[k] == spec_step(beeps as int, k),
        decreases beeps - i,
    {
        p.push(BuzzerStep { on: true, hold_ms: BEEP_MS });
        let hold: u16 = if i + 1 == beeps {
            0
        } else {
            BEEP_GAP_MS
        };
        p.push(BuzzerStep { on: false, hold_ms: hold });
        i += 1;
    }
    p
}

} // verus!
