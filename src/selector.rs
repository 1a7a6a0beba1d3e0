use vstd::prelude::*;
use crate::clock::{crossed, TickClock};
use crate::config::{spec_tick_threshold, RANGE_COUNT};

verus! {

/// Selector state: selected range, and whether each button was down on the
/// previous scan.
pub struct SelectorState {
    pub index: int,
    pub inc_held: bool,
    pub dec_held: bool,
}

/// The state after one scan of the two range buttons: a button acts only
/// on its press edge, the coarser one first; the index stops at both ends.
pub open spec fn selector_next(s: SelectorState, inc: bool, dec: bool) -> SelectorState {
    let i1 = if inc && !s.inc_held && s.index < RANGE_COUNT - 1 {
        s.index + 1
    } else {
        s.index
    };
    let i2 = if dec && !s.dec_held && i1 > 0 {
        i1 - 1
    } else {
        i1
    };
    SelectorState { index: i2, inc_held: inc, dec_held: dec }
}

/// The state after the same button state was seen `n` scans in a row.
pub open spec fn selector_hold(s: SelectorState, inc: bool, dec: bool, n: nat) -> SelectorState
    decreases n,
{
    if n == 0 {
        s
    } else {
        selector_next(selector_hold(s, inc, dec, (n - 1) as nat), inc, dec)
    }
}

/// Holding buttons down acts once: however many scans see the same button
/// state, the result is that of the first.
pub proof fn lemma_hold_acts_once(s: SelectorState, inc: bool, dec: bool, n: nat)
    requires
        n >= 1,
    ensures
        selector_hold(s, inc, dec, n) == selector_next(s, inc, dec),
    decreases n,
{
    assert(selector_hold(s, inc, dec, 0) == s);
    if n > 1 {
        lemma_hold_acts_once(s, inc, dec, (n - 1) as nat);
        let t = selector_next(s, inc, dec);
        assert(selector_next(t, inc, dec) == t);
    }
}

/// The index never leaves the configured ranges.
pub proof fn lemma_index_in_range(s: SelectorState, inc: bool, dec: bool)
    requires
        0 <= s.index < RANGE_COUNT,
    ensures
        0 <= selector_next(s, inc, dec).index < RANGE_COUNT,
{
}

/// Edge-triggered cursor over the configured ranges, driven by two buttons.
pub struct RangeSelector {
    index: usize,
    inc_was_pressed: bool,
    dec_was_pressed: bool,
}

impl View for RangeSelector {
    type V = SelectorState;

    closed spec fn view(&self) -> SelectorState {
        SelectorState {
            index: self.index as int,
            inc_held: self.inc_was_pressed,
            dec_held: self.dec_was_pressed,
        }
    }
}

impl RangeSelector {
    pub open spec fn wf(&self) -> bool {
        0 <= self@.index < RANGE_COUNT
    }

    /// The finest range selected, no button held.
    pub fn new() -> (s: RangeSelector)
        ensures
            s.wf(),
            s@ == (SelectorState { index: 0, inc_held: false, dec_held: false }),
    {
        RangeSelector { index: 0, inc_was_pressed: false, dec_was_pressed: false }
    }

    /// The selected range.
    pub fn selected(&self) -> (i: usize)
        ensures
            i as int == self@.index,
    {
        self.index
    }

    /// One scan of the buttons. Each accepted move forces an immediate
    /// refresh of the range it lands on; returns the new selection where
    /// any move was accepted.
    pub fn on_buttons(&mut self, clock: &mut TickClock, inc_pressed: bool, dec_pressed: bool) -> (r:
        Option<usize>)
        requires
            old(self).wf(),
            old(clock).wf(),
        ensures
            final(self).wf(),
            final(clock).wf(),
            final(self)@ == selector_next(old(self)@, inc_pressed, dec_pressed),
            final(self)@.index != old(self)@.index ==> crossed(final(clock)@, final(self)@.index),
            ({
                let s = old(self)@;
                let inc_ok = inc_pressed && !s.inc_held && s.index < RANGE_COUNT - 1;
                let i1 = if inc_ok {
                    s.index + 1
                } else {
                    s.index
                };
                let dec_ok = dec_pressed && !s.dec_held && i1 > 0;
                let c1 = if inc_ok {
                    old(clock)@.update(i1, (spec_tick_threshold(i1) + 1) as u32)
                } else {
                    old(clock)@
                };
                let c2 = if dec_ok {
                    c1.update(i1 - 1, (spec_tick_threshold(i1 - 1) + 1) as u32)
                } else {
                    c1
                };
                &&& final(clock)@ == c2
                &&& r == if inc_ok || dec_ok {
                    Some(final(self)@.index as usize)
                } else {
                    None
                }
            }),
    {
        let mut changed = false;
        if inc_pressed {
            if !self.inc_was_pressed && self.index != RANGE_COUNT - 1 {
                self.index = self.index + 1;
                clock.force_advance(self.index);
                changed = true;
            }
            self.inc_was_pressed = true;
        } else {
            self.inc_was_pressed = false;
        }
        if dec_pressed {
            if !self.dec_was_pressed && self.index != 0 {
                self.index = self.index - 1;
                clock.force_advance(self.index);
                changed = true;
            }
            self.dec_was_pressed = true;
        } else {
            self.dec_was_pressed = false;
        }
        if changed {
            Some(self.index)
        } else {
            None
        }
    }
}

/// Backlight state, toggled on each press edge of its button.
pub struct BacklightSwitch {
    on: bool,
    was_pressed: bool,
}

impl View for BacklightSwitch {
    type V = (bool, bool);

    /// Whether the backlight is on, and whether its button was down on the previous scan.
    closed spec fn view(&self) -> (bool, bool) {
        (self.on, self.was_pressed)
    }
}

impl BacklightSwitch {
    /// Backlight on, button up.
    pub fn new() -> (b: BacklightSwitch)
        ensures
            b@ == (true, false),
    {
        BacklightSwitch { on: true, was_pressed: false }
    }

    pub fn is_on(&self) -> (on: bool)
        ensures
            on == self@.0,
    {
        self.on
    }

    /// One scan of the button; returns the new backlight state where it toggled.
    pub fn on_button(&mut self, pressed: bool) -> (r: Option<bool>)
        ensures
            final(self)@.1 == pressed,
            pressed && !old(self)@.1 ==> final(self)@.0 == !old(self)@.0 && r == Some(
                final(self)@.0,
            ),
            !(pressed && !old(self)@.1) ==> final(self)@.0 == old(self)@.0 && r is None,
    {
        let edge = pressed && !self.was_pressed;
        self.was_pressed = pressed;
        if edge {
            self.on = !self.on;
            Some(self.on)
        } else {
            None
        }
    }
}

} // verus!
