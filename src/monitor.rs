use vstd::prelude::*;
use crate::alert::{assess, spec_beeps, spec_color, spec_level, Alert};
use crate::clock::{crossed, TickClock};
use crate::config::{HISTORY_LEN, RANGE_COUNT};
use crate::history::{spec_advance, RangeHistory};
use crate::render::{readout_text, spec_op, spec_readout, GraphRenderer, PixelOp, RENDER_OPS};
use crate::selector::{selector_next, BacklightSwitch, RangeSelector};

verus! {

/// What the screen and the buzzer are to show after the selected range advanced.
pub struct Refresh {
    /// ASCII text of the numeric readout.
    pub readout: Vec<u8>,
    /// Level, readout colour and beeps owed.
    pub alert: Alert,
    /// Pixel operations of the chart, in order.
    pub pixels: [PixelOp; 546],
}

/// What one scan of the three buttons changed.
pub struct ButtonScan {
    /// The new backlight state, where it toggled.
    pub backlight: Option<bool>,
    /// The new selected range, where it moved.
    pub range: Option<usize>,
}

/// The counters after one read cycle: each range that had crossed its
/// threshold starts again from zero.
pub open spec fn cycle_clock(c: Seq<u32>) -> Seq<u32> {
    Seq::new(c.len(), |i: int| if crossed(c, i) { 0u32 } else { c[i] })
}

/// The buffers after one read cycle: each range that had crossed its
/// threshold takes the reading.
pub open spec fn cycle_history(h: Seq<Seq<u32>>, c: Seq<u32>, ppm: u32) -> Seq<Seq<u32>> {
    Seq::new(h.len(), |i: int| if crossed(c, i) { spec_advance(h[i], ppm) } else { h[i] })
}

/// Main-loop state apart from the tick counters, which the tick interrupt shares.
pub struct Monitor {
    pub history: RangeHistory,
    pub renderer: GraphRenderer,
    pub selector: RangeSelector,
    pub backlight: BacklightSwitch,
}

impl Monitor {
    pub open spec fn wf(&self) -> bool {
        &&& self.history.wf()
        &&& self.selector.wf()
        &&& self.renderer@.len() == HISTORY_LEN
    }

    pub fn new() -> (m: Monitor)
        ensures
            m.wf(),
            m.selector@.index == 0,
            m.backlight@.0,
    {
        Monitor {
            history: RangeHistory::new(),
            renderer: GraphRenderer::new(),
            selector: RangeSelector::new(),
            backlight: BacklightSwitch::new(),
        }
    }

    /// One read cycle with reading `ppm`: every range whose counter has passed
    /// its threshold is reset and takes the reading. Where the selected range
    /// was among them, returns what to redraw and sound for it.
    pub fn process_reading(&mut self, clock: &mut TickClock, ppm: u32) -> (r: Option<Refresh>)
        requires
            old(self).wf(),
            old(clock).wf(),
        ensures
            final(self).wf(),
            final(clock).wf(),
            final(clock)@ == cycle_clock(old(clock)@),
            final(self).history@ == cycle_history(old(self).history@, old(clock)@, ppm),
            final(self).selector@ == old(self).selector@,
            final(self).backlight@ == old(self).backlight@,
            ({
                let sel = old(self).selector@.index;
                let h = final(self).history@[sel];
                let newest = h[HISTORY_LEN - 1];
                let before = h[HISTORY_LEN - 2];
                if crossed(old(clock)@, sel) {
                    &&& r is Some
                    &&& r->0.readout@ == spec_readout(newest)
                    &&& r->0.alert.level == spec_level(newest)
                    &&& r->0.alert.color == spec_color(spec_level(newest))
                    &&& r->0.alert.beeps == spec_beeps(
                        spec_level(newest),
                        spec_level(before),
                        old(self).backlight@.0,
                    )
                    &&& r->0.pixels@.len() == RENDER_OPS
                    &&& forall|k: int|
                        0 <= k < r->0.pixels@.len() ==> #[trigger] r->0.pixels@[k] == spec_op(
                            old(self).renderer@,
                            h,
                            k,
                        )
                    &&& final(self).renderer@ == h
                } else {
                    &&& r is None
                    &&& final(self).renderer@ == old(self).renderer@
                }
            }),
    {
        let sel = self.selector.selected();
        let mut refresh: Option<Refresh> = None;
        let mut i: usize = 0;
        while i < RANGE_COUNT
            invariant
                i <= RANGE_COUNT,
                sel as int == self.selector@.index,
                self.wf(),
                clock.wf(),
                old(self).wf(),
                old(clock).wf(),
                self.selector@ == old(self).selector@,
                self.backlight@ == old(self).backlight@,
                forall|j: int|
                    0 <= j < i ==> #[trigger] clock@[j] == cycle_clock(old(clock)@)[j],
                forall|j: int| i <= j < RANGE_COUNT ==> #[trigger] clock@[j] == old(clock)@[j],
                forall|j: int|
                    0 <= j < i ==> #[trigger] self.history@[j] == cycle_history(
                        old(self).history@,
                        old(clock)@,
                        ppm,
                    )[j],
                forall|j: int|
                    i <= j < RANGE_COUNT ==> #[trigger] self.history@[j] == old(
                        self,
                    ).history@[j],
                sel >= i ==> refresh is None && self.renderer@ == old(self).renderer@,
                sel < i ==> if crossed(old(clock)@, sel as int) {
                    let h = self.history@[sel as int];
                    let newest = h[HISTORY_LEN - 1];
                    let before = h[HISTORY_LEN - 2];
                    &&& refresh is Some
                    &&& refresh->0.readout@ == spec_readout(newest)
                    &&& refresh->0.alert.level == spec_level(newest)
                    &&& refresh->0.alert.color == spec_color(spec_level(newest))
                    &&& refresh->0.alert.beeps == spec_beeps(
                        spec_level(newest),
                        spec_level(before),
                        old(self).backlight@.0,
                    )
                    &&& refresh->0.pixels@.len() == RENDER_OPS
                    &&& forall|k: int|
                        0 <= k < refresh->0.pixels@.len() ==> #[trigger] refresh->0.pixels@[k]
                            == spec_op(old(self).renderer@, h, k)
                    &&& self.renderer@ == h
                } else {
                    &&& refresh is None
                    &&& self.renderer@ == old(self).renderer@
                },
            decreases RANGE_COUNT - i,
        {
            if clock.take_and_maybe_reset(i) != 0 {
                self.history.advance(i, ppm);
                if i == sel {
                    let newest = self.history.latest(sel);
                    let before = self.history.previous(sel);
                    let alert = assess(newest, before, self.backlight.is_on());
                    let buffer = self.history.buffer(sel);
                    let pixels = self.renderer.render(&buffer);
                    refresh = Some(Refresh { readout: readout_text(newest), alert, pixels });
                }
            }
            i += 1;
        }
        assert(clock@ =~= cycle_clock(old(clock)@));
        assert(self.history@ =~= cycle_history(old(self).history@, old(clock)@, ppm));
        refresh
    }

    /// One scan of the buttons: the backlight button toggles the backlight on
    /// its press edge; the other two move the range selection.
    pub fn on_buttons(
        &mut self,
        clock: &mut TickClock,
        backlight_pressed: bool,
        inc_pressed: bool,
        dec_pressed: bool,
    ) -> (scan: ButtonScan)
        requires
            old(self).wf(),
            old(clock).wf(),
        ensures
            final(self).wf(),
            final(clock).wf(),
            final(self).history@ == old(self).history@,
            final(self).renderer@ == old(self).renderer@,
            final(self).selector@ == selector_next(old(self).selector@, inc_pressed, dec_pressed),
            final(self).backlight@.1 == backlight_pressed,
            backlight_pressed && !old(self).backlight@.1 ==> final(self).backlight@.0 == !old(
                self,
            ).backlight@.0 && scan.backlight == Some(final(self).backlight@.0),
            !(backlight_pressed && !old(self).backlight@.1) ==> final(self).backlight@.0 == old(
                self,
            ).backlight@.0 && scan.backlight is None,
            scan.range is Some ==> scan.range == Some(final(self).selector@.index as usize),
            scan.range is None ==> final(self).selector@.index == old(self).selector@.index,
            final(self).selector@.index != old(self).selector@.index ==> crossed(
                final(clock)@,
                final(self).selector@.index,
            ),
    {
        let backlight = self.backlight.on_button(backlight_pressed);
        let range = self.selector.on_buttons(clock, inc_pressed, dec_pressed);
        ButtonScan { backlight, range }
    }
}

} // verus!
