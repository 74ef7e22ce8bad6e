//! The cooperative tick schedule: a fast scan tick feeding the debouncers, a
//! slower mapping tick running the keypad, and a display tick choosing what
//! to draw. One poll of the main loop runs whatever is due, scan first.

use crate::debounce::{DebounceModel, DebouncedInputArray, Pull};
use crate::keypad::{KeypadController, KeypadOutput, app_after_tick, key_states_of, keypad_after_tick};
use crate::models::{
    AppModelView, ApplicationModel, ApplicationView, KEY_COUNT, KeypadModel, KeypadModelView, Overlay,
};
use vstd::prelude::*;

verus! {

/// Period of the scan tick, in clock ticks (microseconds).
pub const SCAN_PERIOD: u64 = 1_000;

/// Period of the mapping tick, in clock ticks.
pub const KEYPAD_PERIOD: u64 = 20_000;

/// Period of the display tick, in clock ticks.
pub const DISPLAY_PERIOD: u64 = 16_667;

/// Idle time after which the display shows the screensaver, in clock ticks.
pub const SCREENSAVER_DELAY: u64 = 60_000_000;

/// Number of frames after which the frame counter wraps.
pub const FRAMES_PER_CYCLE: u8 = 60;

/// A periodic deadline. Each completed period moves the deadline on by one
/// period, so a late poll catches up one period at a time.
#[derive(Clone, Copy, Debug)]
pub struct PeriodicTimer {
    period: u64,
    expiration: u64,
}

impl PeriodicTimer {
    pub closed spec fn period(&self) -> u64 {
        self.period
    }

    pub closed spec fn expiration(&self) -> u64 {
        self.expiration
    }

    /// A timer whose first period ends `period` ticks after `now`.
    pub fn start(now: u64, period: u64) -> (r: PeriodicTimer)
        requires
            now + period <= u64::MAX,
        ensures
            r.period() == period,
            r.expiration() == now + period,
    {
        PeriodicTimer { period, expiration: now + period }
    }

    /// Whether a period has ended by `now`; if so the deadline moves on by
    /// one period (and stays at the end of the clock's range).
    pub fn period_complete(&mut self, now: u64) -> (r: bool)
        ensures
            r == (now >= old(self).expiration()),
            final(self).period() == old(self).period(),
            final(self).expiration() == if r {
                if old(self).expiration() + old(self).period() <= u64::MAX {
                    (old(self).expiration() + old(self).period()) as u64
                } else {
                    u64::MAX
                }
            } else {
                old(self).expiration()
            },
    {
        if now >= self.expiration {
            self.expiration = self.expiration.saturating_add(self.period);
            true
        } else {
            false
        }
    }
}

/// The logical state of the display: a frame counter that cycles through
/// `FRAMES_PER_CYCLE` values.
pub struct DisplayModel {
    frame_counter: u8,
}

impl DisplayModel {
    pub closed spec fn frame(&self) -> u8 {
        self.frame_counter
    }

    pub open spec fn wf(&self) -> bool {
        self.frame() < FRAMES_PER_CYCLE
    }

    pub fn new() -> (r: DisplayModel)
        ensures
            r.wf(),
            r.frame() == 0,
    {
        DisplayModel { frame_counter: 0 }
    }

    /// Advances the frame counter and returns the new frame.
    pub fn frame_clounter_get_and_increment(&mut self) -> (r: u8)
        requires
            old(self).wf(),
        ensures
            final(self).wf(),
            r == (old(self).frame() + 1) % (FRAMES_PER_CYCLE as int),
            final(self).frame() == r,
    {
        let mut frame = self.frame_counter + 1;
        if frame == FRAMES_PER_CYCLE {
            frame = 0;
        }
        self.frame_counter = frame;
        frame
    }
}

/// What one display pass draws.
#[derive(Clone, Copy, Debug, PartialEq, Eq, Structural)]
pub struct DisplayFrame {
    /// No key for a while: dim the display and draw the screensaver instead
    /// of the active view.
    pub screensaver: bool,
    pub contrast: u8,
    pub view: ApplicationView,
    /// Draw the controller timings over the content.
    pub timing_overlay: bool,
    pub frame: u8,
}

/// The display shows the screensaver once no key has been down for longer
/// than `SCREENSAVER_DELAY`.
pub open spec fn screensaver_due(last_keypress_time: u64, now: u64) -> bool {
    last_keypress_time + SCREENSAVER_DELAY < now
}

/// The frame drawn at `now`.
pub open spec fn frame_for(
    now: u64,
    last_keypress_time: u64,
    app: AppModelView,
    frame: u8,
) -> DisplayFrame {
    let idle = screensaver_due(last_keypress_time, now);
    DisplayFrame {
        screensaver: idle,
        contrast: if idle {
            0
        } else {
            0xFF
        },
        view: app.active_view,
        timing_overlay: app.active_overlay == Overlay::ControllerTiming,
        frame,
    }
}

/// Chooses what each display pass draws.
pub struct DisplayController {}

impl DisplayController {
    pub fn new() -> (r: DisplayController) {
        DisplayController {  }
    }

    /// One display pass at `now`: advances the frame counter and chooses the
    /// content from the application model.
    pub fn tick(
        &self,
        now: u64,
        display_model: &mut DisplayModel,
        key_model: &KeypadModel,
        app_model: &ApplicationModel,
    ) -> (r: DisplayFrame)
        requires
            old(display_model).wf(),
        ensures
            final(display_model).wf(),
            final(display_model).frame() == (old(display_model).frame() + 1) % (
            FRAMES_PER_CYCLE as int),
            r == frame_for(now, key_model@.last_keypress_time, app_model@, final(display_model).frame()),
    {
        let frame = display_model.frame_clounter_get_and_increment();
        let last = key_model.last_keypress_time();
        let idle = last < now && now - last > SCREENSAVER_DELAY;
        DisplayFrame {
            screensaver: idle,
            contrast: if idle {
                0
            } else {
                0xFF
            },
            view: app_model.active_view(),
            timing_overlay: match app_model.active_overlay() {
                Overlay::Off => false,
                Overlay::ControllerTiming => true,
            },
            frame,
        }
    }
}

/// What one poll of the main loop hands to the outside world.
pub struct PollOutput {
    /// The outcome of the mapping tick, if one was due.
    pub keypad: Option<KeypadOutput>,
    /// The frame to draw, if a display tick was due.
    pub display: Option<DisplayFrame>,
}

/// The main loop's state: the three tick timers, the debouncers, the two
/// controllers and the models they share.
pub struct ApplicationController {
    scan_timer: PeriodicTimer,
    keypad_timer: PeriodicTimer,
    display_timer: PeriodicTimer,
    inputs: DebouncedInputArray<KEY_COUNT>,
    keypad_controller: KeypadController,
    display_controller: DisplayController,
    key_model: KeypadModel,
    app_model: ApplicationModel,
    display_model: DisplayModel,
}

impl ApplicationController {
    pub closed spec fn wf(&self) -> bool {
        &&& self.inputs.wf()
        &&& self.key_model.wf()
        &&& self.display_model.wf()
    }

    /// The abstract state of each debouncer, in slot order.
    pub closed spec fn inputs(&self) -> Seq<DebounceModel> {
        self.inputs.inputs()
    }

    /// The deadlines of the scan, mapping and display ticks.
    pub closed spec fn deadlines(&self) -> (u64, u64, u64) {
        (self.scan_timer.expiration(), self.keypad_timer.expiration(), self.display_timer.expiration())
    }

    pub closed spec fn keypad_view(&self) -> KeypadModelView {
        self.key_model@
    }

    pub closed spec fn app_view(&self) -> AppModelView {
        self.app_model@
    }

    pub closed spec fn frame(&self) -> u8 {
        self.display_model.frame()
    }

    /// Everything at rest at `now`: keys up and seeded high (pull-ups), each
    /// tick due one period from now.
    pub fn new(now: u64) -> (r: ApplicationController)
        requires
            now + KEYPAD_PERIOD <= u64::MAX,
        ensures
            r.wf(),
            r.deadlines() == (
                (now + SCAN_PERIOD) as u64,
                (now + KEYPAD_PERIOD) as u64,
                (now + DISPLAY_PERIOD) as u64,
            ),
            r.inputs() == Seq::new(KEY_COUNT as nat, |i: int| DebounceModel::seeded(true)),
    {
        let pulls = [Pull::Up; KEY_COUNT];
        let inputs = DebouncedInputArray::new(&pulls);
        assert(inputs.inputs() =~= Seq::new(KEY_COUNT as nat, |i: int| DebounceModel::seeded(true)));
        ApplicationController {
            scan_timer: PeriodicTimer::start(now, SCAN_PERIOD),
            keypad_timer: PeriodicTimer::start(now, KEYPAD_PERIOD),
            display_timer: PeriodicTimer::start(now, DISPLAY_PERIOD),
            inputs,
            keypad_controller: KeypadController::new(),
            display_controller: DisplayController::new(),
            key_model: KeypadModel::new(now),
            app_model: ApplicationModel::default(),
            display_model: DisplayModel::new(),
        }
    }

    /// One poll of the main loop at `now`, with `raw` the pin levels read at
    /// that moment (`true` for high). Runs the scan tick, then the mapping
    /// tick, then the display tick, each only if due. A mapping tick reads
    /// the debounced levels as they stand after the scan of the same poll.
    pub fn poll(&mut self, now: u64, raw: &[bool; KEY_COUNT]) -> (r: PollOutput)
        requires
            old(self).wf(),
        ensures
            final(self).wf(),
            final(self).inputs() == if now >= old(self).deadlines().0 {
                Seq::new(KEY_COUNT as nat, |i: int| old(self).inputs()[i].step(raw@[i]))
            } else {
                old(self).inputs()
            },
            r.keypad is Some <==> now >= old(self).deadlines().1,
            r.keypad is Some ==> {
                let levels = Seq::new(KEY_COUNT as nat, |i: int| final(self).inputs()[i].stable);
                &&& final(self).keypad_view() == keypad_after_tick(
                    old(self).keypad_view(),
                    key_states_of(levels),
                    now,
                )
                &&& (final(self).app_view(), r.keypad->Some_0.enter_bootloader) == app_after_tick(
                    old(self).app_view(),
                    final(self).keypad_view().actions,
                )
            },
            r.keypad is None ==> final(self).keypad_view() == old(self).keypad_view()
                && final(self).app_view() == old(self).app_view(),
            r.display is Some <==> now >= old(self).deadlines().2,
            r.display is Some ==> r.display->Some_0 == frame_for(
                now,
                final(self).keypad_view().last_keypress_time,
                final(self).app_view(),
                final(self).frame(),
            ),
    {
        if self.scan_timer.period_complete(now) {
            self.inputs.tick(raw);
        }
        let keypad = if self.keypad_timer.period_complete(now) {
            let levels = self.inputs.values();
            Some(self.keypad_controller.tick(now, &levels, &mut self.key_model, &mut self.app_model))
        } else {
            None
        };
        let display = if self.display_timer.period_complete(now) {
            Some(
                self.display_controller.tick(
                    now,
                    &mut self.display_model,
                    &self.key_model,
                    &self.app_model,
                ),
            )
        } else {
            None
        };
        PollOutput { keypad, display }
    }

    pub fn key_model(&self) -> (r: &KeypadModel)
        ensures
            r@ == self.keypad_view(),
    {
        &self.key_model
    }

    pub fn app_model(&self) -> (r: &ApplicationModel)
        ensures
            r@ == self.app_view(),
    {
        &self.app_model
    }

    /// Records how long the last mapping pass took, in clock ticks.
    pub fn set_keypad_time(&mut self, time: u64)
        requires
            old(self).wf(),
        ensures
            final(self).wf(),
            final(self).keypad_view() == (KeypadModelView { keypad_time: time, ..old(self).keypad_view() }),
            final(self).app_view() == old(self).app_view(),
            final(self).inputs() == old(self).inputs(),
            final(self).deadlines() == old(self).deadlines(),
    {
        self.key_model.set_keypad_time(time);
    }

    /// Records how long the last display pass took, in clock ticks.
    pub fn set_display_time(&mut self, time: u64)
        requires
            old(self).wf(),
        ensures
            final(self).wf(),
            final(self).app_view() == (AppModelView { display_time: time, ..old(self).app_view() }),
            final(self).keypad_view() == old(self).keypad_view(),
            final(self).inputs() == old(self).inputs(),
            final(self).deadlines() == old(self).deadlines(),
    {
        self.app_model.set_display_time(time);
    }
}

} // verus!
