//! The mapping tick: from debounced pin levels to key states, actions, the
//! application's own side effects and the keys of the next keyboard report.

use crate::keymap::{Action, AppAction, KeyState, emitted, stepped};
use crate::models::{
    AppModelView, ApplicationModel, KEY_COUNT, KeypadModel, KeypadModelView, MenuState, Overlay,
};
use usbd_human_interface_device::page::Keyboard;
use vstd::prelude::*;

verus! {

/// Keys are wired with pull-ups: a high pin is a released key.
pub open spec fn key_state_of(high: bool) -> KeyState {
    if high {
        KeyState::Up
    } else {
        KeyState::Down
    }
}

/// The key states read from pin levels, in slot order.
pub open spec fn key_states_of(levels: Seq<bool>) -> Seq<KeyState> {
    Seq::new(levels.len(), |i: int| key_state_of(levels[i]))
}

/// The app actions among `actions`, in order.
pub open spec fn app_actions_of(actions: Seq<Action>) -> Seq<AppAction>
    decreases actions.len(),
{
    if actions.len() == 0 {
        Seq::empty()
    } else {
        let earlier = app_actions_of(actions.drop_last());
        match actions.last() {
            Action::App(a) => earlier.push(a),
            Action::Keyboard(_) => earlier,
        }
    }
}

/// The keyboard keys among `actions`, in order.
pub open spec fn keyboard_keys_of(actions: Seq<Action>) -> Seq<Keyboard>
    decreases actions.len(),
{
    if actions.len() == 0 {
        Seq::empty()
    } else {
        let earlier = keyboard_keys_of(actions.drop_last());
        match actions.last() {
            Action::App(_) => earlier,
            Action::Keyboard(k) => earlier.push(k),
        }
    }
}

/// The timing overlay switched on or off.
pub open spec fn toggled(o: Overlay) -> Overlay {
    match o {
        Overlay::Off => Overlay::ControllerTiming,
        Overlay::ControllerTiming => Overlay::Off,
    }
}

/// The effect of one app action on the model, and whether the bootloader
/// has been asked for.
pub open spec fn apply_app_action(m: AppModelView, boot: bool, a: AppAction) -> (AppModelView, bool) {
    match a {
        AppAction::Bootloader => (m, true),
        AppAction::ShowMenu => (AppModelView { menu: MenuState::Open(m.active_view), ..m }, boot),
        AppAction::ShowTimings => (AppModelView { active_overlay: toggled(m.active_overlay), ..m }, boot),
    }
}

/// Edge triggering: the effects of the app actions in `fired`, in order,
/// skipping those already present on the previous tick (`last`).
pub open spec fn apply_new_app_actions(m: AppModelView, fired: Seq<AppAction>, last: Seq<AppAction>) -> (
    AppModelView,
    bool,
)
    decreases fired.len(),
{
    if fired.len() == 0 {
        (m, false)
    } else {
        let (m1, boot) = apply_new_app_actions(m, fired.drop_last(), last);
        if last.contains(fired.last()) {
            (m1, boot)
        } else {
            apply_app_action(m1, boot, fired.last())
        }
    }
}

/// The application model after a mapping tick that emitted `actions`, and
/// whether the bootloader was asked for.
pub open spec fn app_after_tick(m: AppModelView, actions: Seq<Action>) -> (AppModelView, bool) {
    let (m1, boot) = apply_new_app_actions(m, app_actions_of(actions), m.last_actions);
    (AppModelView { last_actions: app_actions_of(actions), ..m1 }, boot)
}

/// The keypad model after a mapping tick at `now` on `keys`.
pub open spec fn keypad_after_tick(k: KeypadModelView, keys: Seq<KeyState>, now: u64) -> KeypadModelView {
    KeypadModelView {
        last_keypress_time: if keys.contains(KeyState::Down) {
            now
        } else {
            k.last_keypress_time
        },
        key_states: keys,
        actions: emitted(k.slots, keys, now),
        slots: stepped(k.slots, keys, now),
        ..k
    }
}

/// A slot emits at most one action per tick.
pub proof fn lemma_emitted_len(
    slots: Seq<crate::keymap::ModifierState>,
    keys: Seq<KeyState>,
    now: u64,
)
    ensures
        emitted(slots, keys, now).len() <= slots.len(),
    decreases slots.len(),
{
    if slots.len() > 0 {
        lemma_emitted_len(slots.drop_last(), keys, now);
    }
}

proof fn lemma_app_actions_len(actions: Seq<Action>)
    ensures
        app_actions_of(actions).len() <= actions.len(),
    decreases actions.len(),
{
    if actions.len() > 0 {
        lemma_app_actions_len(actions.drop_last());
    }
}

/// What a mapping tick hands to the outside world.
pub struct KeypadOutput {
    /// The bootloader was asked for: reboot into it.
    pub enter_bootloader: bool,
    /// The keys of the next keyboard report, in slot order.
    pub keys: Vec<Keyboard>,
}

fn remembered(app_model: &ApplicationModel, a: AppAction) -> (r: bool)
    ensures
        r == app_model@.last_actions.contains(a),
{
    let last = app_model.last_actions_slice();
    let mut i: usize = 0;
    while i < last.len()
        invariant
            i <= last@.len(),
            last@ == app_model@.last_actions,
            forall|j: int| 0 <= j < i ==> last@[j] != a,
        decreases last@.len() - i,
    {
        if last[i] == a {
            return true;
        }
        i = i + 1;
    }
    false
}

/// Runs the mapping tick of the keypad.
pub struct KeypadController {}

impl KeypadController {
    pub fn new() -> (r: KeypadController) {
        KeypadController {  }
    }

    /// One mapping tick at `now` on the debounced pin levels `pins` (`true`
    /// for high): records the key states, runs the key mapper, applies the
    /// app actions that were not present on the previous tick, and returns
    /// the keyboard keys to report.
    pub fn tick(
        &mut self,
        now: u64,
        pins: &[bool; KEY_COUNT],
        key_model: &mut KeypadModel,
        app_model: &mut ApplicationModel,
    ) -> (r: KeypadOutput)
        requires
            old(key_model).wf(),
        ensures
            final(key_model).wf(),
            final(key_model)@ == keypad_after_tick(old(key_model)@, key_states_of(pins@), now),
            (final(app_model)@, r.enter_bootloader) == app_after_tick(
                old(app_model)@,
                final(key_model)@.actions,
            ),
            r.keys@ == keyboard_keys_of(final(key_model)@.actions),
    {
        let ghost keys = key_states_of(pins@);
        let mut key_states = [KeyState::Up; KEY_COUNT];
        let mut any_down = false;
        let mut i: usize = 0;
        while i < KEY_COUNT
            invariant
                i <= KEY_COUNT,
                key_states@.len() == KEY_COUNT,
                keys == key_states_of(pins@),
                keys.len() == KEY_COUNT,
                forall|j: int| 0 <= j < i ==> #[trigger] key_states@[j] == keys[j],
                any_down <==> exists|j: int| 0 <= j < i && keys[j] == KeyState::Down,
            decreases KEY_COUNT - i,
        {
            if pins[i] {
                key_states[i] = KeyState::Up;
            } else {
                key_states[i] = KeyState::Down;
                any_down = true;
                assert(keys[i as int] == KeyState::Down);
            }
            i = i + 1;
        }
        assert(key_states@ =~= keys);
        assert(any_down == keys.contains(KeyState::Down));

        key_model.set_key_states(key_states);
        if any_down {
            key_model.set_last_keypress_time(now);
        }
        let actions = key_model.map_keys(&key_states, now);
        proof {
            lemma_emitted_len(old(key_model)@.slots, keys, now);
        }
        key_model.set_actions(actions.as_slice());

        let mut fired: Vec<AppAction> = Vec::new();
        let mut report: Vec<Keyboard> = Vec::new();
        let mut i: usize = 0;
        while i < actions.len()
            invariant
                i <= actions@.len(),
                fired@ == app_actions_of(actions@.take(i as int)),
                report@ == keyboard_keys_of(actions@.take(i as int)),
            decreases actions@.len() - i,
        {
            proof {
                assert(actions@.take(i + 1).drop_last() =~= actions@.take(i as int));
            }
            match actions[i] {
                Action::App(a) => fired.push(a),
                Action::Keyboard(k) => report.push(k),
            }
            i = i + 1;
        }
        assert(actions@.take(actions@.len() as int) =~= actions@);

        let ghost start = app_model@;
        let mut enter_bootloader = false;
        let mut j: usize = 0;
        while j < fired.len()
            invariant
                j <= fired@.len(),
                (app_model@, enter_bootloader) == apply_new_app_actions(
                    start,
                    fired@.take(j as int),
                    start.last_actions,
                ),
                app_model@.last_actions == start.last_actions,
            decreases fired@.len() - j,
        {
            proof {
                assert(fired@.take(j + 1).drop_last() =~= fired@.take(j as int));
            }
            let a = fired[j];
            if !remembered(app_model, a) {
                match a {
                    AppAction::Bootloader => {
                        enter_bootloader = true;
                    },
                    AppAction::ShowMenu => {
                        let view = app_model.active_view();
                        app_model.set_menu(MenuState::Open(view));
                    },
                    AppAction::ShowTimings => {
                        let next = match app_model.active_overlay() {
                            Overlay::Off => Overlay::ControllerTiming,
                            Overlay::ControllerTiming => Overlay::Off,
                        };
                        app_model.set_active_overlay(next);
                    },
                }
            }
            j = j + 1;
        }
        assert(fired@.take(fired@.len() as int) =~= fired@);
        proof {
            lemma_app_actions_len(actions@);
        }
        app_model.set_last_actions(fired.as_slice());
        KeypadOutput { enter_bootloader, keys: report }
    }
}

} // verus!
