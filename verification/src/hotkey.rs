use vstd::prelude::*;

verus! {

/// What the trigger key reports to the rest of the application.
#[derive(Debug, Clone, Copy, PartialEq, Eq, Structural)]
pub enum HotkeyEvent {
    /// The trigger key went down (start recording).
    Pressed,
    /// The trigger key came up after a valid hold (stop recording and transcribe).
    Released,
    /// The trigger key came up after a combination or a too short hold.
    Cancelled,
}

/// The abstract state of a [`HotkeyDetector`].
pub struct HotkeyView {
    /// Minimum hold, in milliseconds, for a release to count.
    pub min_hold_ms: u64,
    /// The trigger key is down.
    pub held: bool,
    /// When the trigger key went down, in nanoseconds of the caller's monotonic clock.
    pub pressed_at: Option<u64>,
    /// Another key went down while the trigger key was held.
    pub combo: bool,
}

/// A detector in its initial state.
pub open spec fn initial_view(min_hold_ms: u64) -> HotkeyView {
    HotkeyView { min_hold_ms, held: false, pressed_at: None, combo: false }
}

/// Nanoseconds from `from` to `now`, zero when the clock reads earlier than `from`.
pub open spec fn elapsed_ns(from: u64, now: u64) -> int {
    if now >= from {
        now - from
    } else {
        0
    }
}

/// The trigger key has been held at least the minimum time at `now`: the whole
/// milliseconds elapsed reach the minimum, that is at least `min_hold_ms` million
/// nanoseconds have passed.
pub open spec fn held_long_enough(v: HotkeyView, now: u64) -> bool {
    match v.pressed_at {
        Some(t) => elapsed_ns(t, now) >= v.min_hold_ms * 1_000_000,
        None => false,
    }
}

/// One key transition: `is_trigger` tells whether the key is the trigger key,
/// `is_press` whether it went down (otherwise it came up), `now` when it happened (nanoseconds of a monotonic clock).
pub open spec fn hotkey_step(v: HotkeyView, is_trigger: bool, is_press: bool, now: u64) -> (
    HotkeyView,
    Option<HotkeyEvent>,
) {
    if is_press {
        if is_trigger {
            if !v.held {
                (
                    HotkeyView { held: true, pressed_at: Some(now), combo: false, ..v },
                    Some(HotkeyEvent::Pressed),
                )
            } else {
                (v, None)
            }
        } else if v.held {
            (HotkeyView { combo: true, ..v }, None)
        } else {
            (v, None)
        }
    } else if is_trigger && v.held {
        let out = if held_long_enough(v, now) && !v.combo {
            HotkeyEvent::Released
        } else {
            HotkeyEvent::Cancelled
        };
        (HotkeyView { held: false, pressed_at: None, ..v }, Some(out))
    } else {
        (v, None)
    }
}

/// Feeds a run of key transitions `(is_trigger, is_press, now)` to a detector in state `v`;
/// gives the final state and the events emitted, in order.
pub open spec fn hotkey_run(v: HotkeyView, inputs: Seq<(bool, bool, u64)>) -> (
    HotkeyView,
    Seq<HotkeyEvent>,
)
    decreases inputs.len(),
{
    if inputs.len() == 0 {
        (v, Seq::empty())
    } else {
        let (mid, evs) = hotkey_run(v, inputs.drop_last());
        let (last, out) = hotkey_step(mid, inputs.last().0, inputs.last().1, inputs.last().2);
        match out {
            Some(e) => (last, evs.push(e)),
            None => (last, evs),
        }
    }
}

/// Tracks the trigger key (right Ctrl) and turns raw key transitions into
/// [`HotkeyEvent`]s: a combination with any other key, or a hold shorter than the
/// minimum, cancels instead of releasing.
pub struct HotkeyDetector {
    min_hold_ms: u64,
    rctrl_down: bool,
    rctrl_press_time: Option<u64>,
    combo_detected: bool,
}

impl View for HotkeyDetector {
    type V = HotkeyView;

    closed spec fn view(&self) -> HotkeyView {
        HotkeyView {
            min_hold_ms: self.min_hold_ms,
            held: self.rctrl_down,
            pressed_at: self.rctrl_press_time,
            combo: self.combo_detected,
        }
    }
}

impl HotkeyDetector {
    #[verifier::type_invariant]
    spec fn inv(&self) -> bool {
        self.rctrl_down == self.rctrl_press_time.is_some()
    }

    /// A detector with nothing held.
    pub fn new(min_hold_ms: u64) -> (d: Self)
        ensures
            d@ == initial_view(min_hold_ms),
    {
        HotkeyDetector {
            min_hold_ms,
            rctrl_down: false,
            rctrl_press_time: None,
            combo_detected: false,
        }
    }

    /// Whether the trigger key is down.
    pub fn is_held(&self) -> (r: bool)
        ensures
            r == self@.held,
            r == self@.pressed_at.is_some(),
    {
        proof {
            use_type_invariant(self);
        }
        self.rctrl_down
    }

    /// Handles one key transition at time `now_ns` of a monotonic nanosecond clock.
    pub fn on_key(&mut self, is_trigger: bool, is_press: bool, now_ns: u64) -> (r: Option<
        HotkeyEvent,
    >)
        ensures
            (final(self)@, r) == hotkey_step(old(self)@, is_trigger, is_press, now_ns),
            final(self)@.held == final(self)@.pressed_at.is_some(),
            final(self)@.min_hold_ms == old(self)@.min_hold_ms,
            r == Some(HotkeyEvent::Pressed) ==> !old(self)@.held && final(self)@.held,
            r == Some(HotkeyEvent::Released) || r == Some(HotkeyEvent::Cancelled) ==> old(
                self,
            )@.held && !final(self)@.held,
            r is None ==> old(self)@.held == final(self)@.held,
            r == Some(HotkeyEvent::Released) <==> (is_trigger && !is_press && old(self)@.held
                && held_long_enough(old(self)@, now_ns) && !old(self)@.combo),
            // the trigger going down while up starts a hold at `now_ns`
            is_trigger && is_press && !old(self)@.held ==> r == Some(HotkeyEvent::Pressed)
                && final(self)@.pressed_at == Some(now_ns),
            // the trigger coming up ends the hold: released after at least `min_hold_ms`
            // whole milliseconds (a clock reading earlier than the press counts as no
            // time) with no other key pressed, cancelled otherwise
            is_trigger && !is_press && old(self)@.held ==> !final(self)@.held && (r == Some(
                HotkeyEvent::Released,
            ) <==> (!old(self)@.combo && (old(self)@.pressed_at matches Some(t) && (if now_ns >= t {
                now_ns - t
            } else {
                0
            }) >= old(self)@.min_hold_ms * 1_000_000))) && (r == Some(
                HotkeyEvent::Released,
            ) || r == Some(HotkeyEvent::Cancelled)),
            // nothing else emits an event
            !(is_trigger && is_press && !old(self)@.held) && !(is_trigger && !is_press && old(
                self,
            )@.held) ==> r is None,
            // another key coming up changes nothing
            !is_trigger && !is_press ==> final(self)@ == old(self)@ && r is None,
            // only another key going down while the trigger is held marks a combination,
            // and a new press of the trigger clears it
            r == Some(HotkeyEvent::Pressed) ==> !final(self)@.combo,
            r != Some(HotkeyEvent::Pressed) ==> final(self)@.combo == (old(self)@.combo || (
            is_press && !is_trigger && old(self)@.held)),
    {
        proof {
            use_type_invariant(&*self);
        }
        if is_press {
            if is_trigger {
                if !self.rctrl_down {
                    *self = HotkeyDetector {
                        min_hold_ms: self.min_hold_ms,
                        rctrl_down: true,
                        rctrl_press_time: Some(now_ns),
                        combo_detected: false,
                    };
                    return Some(HotkeyEvent::Pressed);
                }
                None
            } else {
                if self.rctrl_down {
                    self.combo_detected = true;
                }
                None
            }
        } else if is_trigger && self.rctrl_down {
            let held_long_enough = match self.rctrl_press_time {
                Some(t) => (now_ns.saturating_sub(t) as u128) >= (self.min_hold_ms as u128)
                    * 1_000_000,
                None => false,
            };
            let out = if held_long_enough && !self.combo_detected {
                HotkeyEvent::Released
            } else {
                HotkeyEvent::Cancelled
            };
            *self = HotkeyDetector {
                min_hold_ms: self.min_hold_ms,
                rctrl_down: false,
                rctrl_press_time: None,
                combo_detected: self.combo_detected,
            };
            Some(out)
        } else {
            None
        }
    }
}

/// Reads the value field of a raw keyboard event: `1` is a key press, `0` a release,
/// anything else (auto-repeat is `2`) is not a transition.
pub fn key_transition(value: i32) -> (r: Option<bool>)
    ensures
        r == (if value == 1 {
            Some(true)
        } else if value == 0 {
            Some(false)
        } else {
            None
        }),
{
    if value == 1 {
        Some(true)
    } else if value == 0 {
        Some(false)
    } else {
        None
    }
}

/// Events emitted from an idle detector alternate: `Pressed` at every even position,
/// `Released` or `Cancelled` at every odd one, and the trigger key is held exactly when
/// a `Pressed` is still unanswered.
pub proof fn lemma_events_alternate(min_hold_ms: u64, inputs: Seq<(bool, bool, u64)>)
    ensures
        ({
            let (v, evs) = hotkey_run(initial_view(min_hold_ms), inputs);
            &&& forall|i: int| 0 <= i < evs.len() ==> ((#[trigger] evs[i] == HotkeyEvent::Pressed)
                <==> i % 2 == 0)
            &&& v.held <==> evs.len() % 2 == 1
            &&& v.held == v.pressed_at.is_some()
            &&& v.min_hold_ms == min_hold_ms
        }),
    decreases inputs.len(),
{
    if inputs.len() > 0 {
        lemma_events_alternate(min_hold_ms, inputs.drop_last());
        let (mid, evs) = hotkey_run(initial_view(min_hold_ms), inputs.drop_last());
        let (last, out) = hotkey_step(mid, inputs.last().0, inputs.last().1, inputs.last().2);
        match out {
            Some(e) => {
                assert forall|i: int| 0 <= i < evs.push(e).len() implies ((#[trigger] evs.push(
                    e,
                )[i] == HotkeyEvent::Pressed) <==> i % 2 == 0) by {
                    if i < evs.len() {
                        assert(evs.push(e)[i] == evs[i]);
                    }
                }
            },
            None => {},
        }
    }
}

/// A key pressed while the trigger key is held turns the next trigger release into a
/// cancellation, however long the hold.
pub proof fn lemma_combo_cancels(
    v: HotkeyView,
    other_press_at: u64,
    release_at: u64,
)
    requires
        v.held,
    ensures
        ({
            let (v1, _) = hotkey_step(v, false, true, other_press_at);
            let (v2, out) = hotkey_step(v1, true, false, release_at);
            out == Some(HotkeyEvent::Cancelled) && !v2.held
        }),
{
}

/// Another key coming up leaves the detector as it is and reports nothing; only key
/// presses mark a combination.
pub proof fn lemma_other_key_release_ignored(v: HotkeyView, at: u64)
    ensures
        hotkey_step(v, false, false, at) == (v, None::<HotkeyEvent>),
        hotkey_step(v, false, true, at).0.combo == (v.combo || v.held),
{
}

/// A hold with no other key pressed, long enough, is a release whatever other keys
/// came up meanwhile.
pub proof fn lemma_clean_hold_releases(min_hold_ms: u64, press_at: u64, other_up: Seq<u64>, release_at: u64)
    requires
        release_at >= press_at,
        release_at - press_at >= min_hold_ms * 1_000_000,
    ensures
        ({
            let (v0, _) = hotkey_step(initial_view(min_hold_ms), true, true, press_at);
            let v1 = other_releases(v0, other_up);
            hotkey_step(v1, true, false, release_at).1 == Some(HotkeyEvent::Released)
        }),
    decreases other_up.len(),
{
    let (v0, _) = hotkey_step(initial_view(min_hold_ms), true, true, press_at);
    lemma_other_releases_unchanged(v0, other_up);
}

/// The state after a run of releases of other keys.
pub open spec fn other_releases(v: HotkeyView, times: Seq<u64>) -> HotkeyView
    decreases times.len(),
{
    if times.len() == 0 {
        v
    } else {
        hotkey_step(other_releases(v, times.drop_last()), false, false, times.last()).0
    }
}

proof fn lemma_other_releases_unchanged(v: HotkeyView, times: Seq<u64>)
    ensures
        other_releases(v, times) == v,
    decreases times.len(),
{
    if times.len() > 0 {
        lemma_other_releases_unchanged(v, times.drop_last());
    }
}

/// A trigger release before the minimum hold has passed is a cancellation.
pub proof fn lemma_short_hold_cancels(v: HotkeyView, release_at: u64)
    requires
        v.held,
        v.pressed_at matches Some(t) && elapsed_ns(t, release_at) < v.min_hold_ms * 1_000_000,
    ensures
        hotkey_step(v, true, false, release_at).1 == Some(HotkeyEvent::Cancelled),
{
}

} // verus!
