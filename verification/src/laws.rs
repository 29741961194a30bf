//! Properties of the session that span events.

use vstd::prelude::*;
use crate::game::Phase;
use crate::session::{
    act_spec, frame_spec, gate_spec, keyboard_spec, step, suspend_spec, ticking_spec, AppView,
    Effect, Event, FrameInput, Gate, Keys,
};

verus! {

/// Facts about the effect lists that the transitions build.
proof fn no_write_in(fx: Seq<Effect>)
    requires
        forall|k: int| 0 <= k < fx.len() ==> fx[k] != Effect::Write,
    ensures
        !fx.contains(Effect::Write),
{
}

/// A session whose save file was refused never asks for a write, and stays
/// blocked, on every event but a successful archive of that file.
pub proof fn blocked_session_never_writes(s: AppView, e: Event)
    requires
        s.blocked,
        !(e is Archived),
    ensures
        step(s, e).0.blocked,
        !step(s, e).1.contains(Effect::Write),
{
    let fx = step(s, e).1;
    assert forall|k: int| 0 <= k < fx.len() implies fx[k] != Effect::Write by {
        match e {
            Event::Frame(i) => {
                let s1 = if (!i.focused || i.stalled) && !s.paused {
                    suspend_spec(s).0
                } else {
                    s
                };
                assert(s1.blocked);
            },
            _ => {},
        }
    }
    no_write_in(fx);
}

/// While play is paused, the driving and firing step does nothing, the
/// keyboard steers nothing, controls gated in a paused frame do nothing, and
/// the simulation does not advance.
pub proof fn paused_session_ignores_play(
    s: AppView,
    gate: Gate,
    movement: i8,
    fire: bool,
    focused: bool,
    computer: bool,
    phase: Phase,
    wants_keyboard: bool,
    keys: Keys,
    angle: u16,
    power: u16,
    clicked: bool,
    enter: bool,
)
    requires
        s.paused,
    ensures
        step(s, Event::Act { gate, movement, fire }) == (s, Seq::<Effect>::empty()),
        keyboard_spec(s, gate, wants_keyboard, keys, angle, power, movement, fire).aim is None,
        keyboard_spec(s, gate, wants_keyboard, keys, angle, power, movement, fire).weapon is None,
        keyboard_spec(s, gate, wants_keyboard, keys, angle, power, movement, fire).fire == fire,
        !ticking_spec(s, focused),
        ({
            let g = gate_spec(s, focused, computer, phase);
            &&& step(s, Event::ReadyControl { gate: g, clicked, enter }) == (s, Seq::<Effect>::empty())
            &&& step(s, Event::NextRoundControl { gate: g, clicked, enter }) == (
                s,
                Seq::<Effect>::empty(),
            )
            &&& step(s, Event::PlayAgain { gate: g, clicked }) == (s, Seq::<Effect>::empty())
            &&& step(s, Event::Act { gate: g, movement, fire }) == (s, Seq::<Effect>::empty())
        }),
{
}

/// A shot disarms the controls, so a second shot cannot follow until a
/// frame re-arms them; and no shot is fired from disarmed controls.
pub proof fn fire_commits_once(s: AppView, gate: Gate, m1: i8, m2: i8, fire2: bool)
    ensures
        act_spec(s, gate, m1, true).1.contains(Effect::Fire) ==> s.armed && !act_spec(
            s,
            gate,
            m1,
            true,
        ).0.armed,
        act_spec(s, gate, m1, true).1.contains(Effect::Fire) ==> !act_spec(
            act_spec(s, gate, m1, true).0,
            gate,
            m2,
            fire2,
        ).1.contains(Effect::Fire),
{
    let (t, f1) = act_spec(s, gate, m1, true);
    if f1.contains(Effect::Fire) {
        assert(s.armed);
        let f2 = act_spec(t, gate, m2, fire2).1;
        assert(f2 =~= Seq::<Effect>::empty());
    } else {
    }
}

/// Disarmed controls are armed again only at the start of a frame in which
/// the window has focus, input is enabled and nothing is held down.
pub proof fn arming_needs_a_released_frame(s: AppView, e: Event)
    requires
        !s.armed,
        step(s, e).0.armed,
    ensures
        e matches Event::Frame(i) && i.focused && !i.held && s.enabled,
{
    match e {
        Event::Frame(i) => {
            let s1 = if (!i.focused || i.stalled) && !s.paused {
                suspend_spec(s).0
            } else {
                s
            };
            assert(!s1.armed && s1.enabled == s.enabled);
        },
        _ => {},
    }
}

/// While the host holds the input, neither a key nor the Pause button nor
/// the driving step resumes a paused session.
pub proof fn disabled_input_keeps_pause(s: AppView, e: Event)
    requires
        !s.enabled,
        s.paused,
        e is Frame || e is PauseButton || e is Act || e is SettingsButton || e is Tick,
    ensures
        step(s, e).0.paused,
        !step(s, e).0.enabled,
{
}

/// Escape pauses a running session and a second Escape resumes it; the
/// Pause button does the same. Pausing writes the save unless it is blocked.
pub proof fn pause_toggles(s: AppView, i: FrameInput)
    requires
        s.enabled,
        !s.paused,
        i.focused,
        !i.stalled,
        i.escape,
        !i.settings_shortcut,
    ensures
        frame_spec(s, i).0.paused,
        !frame_spec(s, i).0.armed,
        frame_spec(s, i).1.contains(Effect::Write) <==> !s.blocked,
        !frame_spec(frame_spec(s, i).0, i).0.paused,
        step(s, Event::PauseButton).0.paused,
        !step(step(s, Event::PauseButton).0, Event::PauseButton).0.paused,
{
    let f = frame_spec(s, i).1;
    if !s.blocked {
        let s2 = if !s.armed && !i.held { AppView { armed: true, ..s } } else { s };
        assert(f =~= suspend_spec(s2).1);
        assert(f[3] == Effect::Write);
    } else {
        assert forall|k: int| 0 <= k < f.len() implies f[k] != Effect::Write by {}
        no_write_in(f);
    }
}

/// Pausing twice leaves the session as pausing once does, and asks for the
/// same effects.
pub proof fn suspend_is_idempotent(s: AppView)
    ensures
        suspend_spec(suspend_spec(s).0).0 == suspend_spec(s).0,
        suspend_spec(suspend_spec(s).0).1 == suspend_spec(s).1,
{
}

/// Archiving the refused save lifts the block, starts a fresh save and
/// writes it at once.
pub proof fn archive_lifts_block(s: AppView, path: String)
    requires
        s.blocked,
    ensures
        !step(s, Event::Archived(path)).0.blocked,
        step(s, Event::Archived(path)).1 == seq![Effect::ResetSave, Effect::Write],
{
    assert(step(s, Event::Archived(path)).1 =~= seq![Effect::ResetSave, Effect::Write]);
}

/// Once the player asked to go back to the arcade, the session keeps saying
/// so; and only the host switches the input on or off.
pub proof fn leaving_and_input_are_kept(s: AppView, e: Event)
    ensures
        s.leave ==> step(s, e).0.leave,
        step(s, e).0.enabled != s.enabled ==> e is SetInputEnabled,
{
}

} // verus!
