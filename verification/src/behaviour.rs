//! What each event of the session does, stated over its inputs and its
//! results: the fields that change, the fields that stay, and the effects in
//! order.

use vstd::prelude::*;
use crate::game::{
    computer_moves, computer_step_spec, nudged, ComputerStep, Difficulty, Mode, Phase,
};
use crate::notice::{notice_text, Notice};
use crate::session::{
    act_spec, frame_spec, gate_spec, keyboard_spec, opened, step, ticking_spec, AppView, Effect, Event,
    FrameInput, Gate, Keys,
};

verus! {

/// The write that follows a change of state: one `Write`, or none while the
/// save is blocked.
pub open spec fn write_unless_blocked(blocked: bool) -> Seq<Effect> {
    if blocked {
        Seq::empty()
    } else {
        seq![Effect::Write]
    }
}

/// The effects of pausing: drop both clocks and the search, then write.
pub open spec fn pause_effects(blocked: bool) -> Seq<Effect> {
    seq![Effect::ClearAccumulator, Effect::ClearMovement, Effect::DropSearch] + write_unless_blocked(
        blocked,
    )
}

/// Only the listed fields of the session differ between `s` and `t`.
pub open spec fn same_but_pause(s: AppView, t: AppView) -> bool {
    &&& t.blocked == s.blocked
    &&& t.notice == s.notice
    &&& t.enabled == s.enabled
    &&& t.leave == s.leave
}

/// Pausing sets `paused`, clears `armed`, keeps every other field, and asks
/// to drop the clocks and the search and to write unless blocked.
pub proof fn suspend_pauses(s: AppView)
    ensures
        step(s, Event::Suspend).0 == (AppView { paused: true, armed: false, ..s }),
        step(s, Event::Suspend).1 == pause_effects(s.blocked),
{
    assert(step(s, Event::Suspend).1 =~= pause_effects(s.blocked));
}

/// Taking the input from a session that had it pauses it; any other change
/// of the input setting only records the setting.
pub proof fn input_setting(s: AppView, enabled: bool)
    ensures
        s.enabled && !enabled ==> step(s, Event::SetInputEnabled(enabled)).0 == (AppView {
            paused: true,
            armed: false,
            enabled: false,
            ..s
        }) && step(s, Event::SetInputEnabled(enabled)).1 == pause_effects(s.blocked),
        !(s.enabled && !enabled) ==> step(s, Event::SetInputEnabled(enabled)).0 == (AppView {
            enabled,
            ..s
        }) && step(s, Event::SetInputEnabled(enabled)).1 == Seq::<Effect>::empty(),
{
    assert(step(s, Event::SetInputEnabled(enabled)).1 =~= (if s.enabled && !enabled {
        pause_effects(s.blocked)
    } else {
        Seq::<Effect>::empty()
    }));
}

/// A new match runs at once, disarmed, with the match choice closed; the
/// effects start the match, drop the search and the simulation clock, then
/// write unless blocked.
pub proof fn begin_match_runs(s: AppView)
    ensures
        step(s, Event::BeginMatch).0 == (AppView { restart: false, paused: false, armed: false, ..s }),
        step(s, Event::BeginMatch).1 == seq![
            Effect::NewMatch,
            Effect::DropSearch,
            Effect::ClearAccumulator,
        ] + write_unless_blocked(s.blocked),
{
    assert(step(s, Event::BeginMatch).1 =~= seq![
        Effect::NewMatch,
        Effect::DropSearch,
        Effect::ClearAccumulator,
    ] + write_unless_blocked(s.blocked));
}

/// Choosing a match in the pause window first sets exactly the chosen mode
/// and difficulty, then begins a match.
pub proof fn chosen_match_is_configured(s: AppView, mode: Mode, difficulty: Difficulty)
    ensures
        step(s, Event::ChooseMatch { mode, difficulty }).0 == (AppView {
            restart: false,
            paused: false,
            armed: false,
            ..s
        }),
        step(s, Event::ChooseMatch { mode, difficulty }).1 == seq![
            Effect::Configure { mode, difficulty },
            Effect::NewMatch,
            Effect::DropSearch,
            Effect::ClearAccumulator,
        ] + write_unless_blocked(s.blocked),
        step(s, Event::ChooseMatch { mode, difficulty }).1[0] == (Effect::Configure {
            mode,
            difficulty,
        }),
{
    assert(step(s, Event::ChooseMatch { mode, difficulty }).1 =~= seq![
        Effect::Configure { mode, difficulty },
        Effect::NewMatch,
        Effect::DropSearch,
        Effect::ClearAccumulator,
    ] + write_unless_blocked(s.blocked));
}

/// A failure report sets the matching notice and changes nothing else.
pub proof fn failures_set_the_notice(s: AppView, reason: String)
    ensures
        step(s, Event::WriteFailed(reason)) == (
            AppView { notice: Some(Notice::SaveFailed(reason)), ..s },
            Seq::<Effect>::empty(),
        ),
        step(s, Event::ArchiveFailed(reason)) == (
            AppView { notice: Some(Notice::ArchiveFailed(reason)), ..s },
            Seq::<Effect>::empty(),
        ),
        step(s, Event::MoveFailed(reason)) == (
            AppView { notice: Some(Notice::CannotMove(reason)), ..s },
            Seq::<Effect>::empty(),
        ),
{
}

/// The notices read as the player sees them.
pub proof fn notice_wording(e: String)
    ensures
        notice_text(Notice::LoadRejected(e)) == e@,
        notice_text(Notice::SaveFailed(e)) == "Could not save: "@ + e@,
        notice_text(Notice::Archived(e)) == "Original archived to "@ + e@,
        notice_text(Notice::ArchiveFailed(e)) == "Archive failed; original retained: "@ + e@,
        notice_text(Notice::CannotMove(e)) == "Cannot move: "@ + e@,
{
}

/// A frame without focus always leaves the session paused and never arms
/// the controls; it writes only when it paused a running session.
pub proof fn unfocused_frame_pauses(s: AppView, i: FrameInput)
    requires
        !i.focused,
    ensures
        frame_spec(s, i).0.paused,
        frame_spec(s, i).0.armed == (s.paused && s.armed),
        same_but_pause(s, frame_spec(s, i).0),
        frame_spec(s, i).0.settings == s.settings,
        frame_spec(s, i).1 == (if s.paused {
            Seq::<Effect>::empty()
        } else {
            pause_effects(s.blocked)
        }),
{
    assert(frame_spec(s, i).1 =~= (if s.paused {
        Seq::<Effect>::empty()
    } else {
        pause_effects(s.blocked)
    }));
}

/// A late frame pauses a running session even with focus.
pub proof fn stalled_frame_pauses(s: AppView, i: FrameInput)
    requires
        i.stalled,
        !i.escape,
    ensures
        frame_spec(s, i).0.paused,
{
}

/// A quiet focused frame (no Escape, no shortcut, on time) with nothing held
/// arms the controls of a session that has the input, and otherwise
/// changes nothing.
pub proof fn quiet_frame_arms(s: AppView, i: FrameInput)
    requires
        i.focused,
        !i.stalled,
        !i.held,
        !i.escape,
        !i.settings_shortcut,
    ensures
        frame_spec(s, i).0 == (AppView { armed: s.armed || s.enabled, ..s }),
        frame_spec(s, i).1 == Seq::<Effect>::empty(),
{
    assert(frame_spec(s, i).1 =~= Seq::<Effect>::empty());
}

/// A frame with a key or button held keeps disarmed controls disarmed.
pub proof fn held_frame_keeps_disarmed(s: AppView, i: FrameInput)
    requires
        i.held,
        !s.armed,
    ensures
        !frame_spec(s, i).0.armed,
{
}

/// With the input and focus, Escape flips the pause: a running session
/// pauses and writes unless blocked; a paused one resumes with the pause
/// window closed and the controls disarmed, without writing.
pub proof fn escape_flips_pause(s: AppView, i: FrameInput)
    requires
        s.enabled,
        i.focused,
        !i.stalled,
        i.escape,
        !i.settings_shortcut,
    ensures
        frame_spec(s, i).0.paused == !s.paused,
        !frame_spec(s, i).0.armed,
        !s.paused ==> frame_spec(s, i).1 == pause_effects(s.blocked) && frame_spec(s, i).0
            == (AppView { paused: true, armed: false, ..s }),
        s.paused ==> frame_spec(s, i).1 == Seq::<Effect>::empty() && frame_spec(s, i).0
            == (AppView { paused: false, settings: false, restart: false, armed: false, ..s }),
{
    assert(frame_spec(s, i).1 =~= (if s.paused {
        Seq::<Effect>::empty()
    } else {
        pause_effects(s.blocked)
    }));
}

/// With the input and focus, the settings shortcut always ends paused with
/// the settings shown and the controls disarmed, whether or not the session
/// was paused before, and the frame's effects end with a pause.
pub proof fn settings_shortcut_opens_settings(s: AppView, i: FrameInput)
    requires
        s.enabled,
        i.focused,
        i.settings_shortcut,
    ensures
        frame_spec(s, i).0.settings,
        frame_spec(s, i).0.paused,
        !frame_spec(s, i).0.armed,
        same_but_pause(s, frame_spec(s, i).0),
        frame_spec(s, i).1.len() >= pause_effects(s.blocked).len(),
        frame_spec(s, i).1.subrange(
            frame_spec(s, i).1.len() - pause_effects(s.blocked).len(),
            frame_spec(s, i).1.len() as int,
        ) == pause_effects(s.blocked),
        !i.escape && !i.stalled ==> frame_spec(s, i).1 == pause_effects(s.blocked),
{
    let f = frame_spec(s, i).1;
    let p = pause_effects(s.blocked);
    assert(f.subrange(f.len() - p.len(), f.len() as int) =~= p);
    if !i.escape && !i.stalled {
        assert(f =~= p);
    }
}

/// The Pause button flips the pause exactly as Escape does, and does
/// nothing while the host holds the input.
pub proof fn pause_button_flips_pause(s: AppView)
    ensures
        s.enabled ==> step(s, Event::PauseButton).0.paused == !s.paused && !step(
            s,
            Event::PauseButton,
        ).0.armed,
        s.enabled && !s.paused ==> step(s, Event::PauseButton).1 == pause_effects(s.blocked),
        s.enabled && s.paused ==> step(s, Event::PauseButton) == (
            AppView { paused: false, settings: false, restart: false, armed: false, ..s },
            Seq::<Effect>::empty(),
        ),
        !s.enabled ==> step(s, Event::PauseButton) == (s, Seq::<Effect>::empty()),
{
    assert(s.enabled && !s.paused ==> step(s, Event::PauseButton).1 =~= pause_effects(s.blocked));
}

/// The Settings and Back buttons pause and then show the settings or mark
/// the session as leaving.
pub proof fn settings_and_leave_buttons(s: AppView)
    ensures
        step(s, Event::SettingsButton).0 == (AppView {
            paused: true,
            armed: false,
            settings: true,
            ..s
        }),
        step(s, Event::SettingsButton).1 == pause_effects(s.blocked),
        step(s, Event::LeaveButton).0 == (AppView { paused: true, armed: false, leave: true, ..s }),
        step(s, Event::LeaveButton).1 == pause_effects(s.blocked),
{
    assert(step(s, Event::SettingsButton).1 =~= pause_effects(s.blocked));
    assert(step(s, Event::LeaveButton).1 =~= pause_effects(s.blocked));
}

/// The pause window's Resume button runs the session with the window
/// closed and the controls disarmed, and writes unless blocked; its match
/// prompt buttons only open and close the prompt.
pub proof fn pause_window_buttons(s: AppView)
    ensures
        step(s, Event::Resume).0 == (AppView {
            paused: false,
            settings: false,
            restart: false,
            armed: false,
            ..s
        }),
        step(s, Event::Resume).1 == write_unless_blocked(s.blocked),
        step(s, Event::NewMatchPrompt) == (AppView { restart: true, ..s }, Seq::<Effect>::empty()),
        step(s, Event::CancelRestart) == (AppView { restart: false, ..s }, Seq::<Effect>::empty()),
{
    assert(step(s, Event::Resume).1 =~= write_unless_blocked(s.blocked));
}

/// The ready prompt takes its button or Enter while the controls are live:
/// it tells the game the player is ready and disarms, without writing.
pub proof fn ready_prompt(s: AppView, gate: Gate, clicked: bool, enter: bool)
    ensures
        gate.interactive && (clicked || enter) ==> step(
            s,
            Event::ReadyControl { gate, clicked, enter },
        ) == (AppView { armed: false, ..s }, seq![Effect::Ready]),
        !(gate.interactive && (clicked || enter)) ==> step(
            s,
            Event::ReadyControl { gate, clicked, enter },
        ) == (s, Seq::<Effect>::empty()),
{
}

/// The end of a round takes its button or Enter while the controls are
/// live: the next round starts, the controls disarm, and the save is written
/// unless blocked.
pub proof fn next_round_prompt(s: AppView, gate: Gate, clicked: bool, enter: bool)
    ensures
        gate.interactive && (clicked || enter) ==> step(
            s,
            Event::NextRoundControl { gate, clicked, enter },
        ).0 == (AppView { armed: false, ..s }),
        gate.interactive && (clicked || enter) ==> step(
            s,
            Event::NextRoundControl { gate, clicked, enter },
        ).1 == seq![Effect::NextRound] + write_unless_blocked(s.blocked),
        gate.interactive && enter ==> step(s, Event::NextRoundControl { gate, clicked, enter }).1[0]
            == Effect::NextRound,
        !(gate.interactive && (clicked || enter)) ==> step(
            s,
            Event::NextRoundControl { gate, clicked, enter },
        ) == (s, Seq::<Effect>::empty()),
{
    assert(gate.interactive && (clicked || enter) ==> step(
        s,
        Event::NextRoundControl { gate, clicked, enter },
    ).1 =~= seq![Effect::NextRound] + write_unless_blocked(s.blocked));
}

/// Play again starts a new match when clicked while the controls are live.
pub proof fn play_again_prompt(s: AppView, gate: Gate, clicked: bool)
    ensures
        gate.interactive && clicked ==> step(s, Event::PlayAgain { gate, clicked }) == step(
            s,
            Event::BeginMatch,
        ),
        !(gate.interactive && clicked) ==> step(s, Event::PlayAgain { gate, clicked }) == (
            s,
            Seq::<Effect>::empty(),
        ),
{
}

/// The end of a flight disarms the controls, drops the movement clock and
/// writes unless blocked; any other simulation step changes nothing.
pub proof fn landing(s: AppView, was_flying: bool, flying: bool)
    ensures
        was_flying && !flying ==> step(s, Event::Tick { was_flying, flying }).0 == (AppView {
            armed: false,
            ..s
        }),
        was_flying && !flying ==> step(s, Event::Tick { was_flying, flying }).1 == seq![
            Effect::ClearMovement,
        ] + write_unless_blocked(s.blocked),
        !(was_flying && !flying) ==> step(s, Event::Tick { was_flying, flying }) == (
            s,
            Seq::<Effect>::empty(),
        ),
{
    assert(was_flying && !flying ==> step(s, Event::Tick { was_flying, flying }).1 =~= seq![
        Effect::ClearMovement,
    ] + write_unless_blocked(s.blocked));
}

/// When the controls are live, play runs and the controls are armed, the
/// frame's moves always end by handing the turn to the computer (which plays
/// only when it is its turn), whatever the player did; the player's drive
/// and shot come first, and only when a person is aiming.
pub proof fn act_hands_over_to_the_computer(s: AppView, g: Gate, movement: i8, fire: bool)
    ensures
        g.interactive && !s.paused && s.armed ==> act_spec(s, g, movement, fire).1.len() >= 1
            && act_spec(s, g, movement, fire).1.last() == Effect::ComputerTurn,
        g.interactive && !s.paused && s.armed && !g.human ==> act_spec(s, g, movement, fire) == (
            s,
            seq![Effect::ComputerTurn],
        ),
        g.interactive && !s.paused && s.armed && g.human ==> act_spec(s, g, movement, fire).1[0]
            == (if movement != 0 {
            Effect::Move { forward: movement > 0 }
        } else {
            Effect::ClearMovement
        }),
        g.interactive && !s.paused && s.armed && g.human ==> act_spec(s, g, movement, fire).1
            =~= seq![act_spec(s, g, movement, fire).1[0]] + (if fire {
            seq![Effect::Fire, Effect::ComputerTurn]
        } else {
            seq![Effect::ComputerTurn]
        }),
        g.interactive && !s.paused && s.armed && g.human ==> act_spec(s, g, movement, fire).0
            == (AppView { armed: !fire, ..s }),
        !(g.interactive && !s.paused && s.armed) ==> act_spec(s, g, movement, fire) == (
            s,
            Seq::<Effect>::empty(),
        ),
        step(s, Event::Act { gate: g, movement, fire }) == act_spec(s, g, movement, fire),
{
}

/// The controls are live when the host gives the input, the window has
/// focus, play runs and the controls are armed; a person steers when they
/// are live, the computer is not to move and the round is in aiming.
pub proof fn live_controls(s: AppView, focused: bool, computer: bool, phase: Phase)
    ensures
        gate_spec(s, focused, computer, phase).interactive == (s.enabled && focused && !s.paused
            && s.armed),
        gate_spec(s, focused, computer, phase).human == (s.enabled && focused && !s.paused
            && s.armed && !computer && phase == Phase::Aiming),
        ticking_spec(s, focused) == (!s.paused && s.enabled && focused),
{
}

/// The barrel angle stays in 5..=175 and the power in 1..=100; inside those
/// ranges a nudge moves by exactly the asked amount, and past them it stops
/// at the limit.
pub proof fn nudge_moves_within_limits(angle: u16, power: u16, da: i32, dp: i32)
    ensures
        5 <= angle + da <= 175 ==> nudged(angle, power, da, dp).0 == angle + da,
        angle + da < 5 ==> nudged(angle, power, da, dp).0 == 5,
        angle + da > 175 ==> nudged(angle, power, da, dp).0 == 175,
        1 <= power + dp <= 100 ==> nudged(angle, power, da, dp).1 == power + dp,
        power + dp < 1 ==> nudged(angle, power, da, dp).1 == 1,
        power + dp > 100 ==> nudged(angle, power, da, dp).1 == 100,
{
}

/// While a person steers with armed controls and no text field has the
/// keyboard, any barrel or power key aims: each of angle and power moves by
/// its key within its limits; the drive keys override the on-screen drive,
/// Space adds a shot, and a weapon key loads that weapon. Otherwise the keys
/// do nothing and the on-screen controls pass through.
pub proof fn keys_steer(
    s: AppView,
    gate: Gate,
    wants_keyboard: bool,
    keys: Keys,
    angle: u16,
    power: u16,
    movement: i8,
    fire: bool,
)
    ensures
        ({
            let k = keyboard_spec(s, gate, wants_keyboard, keys, angle, power, movement, fire);
            let steering = gate.human && s.armed && !s.paused && !wants_keyboard;
            let aimed = k.aim->0;
            &&& steering && (keys.angle != 0 || keys.power != 0) ==> k.aim is Some
            &&& steering && keys.power != 0 ==> k.aim is Some && aimed.1 == (if power
                + keys.power < 1 {
                1
            } else if power + keys.power > 100 {
                100
            } else {
                power + keys.power
            })
            &&& steering && keys.angle != 0 ==> k.aim is Some && aimed.0 == (if angle
                + keys.angle < 5 {
                5
            } else if angle + keys.angle > 175 {
                175
            } else {
                angle + keys.angle
            })
            &&& steering && (keys.angle != 0 || keys.power != 0) ==> 5 <= aimed.0 <= 175 && 1
                <= aimed.1 <= 100
            &&& steering && keys.angle == 0 && keys.power != 0 && 5 <= angle <= 175
                ==> aimed.0 == angle
            &&& steering && keys.power == 0 && keys.angle != 0 && 1 <= power <= 100
                ==> aimed.1 == power
            &&& steering && keys.angle == 0 && keys.power == 0 ==> k.aim is None
            &&& steering ==> k.movement == (if keys.movement != 0 {
                keys.movement
            } else {
                movement
            })
            &&& steering ==> k.fire == (fire || keys.fire)
            &&& steering ==> k.weapon == keys.weapon
            &&& !steering ==> k.aim is None && k.weapon is None && k.movement == movement
                && k.fire == fire
        }),
{
}

/// The computer plays the second tank of a solo match; on its turn it
/// confirms the ready prompt and searches for a shot while aiming.
pub proof fn computer_player(mode: Mode, active: usize, phase: Phase)
    ensures
        computer_moves(mode, active) <==> (mode == Mode::Solo && active == 1),
        computer_step_spec(phase) == ComputerStep::GetReady <==> phase == Phase::Ready,
        computer_step_spec(phase) == ComputerStep::Think <==> phase == Phase::Aiming,
{
}

/// A session opens paused and disarmed, with the input given, no window
/// open and no request to leave; a refused save blocks writing and its
/// reason becomes the notice, while a read save leaves no notice.
pub proof fn opening(rejected: Option<String>)
    ensures
        opened(rejected).paused,
        !opened(rejected).armed,
        opened(rejected).enabled,
        !opened(rejected).settings,
        !opened(rejected).restart,
        !opened(rejected).leave,
        opened(rejected).blocked <==> rejected is Some,
        rejected is None ==> opened(rejected).notice is None,
        rejected is Some ==> opened(rejected).notice == Some(Notice::LoadRejected(rejected->0)),
{
}

/// Archiving the refused save unblocks writing, says where the file went,
/// starts a fresh save and writes it; nothing else changes.
pub proof fn archiving(s: AppView, path: String)
    ensures
        step(s, Event::Archived(path)).0 == (AppView {
            blocked: false,
            notice: Some(Notice::Archived(path)),
            ..s
        }),
        step(s, Event::Archived(path)).1 == seq![Effect::ResetSave, Effect::Write],
{
    assert(step(s, Event::Archived(path)).1 =~= seq![Effect::ResetSave, Effect::Write]);
}

} // verus!
