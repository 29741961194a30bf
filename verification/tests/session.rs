use tanks::game::{ai_turn, computer_step, nudge_aim, ComputerStep, Difficulty, Mode, Phase, Weapon};
use tanks::notice::Notice;
use tanks::session::{App, Effect, Event, FrameInput, Gate, Keys};

fn running() -> App {
    let mut app = App::new(None);
    app.handle(Event::PauseButton);
    app.frame(FrameInput { focused: true, stalled: false, held: false, escape: false, settings_shortcut: false });
    app
}

fn quiet(focused: bool) -> FrameInput {
    FrameInput { focused, stalled: false, held: false, escape: false, settings_shortcut: false }
}

#[test]
fn new_session_starts_paused() {
    let app = App::new(None);
    assert!(app.is_paused());
    assert!(!app.is_blocked());
    assert!(!app.is_armed());
    assert!(app.input_enabled());
    assert_eq!(app.notice(), &None);
}

#[test]
fn refused_save_blocks_and_shows_reason() {
    let app = App::new(Some("bad version".to_string()));
    assert!(app.is_blocked());
    assert!(app.is_paused());
    assert_eq!(app.notice(), &Some(Notice::LoadRejected("bad version".to_string())));
}

#[test]
fn suspend_writes_unless_blocked() {
    let mut app = running();
    assert_eq!(
        app.suspend(),
        vec![Effect::ClearAccumulator, Effect::ClearMovement, Effect::DropSearch, Effect::Write]
    );
    assert!(app.is_paused());
    assert!(!app.is_armed());
    let mut blocked = App::new(Some("x".to_string()));
    assert_eq!(
        blocked.suspend(),
        vec![Effect::ClearAccumulator, Effect::ClearMovement, Effect::DropSearch]
    );
}

#[test]
fn suspend_twice_is_suspend_once() {
    let mut app = running();
    let a = app.suspend();
    let b = app.suspend();
    assert_eq!(a, b);
    assert!(app.is_paused());
}

#[test]
fn losing_focus_pauses() {
    let mut app = running();
    let fx = app.frame(quiet(false));
    assert!(app.is_paused());
    assert_eq!(fx.last(), Some(&Effect::Write));
}

#[test]
fn stalled_frame_pauses() {
    let mut app = running();
    app.frame(FrameInput { focused: true, stalled: true, held: false, escape: false, settings_shortcut: false });
    assert!(app.is_paused());
}

#[test]
fn escape_toggles_pause() {
    let mut app = running();
    let esc = FrameInput { focused: true, stalled: false, held: false, escape: true, settings_shortcut: false };
    app.frame(esc);
    assert!(app.is_paused());
    let fx = app.frame(esc);
    assert!(!app.is_paused());
    assert!(!app.is_armed());
    assert_eq!(fx, vec![]);
}

#[test]
fn settings_shortcut_pauses_and_opens_settings() {
    let mut app = running();
    app.frame(FrameInput { focused: true, stalled: false, held: false, escape: false, settings_shortcut: true });
    assert!(app.is_paused());
    assert!(app.settings_open());
}

#[test]
fn pause_button_ignored_while_input_disabled() {
    let mut app = App::new(None);
    let fx = app.set_input_enabled(false);
    assert_eq!(fx.len(), 4);
    assert!(!app.input_enabled());
    assert_eq!(app.handle(Event::PauseButton), vec![]);
    assert!(app.is_paused());
    app.frame(FrameInput { focused: true, stalled: false, held: false, escape: true, settings_shortcut: false });
    assert!(app.is_paused());
    assert!(!app.is_armed());
}

#[test]
fn enabling_input_does_not_resume() {
    let mut app = App::new(None);
    app.set_input_enabled(false);
    assert_eq!(app.set_input_enabled(true), vec![]);
    assert!(app.is_paused());
    assert!(app.input_enabled());
}

#[test]
fn arming_waits_for_release() {
    let mut app = App::new(None);
    app.handle(Event::PauseButton);
    app.frame(FrameInput { focused: true, stalled: false, held: true, escape: false, settings_shortcut: false });
    assert!(!app.is_armed());
    app.frame(quiet(true));
    assert!(app.is_armed());
}

#[test]
fn gate_needs_a_person_aiming() {
    let app = running();
    assert_eq!(app.gate(true, false, &Phase::Aiming), Gate { interactive: true, human: true });
    assert_eq!(app.gate(true, true, &Phase::Aiming), Gate { interactive: true, human: false });
    assert_eq!(app.gate(true, false, &Phase::Flying), Gate { interactive: true, human: false });
    assert_eq!(app.gate(false, false, &Phase::Aiming), Gate { interactive: false, human: false });
    let paused = App::new(None);
    assert_eq!(paused.gate(true, false, &Phase::Aiming), Gate { interactive: false, human: false });
}

#[test]
fn act_drives_and_fires() {
    let mut app = running();
    let gate = Gate { interactive: true, human: true };
    assert_eq!(
        app.handle(Event::Act { gate, movement: -1, fire: false }),
        vec![Effect::Move { forward: false }, Effect::ComputerTurn]
    );
    assert_eq!(
        app.handle(Event::Act { gate, movement: 1, fire: true }),
        vec![Effect::Move { forward: true }, Effect::Fire, Effect::ComputerTurn]
    );
    assert!(!app.is_armed());
    let mut watcher = running();
    assert_eq!(
        watcher.handle(Event::Act { gate: Gate { interactive: true, human: false }, movement: 1, fire: true }),
        vec![Effect::ComputerTurn]
    );
}

#[test]
fn paused_act_does_nothing() {
    let mut app = App::new(None);
    let gate = Gate { interactive: true, human: true };
    assert_eq!(app.handle(Event::Act { gate, movement: 1, fire: true }), vec![]);
}

#[test]
fn keyboard_steers_only_when_armed_and_aiming() {
    let app = running();
    let gate = Gate { interactive: true, human: true };
    let keys = Keys { angle: 1, power: -1, movement: 1, fire: true, weapon: Some(Weapon::Heavy) };
    let k = app.keyboard(gate, false, keys, 175, 1, 0, false);
    assert_eq!(k.aim, Some((175, 1)));
    assert_eq!(k.movement, 1);
    assert!(k.fire);
    assert_eq!(k.weapon, Some(Weapon::Heavy));
    let typing = app.keyboard(gate, true, keys, 90, 50, -1, false);
    assert_eq!(typing.aim, None);
    assert_eq!(typing.movement, -1);
    assert!(!typing.fire);
    assert_eq!(typing.weapon, None);
    let still = Keys { angle: 0, power: 0, movement: 0, fire: false, weapon: None };
    let k = app.keyboard(gate, false, still, 90, 50, -1, true);
    assert_eq!(k.aim, None);
    assert_eq!(k.movement, -1);
    assert!(k.fire);
}

#[test]
fn nudge_aim_clamps() {
    assert_eq!(nudge_aim(90, 50, 1, -1), (91, 49));
    assert_eq!(nudge_aim(5, 1, -1, -1), (5, 1));
    assert_eq!(nudge_aim(175, 100, 1, 1), (175, 100));
    assert_eq!(nudge_aim(0, 0, 0, 0), (5, 1));
    assert_eq!(nudge_aim(60, 60, i32::MIN, i32::MAX), (5, 100));
}

#[test]
fn computer_plays_second_tank_in_solo() {
    assert!(ai_turn(Mode::Solo, 1));
    assert!(!ai_turn(Mode::Solo, 0));
    assert!(!ai_turn(Mode::Local, 1));
    assert_eq!(computer_step(&Phase::Ready), ComputerStep::GetReady);
    assert_eq!(computer_step(&Phase::Aiming), ComputerStep::Think);
    assert_eq!(computer_step(&Phase::Flying), ComputerStep::Wait);
    assert_eq!(computer_step(&Phase::MatchOver { winner: 0 }), ComputerStep::Wait);
}

#[test]
fn round_and_match_controls() {
    let mut app = running();
    let open = Gate { interactive: true, human: false };
    let shut = Gate { interactive: false, human: false };
    assert_eq!(app.handle(Event::ReadyControl { gate: shut, clicked: true, enter: true }), vec![]);
    assert_eq!(app.handle(Event::ReadyControl { gate: open, clicked: false, enter: true }), vec![Effect::Ready]);
    assert!(!app.is_armed());
    assert_eq!(
        app.handle(Event::NextRoundControl { gate: open, clicked: true, enter: false }),
        vec![Effect::NextRound, Effect::Write]
    );
    assert_eq!(app.handle(Event::PlayAgain { gate: open, clicked: false }), vec![]);
    assert_eq!(
        app.handle(Event::PlayAgain { gate: open, clicked: true }),
        vec![Effect::NewMatch, Effect::DropSearch, Effect::ClearAccumulator, Effect::Write]
    );
    assert!(!app.is_paused());
}

#[test]
fn pause_window_controls() {
    let mut app = App::new(None);
    app.handle(Event::NewMatchPrompt);
    assert!(app.restart_prompt());
    app.handle(Event::CancelRestart);
    assert!(!app.restart_prompt());
    app.handle(Event::NewMatchPrompt);
    let fx = app.handle(Event::ChooseMatch { mode: Mode::Solo, difficulty: Difficulty::Easy });
    assert_eq!(
        fx,
        vec![
            Effect::Configure { mode: Mode::Solo, difficulty: Difficulty::Easy },
            Effect::NewMatch,
            Effect::DropSearch,
            Effect::ClearAccumulator,
            Effect::Write
        ]
    );
    assert!(!app.is_paused());
    assert!(!app.restart_prompt());
    app.handle(Event::SettingsButton);
    assert!(app.settings_open());
    assert_eq!(app.handle(Event::Resume), vec![Effect::Write]);
    assert!(!app.is_paused());
    assert!(!app.settings_open());
    app.handle(Event::LeaveButton);
    assert!(app.is_paused());
    assert!(app.finished());
}

#[test]
fn archive_lifts_block() {
    let mut app = App::new(Some("old".to_string()));
    app.handle(Event::ArchiveFailed("denied".to_string()));
    assert!(app.is_blocked());
    assert_eq!(app.notice().as_ref().unwrap().text(), "Archive failed; original retained: denied");
    let fx = app.handle(Event::Archived("/tmp/tanks.json.bak".to_string()));
    assert_eq!(fx, vec![Effect::ResetSave, Effect::Write]);
    assert!(!app.is_blocked());
    assert_eq!(app.notice().as_ref().unwrap().text(), "Original archived to /tmp/tanks.json.bak");
}

#[test]
fn landing_disarms_and_writes() {
    let mut app = running();
    assert_eq!(app.handle(Event::Tick { was_flying: true, flying: true }), vec![]);
    assert_eq!(app.handle(Event::Tick { was_flying: false, flying: false }), vec![]);
    assert_eq!(
        app.handle(Event::Tick { was_flying: true, flying: false }),
        vec![Effect::ClearMovement, Effect::Write]
    );
    assert!(!app.is_armed());
    assert!(app.ticking(true));
    assert!(!app.ticking(false));
}

#[test]
fn notices_read_as_shown() {
    let mut app = running();
    app.handle(Event::WriteFailed("disk full".to_string()));
    assert_eq!(app.notice().as_ref().unwrap().text(), "Could not save: disk full");
    app.handle(Event::MoveFailed("OutOfFuel".to_string()));
    assert_eq!(app.notice().as_ref().unwrap().text(), "Cannot move: OutOfFuel");
    assert_eq!(Notice::LoadRejected("bad".to_string()).text(), "bad");
}

#[test]
fn leaving_stays_requested() {
    let mut app = running();
    app.handle(Event::LeaveButton);
    app.handle(Event::Resume);
    app.handle(Event::BeginMatch);
    assert!(app.finished());
    assert!(app.input_enabled());
}
