use tanks::game::{ai_turn, Mode, Phase};
use tanks::session::{App, Effect, Event, FrameInput, Keys};

/// A stand-in for the game and the disk, driven the way the window drives
/// the session each frame.
struct Table {
    app: App,
    mode: Mode,
    phase: Phase,
    active: usize,
    /// The bytes of the save file.
    disk: Vec<u8>,
    writes: usize,
}

#[derive(Clone, Copy, PartialEq)]
enum Input {
    Nothing,
    Key(&'static str, bool),
    Pointer(bool),
}

impl Table {
    fn open(disk: &[u8]) -> Table {
        let rejected = if disk == b"future-save" {
            Some("unsupported save version".to_string())
        } else {
            None
        };
        Table {
            app: App::new(rejected),
            mode: Mode::Solo,
            phase: Phase::Ready,
            active: 0,
            disk: disk.to_vec(),
            writes: 0,
        }
    }

    fn snapshot(&self) -> Vec<u8> {
        format!("{:?}/{:?}/{}", self.mode, self.phase, self.active).into_bytes()
    }

    fn apply(&mut self, fx: Vec<Effect>) {
        for f in fx {
            match f {
                Effect::Write => {
                    self.disk = self.snapshot();
                    self.writes += 1;
                }
                Effect::Ready => {
                    if self.phase == Phase::Ready {
                        self.phase = Phase::Aiming;
                    }
                }
                Effect::Fire => {
                    if self.phase == Phase::Aiming {
                        self.phase = Phase::Flying;
                    }
                }
                Effect::NewMatch => {
                    self.phase = Phase::Ready;
                    self.active = 0;
                }
                _ => {}
            }
        }
    }

    /// One frame, with the window focused.
    fn frame(&mut self, input: Input) {
        let (held, pressed) = match input {
            Input::Nothing => (false, None),
            Input::Key(k, down) => (down && k != "Escape" && k != "Enter", if down { Some(k) } else { None }),
            Input::Pointer(down) => (down, None),
        };
        let fx = self.app.frame(FrameInput {
            focused: true,
            stalled: false,
            held,
            escape: pressed == Some("Escape"),
            settings_shortcut: false,
        });
        self.apply(fx);
        let computer = ai_turn(self.mode, self.active);
        let gate = self.app.gate(true, computer, &self.phase);
        // The on-screen fire button reports its click when the pointer is released.
        let fire_button = gate.human && input == Input::Pointer(false);
        if self.phase == Phase::Ready {
            let fx = self.app.handle(Event::ReadyControl {
                gate,
                clicked: false,
                enter: pressed == Some("Enter"),
            });
            self.apply(fx);
        }
        let keys = Keys {
            angle: 0,
            power: 0,
            movement: 0,
            fire: pressed == Some("Space"),
            weapon: None,
        };
        let k = self.app.keyboard(gate, false, keys, 45, 50, 0, fire_button);
        let fx = self.app.handle(Event::Act { gate, movement: k.movement, fire: k.fire });
        self.apply(fx);
    }

    fn key(&mut self, key: &'static str) {
        self.frame(Input::Key(key, true));
        self.frame(Input::Key(key, false));
    }

    fn click(&mut self) {
        self.frame(Input::Pointer(true));
        self.frame(Input::Pointer(false));
    }
}

#[test]
fn keyboard_handover_pause_host_blocking_and_exact_reopen() {
    let mut t = Table::open(b"");
    t.mode = Mode::Local;
    t.frame(Input::Nothing);
    t.key("Space");
    assert_eq!(t.phase, Phase::Ready);
    t.key("Escape");
    t.key("Enter");
    assert_eq!(t.phase, Phase::Aiming);
    t.key("Space");
    assert_eq!(t.phase, Phase::Flying);
    t.key("Escape");
    let snapshot = t.snapshot();
    t.key("Space");
    assert_eq!(t.snapshot(), snapshot);
    let fx = t.app.set_input_enabled(false);
    t.apply(fx);
    t.key("Escape");
    assert!(t.app.is_paused());
    assert_eq!(t.snapshot(), snapshot);
    let fx = t.app.suspend();
    t.apply(fx);
    let reopened = Table::open(&t.disk);
    assert!(reopened.app.is_paused());
    assert_eq!(reopened.disk, snapshot);
}

#[test]
fn mouse_fire_commits_once_and_paused_clicks_cannot_fire() {
    let mut t = Table::open(b"");
    t.mode = Mode::Local;
    t.apply(vec![Effect::Ready]);
    let fx = t.app.handle(Event::PauseButton);
    t.apply(fx);
    assert!(!t.app.is_paused());
    t.frame(Input::Nothing);
    t.click();
    assert_eq!(t.phase, Phase::Flying);
    let fx = t.app.suspend();
    t.apply(fx);
    let before = t.snapshot();
    t.click();
    assert_eq!(t.snapshot(), before);
}

#[test]
fn rejected_save_stays_untouched_through_play_and_exit() {
    let mut t = Table::open(b"future-save");
    assert!(t.app.is_blocked());
    let fx = t.app.begin_match();
    t.apply(fx);
    let fx = t.app.suspend();
    t.apply(fx);
    assert_eq!(t.disk, b"future-save".to_vec());
    assert_eq!(t.writes, 0);
}

#[test]
fn fire_button_held_over_frames_fires_once() {
    let mut t = Table::open(b"");
    t.mode = Mode::Local;
    t.apply(vec![Effect::Ready]);
    let fx = t.app.handle(Event::PauseButton);
    t.apply(fx);
    t.frame(Input::Nothing);
    let gate = t.app.gate(true, false, &Phase::Aiming);
    let first = t.app.handle(Event::Act { gate, movement: 0, fire: true });
    assert_eq!(first, vec![Effect::ClearMovement, Effect::Fire, Effect::ComputerTurn]);
    let second = t.app.handle(Event::Act { gate, movement: 0, fire: true });
    assert_eq!(second, vec![]);
    // A frame with the key still held does not re-arm the controls.
    t.frame(Input::Key("Space", true));
    assert!(!t.app.is_armed());
    t.frame(Input::Nothing);
    assert!(t.app.is_armed());
}
