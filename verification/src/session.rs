//! The session around a match: a state machine from the player's and the
//! host's events to the next session state and the effects that the caller
//! carries out (writing the save, resetting clocks, issuing game commands).

use vstd::prelude::*;
use crate::game::{nudge_aim, nudged, Difficulty, Mode, Phase, Weapon};
use crate::notice::Notice;

verus! {

/// Something the caller has to carry out, in the order given.
#[derive(Clone, Copy, Debug, PartialEq, Eq, Structural)]
pub enum Effect {
    /// Bring the save up to date and write it to disk.
    Write,
    /// Drop the time not yet spent on simulation steps.
    ClearAccumulator,
    /// Drop the time collected towards the next movement step.
    ClearMovement,
    /// Abandon the computer's shot search.
    DropSearch,
    /// Start a new match in the save, seeded from the clock.
    NewMatch,
    /// Set the mode and difficulty of the save.
    Configure { mode: Mode, difficulty: Difficulty },
    /// Replace the save with a fresh one.
    ResetSave,
    /// Tell the game that the active player is at the controls.
    Ready,
    /// Tell the game to start the next round.
    NextRound,
    /// Fire the active tank.
    Fire,
    /// Drive the active tank, one step per movement tick, forward or back.
    Move { forward: bool },
    /// Let the computer play if it is its turn.
    ComputerTurn,
}

/// What the host tells the session at the start of a frame.
#[derive(Clone, Copy, Debug, PartialEq, Eq, Structural)]
pub struct FrameInput {
    /// The window has keyboard focus.
    pub focused: bool,
    /// The frame came late (more than a quarter second after the last one).
    pub stalled: bool,
    /// A pointer button or a game key is held down.
    pub held: bool,
    /// Escape was pressed.
    pub escape: bool,
    /// The settings shortcut (Ctrl+Comma) was pressed.
    pub settings_shortcut: bool,
}

/// Which controls are live in a frame.
#[derive(Clone, Copy, Debug, PartialEq, Eq, Structural)]
pub struct Gate {
    /// Input is enabled, the window is focused, play is running and the
    /// controls are armed.
    pub interactive: bool,
    /// Interactive, and a person is aiming.
    pub human: bool,
}

/// The game keys pressed in a frame.
#[derive(Clone, Copy, Debug, PartialEq, Eq, Structural)]
pub struct Keys {
    /// Up minus down: the barrel turn.
    pub angle: i32,
    /// Right minus left: the power change.
    pub power: i32,
    /// D held minus A held: the drive direction.
    pub movement: i8,
    /// Space was pressed.
    pub fire: bool,
    /// A weapon key was pressed.
    pub weapon: Option<Weapon>,
}

/// What the keyboard asks of the game in a frame, merged with the on-screen
/// controls.
#[derive(Clone, Copy, Debug, PartialEq, Eq)]
pub struct Keyboard {
    /// The new aim, when a barrel or power key was pressed.
    pub aim: Option<(u16, u16)>,
    /// The drive direction: the keys' when they drive, else the buttons'.
    pub movement: i8,
    /// Whether to fire.
    pub fire: bool,
    /// The weapon to load.
    pub weapon: Option<Weapon>,
}

/// The events of a session.
#[derive(Clone, Debug, PartialEq, Eq)]
pub enum Event {
    /// The host hides or leaves the game.
    Suspend,
    /// The host gives or takes the input.
    SetInputEnabled(bool),
    /// A new match begins.
    BeginMatch,
    /// Writing the save failed for the given reason.
    WriteFailed(String),
    /// A frame starts.
    Frame(FrameInput),
    /// The header's Pause/Resume button.
    PauseButton,
    /// The header's Settings button.
    SettingsButton,
    /// A Back to Arcade button.
    LeaveButton,
    /// The ready prompt: its button, or Enter.
    ReadyControl { gate: Gate, clicked: bool, enter: bool },
    /// The end of a round: its Next round button, or Enter.
    NextRoundControl { gate: Gate, clicked: bool, enter: bool },
    /// The end of a match: its Play again button.
    PlayAgain { gate: Gate, clicked: bool },
    /// The pause window's Resume button.
    Resume,
    /// The pause window's New match button: ask which match to start.
    NewMatchPrompt,
    /// The pause window's Cancel button under the match choice.
    CancelRestart,
    /// A match was chosen in the pause window.
    ChooseMatch { mode: Mode, difficulty: Difficulty },
    /// The refused save was moved aside to the given path.
    Archived(String),
    /// Moving the refused save aside failed for the given reason.
    ArchiveFailed(String),
    /// The player's driving and firing for the frame.
    Act { gate: Gate, movement: i8, fire: bool },
    /// The tank could not take a step, for the given reason.
    MoveFailed(String),
    /// A simulation step ran; whether a shot flew before it and after it.
    Tick { was_flying: bool, flying: bool },
}

/// The state of a session, as the contracts speak of it.
pub struct AppView {
    /// The save file on disk was refused; nothing is written until it is
    /// archived.
    pub blocked: bool,
    pub notice: Option<Notice>,
    pub paused: bool,
    /// The pause window shows the settings.
    pub settings: bool,
    /// The pause window asks which match to start.
    pub restart: bool,
    /// The host lets the game take input.
    pub enabled: bool,
    /// The controls take a command; disarmed after each command until a
    /// frame passes with nothing held.
    pub armed: bool,
    /// The player asked to go back to the arcade.
    pub leave: bool,
}

/// A game session: pause state, input gating, and the save's write policy.
pub struct App {
    blocked: bool,
    notice: Option<Notice>,
    paused: bool,
    settings: bool,
    restart: bool,
    enabled: bool,
    armed: bool,
    leave: bool,
}

impl View for App {
    type V = AppView;

    closed spec fn view(&self) -> AppView {
        AppView {
            blocked: self.blocked,
            notice: self.notice,
            paused: self.paused,
            settings: self.settings,
            restart: self.restart,
            enabled: self.enabled,
            armed: self.armed,
            leave: self.leave,
        }
    }
}

/// The session opened on a save that was read (`None`) or refused for the
/// given reason.
pub open spec fn opened(rejected: Option<String>) -> AppView {
    AppView {
        blocked: rejected is Some,
        notice: match rejected {
            Some(e) => Some(Notice::LoadRejected(e)),
            None => None,
        },
        paused: true,
        settings: false,
        restart: false,
        enabled: true,
        armed: false,
        leave: false,
    }
}

/// Writing the save: nothing while the save on disk is refused.
pub open spec fn persist_fx(s: AppView) -> Seq<Effect> {
    if s.blocked {
        Seq::empty()
    } else {
        seq![Effect::Write]
    }
}

/// Pausing: disarm, drop both clocks and the search, then write.
pub open spec fn suspend_spec(s: AppView) -> (AppView, Seq<Effect>) {
    let t = AppView { paused: true, armed: false, ..s };
    (t, seq![Effect::ClearAccumulator, Effect::ClearMovement, Effect::DropSearch] + persist_fx(t))
}

/// Resuming: close the pause window and disarm until the keys are released.
pub open spec fn unpause_spec(s: AppView) -> AppView {
    AppView { paused: false, settings: false, restart: false, armed: false, ..s }
}

/// Escape and the Pause button: resume when paused, else pause.
pub open spec fn toggle_spec(s: AppView) -> (AppView, Seq<Effect>) {
    if s.paused {
        (unpause_spec(s), Seq::empty())
    } else {
        suspend_spec(s)
    }
}

/// Pause and show the settings.
pub open spec fn settings_spec(s: AppView) -> (AppView, Seq<Effect>) {
    let (t, f) = suspend_spec(s);
    (AppView { settings: true, ..t }, f)
}

/// Pause and ask to go back to the arcade.
pub open spec fn leave_spec(s: AppView) -> (AppView, Seq<Effect>) {
    let (t, f) = suspend_spec(s);
    (AppView { leave: true, ..t }, f)
}

/// A new match: start it, drop the search, run disarmed, then write.
pub open spec fn begin_spec(s: AppView) -> (AppView, Seq<Effect>) {
    let t = AppView { restart: false, paused: false, armed: false, ..s };
    (t, seq![Effect::NewMatch, Effect::DropSearch, Effect::ClearAccumulator] + persist_fx(t))
}

/// The start of a frame: pause when focus is lost or the frame stalled; arm
/// when nothing is held; then Escape and the settings shortcut.
pub open spec fn frame_spec(s: AppView, i: FrameInput) -> (AppView, Seq<Effect>) {
    let (s1, f1) = if (!i.focused || i.stalled) && !s.paused {
        suspend_spec(s)
    } else {
        (s, Seq::empty())
    };
    let s2 = if !s1.armed && !i.held && i.focused && s1.enabled {
        AppView { armed: true, ..s1 }
    } else {
        s1
    };
    let (s3, f3) = if s2.enabled && i.focused && i.escape {
        toggle_spec(s2)
    } else {
        (s2, Seq::empty())
    };
    let (s4, f4) = if s3.enabled && i.focused && i.settings_shortcut {
        settings_spec(s3)
    } else {
        (s3, Seq::empty())
    };
    (s4, f1 + f3 + f4)
}

/// The player's moves for a frame take effect only when the frame's controls
/// are live, the session runs and the controls are armed; a shot disarms them.
pub open spec fn act_spec(s: AppView, g: Gate, movement: i8, fire: bool) -> (AppView, Seq<Effect>) {
    if g.interactive && !s.paused && s.armed {
        if g.human {
            let mv = if movement != 0 {
                seq![Effect::Move { forward: movement > 0 }]
            } else {
                seq![Effect::ClearMovement]
            };
            if fire {
                (AppView { armed: false, ..s }, mv + seq![Effect::Fire, Effect::ComputerTurn])
            } else {
                (s, mv + seq![Effect::ComputerTurn])
            }
        } else {
            (s, seq![Effect::ComputerTurn])
        }
    } else {
        (s, Seq::empty())
    }
}

/// The session's transition on an event, with the effects to carry out.
pub open spec fn step(s: AppView, e: Event) -> (AppView, Seq<Effect>) {
    match e {
        Event::Suspend => suspend_spec(s),
        Event::SetInputEnabled(b) => if s.enabled && !b {
            let (t, f) = suspend_spec(s);
            (AppView { enabled: b, ..t }, f)
        } else {
            (AppView { enabled: b, ..s }, Seq::empty())
        },
        Event::BeginMatch => begin_spec(s),
        Event::WriteFailed(err) => (
            AppView { notice: Some(Notice::SaveFailed(err)), ..s },
            Seq::empty(),
        ),
        Event::Frame(i) => frame_spec(s, i),
        Event::PauseButton => if s.enabled {
            toggle_spec(s)
        } else {
            (s, Seq::empty())
        },
        Event::SettingsButton => settings_spec(s),
        Event::LeaveButton => leave_spec(s),
        Event::ReadyControl { gate, clicked, enter } => if gate.interactive && (clicked || enter) {
            (AppView { armed: false, ..s }, seq![Effect::Ready])
        } else {
            (s, Seq::empty())
        },
        Event::NextRoundControl { gate, clicked, enter } => if gate.interactive && (clicked
            || enter) {
            let t = AppView { armed: false, ..s };
            (t, seq![Effect::NextRound] + persist_fx(t))
        } else {
            (s, Seq::empty())
        },
        Event::PlayAgain { gate, clicked } => if gate.interactive && clicked {
            begin_spec(s)
        } else {
            (s, Seq::empty())
        },
        Event::Resume => {
            let t = unpause_spec(s);
            (t, persist_fx(t))
        },
        Event::NewMatchPrompt => (AppView { restart: true, ..s }, Seq::empty()),
        Event::CancelRestart => (AppView { restart: false, ..s }, Seq::empty()),
        Event::ChooseMatch { mode, difficulty } => {
            let (t, f) = begin_spec(s);
            (t, seq![Effect::Configure { mode, difficulty }] + f)
        },
        Event::Archived(path) => {
            let t = AppView { blocked: false, notice: Some(Notice::Archived(path)), ..s };
            (t, seq![Effect::ResetSave] + persist_fx(t))
        },
        Event::ArchiveFailed(err) => (
            AppView { notice: Some(Notice::ArchiveFailed(err)), ..s },
            Seq::empty(),
        ),
        Event::Act { gate, movement, fire } => act_spec(s, gate, movement, fire),
        Event::MoveFailed(err) => (
            AppView { notice: Some(Notice::CannotMove(err)), ..s },
            Seq::empty(),
        ),
        Event::Tick { was_flying, flying } => if was_flying && !flying {
            let t = AppView { armed: false, ..s };
            (t, seq![Effect::ClearMovement] + persist_fx(t))
        } else {
            (s, Seq::empty())
        },
    }
}

/// The controls that are live in a frame.
pub open spec fn gate_spec(s: AppView, focused: bool, computer: bool, phase: Phase) -> Gate {
    let interactive = s.enabled && focused && !s.paused && s.armed;
    Gate { interactive, human: interactive && !computer && phase is Aiming }
}

/// The keyboard's part in a frame: it steers only while a person aims with
/// armed controls, play runs and no text field has the keyboard.
pub open spec fn keyboard_spec(
    s: AppView,
    gate: Gate,
    wants_keyboard: bool,
    keys: Keys,
    angle: u16,
    power: u16,
    movement: i8,
    fire: bool,
) -> Keyboard {
    if gate.human && s.armed && !s.paused && !wants_keyboard {
        Keyboard {
            aim: if keys.angle != 0 || keys.power != 0 {
                Some(nudged(angle, power, keys.angle, keys.power))
            } else {
                None
            },
            movement: if keys.movement != 0 {
                keys.movement
            } else {
                movement
            },
            fire: fire || keys.fire,
            weapon: keys.weapon,
        }
    } else {
        Keyboard { aim: None, movement, fire, weapon: None }
    }
}

/// The simulation advances only while play runs, input is enabled and the
/// window is focused.
pub open spec fn ticking_spec(s: AppView, focused: bool) -> bool {
    !s.paused && s.enabled && focused
}

impl App {
    /// A session opened on a save that was read (`None`) or refused for the
    /// given reason. It starts paused; a refused save blocks all writing and
    /// its reason becomes the notice.
    pub fn new(rejected: Option<String>) -> (app: App)
        ensures
            app@ == opened(rejected),
            app@.paused,
            app@.blocked == rejected is Some,
    {
        let blocked = rejected.is_some();
        let notice = match rejected {
            Some(e) => Some(Notice::LoadRejected(e)),
            None => None,
        };
        App {
            blocked,
            notice,
            paused: true,
            settings: false,
            restart: false,
            enabled: true,
            armed: false,
            leave: false,
        }
    }

    fn persist(&self, fx: &mut Vec<Effect>)
        ensures
            final(fx)@ == old(fx)@ + persist_fx(self@),
    {
        if !self.blocked {
            fx.push(Effect::Write);
        }
        assert(fx@ =~= old(fx)@ + persist_fx(self@));
    }

    fn suspend_into(&mut self, fx: &mut Vec<Effect>)
        ensures
            final(self)@ == suspend_spec(old(self)@).0,
            final(fx)@ == old(fx)@ + suspend_spec(old(self)@).1,
    {
        self.paused = true;
        self.armed = false;
        fx.push(Effect::ClearAccumulator);
        fx.push(Effect::ClearMovement);
        fx.push(Effect::DropSearch);
        self.persist(fx);
        assert(fx@ =~= old(fx)@ + suspend_spec(old(self)@).1);
    }

    fn unpause(&mut self)
        ensures
            final(self)@ == unpause_spec(old(self)@),
    {
        self.paused = false;
        self.settings = false;
        self.restart = false;
        self.armed = false;
    }

    fn toggle_into(&mut self, fx: &mut Vec<Effect>)
        ensures
            final(self)@ == toggle_spec(old(self)@).0,
            final(fx)@ == old(fx)@ + toggle_spec(old(self)@).1,
    {
        if self.paused {
            self.unpause();
            assert(fx@ =~= old(fx)@ + toggle_spec(old(self)@).1);
        } else {
            self.suspend_into(fx);
        }
    }

    fn settings_into(&mut self, fx: &mut Vec<Effect>)
        ensures
            final(self)@ == settings_spec(old(self)@).0,
            final(fx)@ == old(fx)@ + settings_spec(old(self)@).1,
    {
        self.suspend_into(fx);
        self.settings = true;
    }

    fn begin_into(&mut self, fx: &mut Vec<Effect>)
        ensures
            final(self)@ == begin_spec(old(self)@).0,
            final(fx)@ == old(fx)@ + begin_spec(old(self)@).1,
    {
        fx.push(Effect::NewMatch);
        fx.push(Effect::DropSearch);
        self.restart = false;
        self.paused = false;
        self.armed = false;
        fx.push(Effect::ClearAccumulator);
        self.persist(fx);
        assert(fx@ =~= old(fx)@ + begin_spec(old(self)@).1);
    }

    fn frame_into(&mut self, i: FrameInput, fx: &mut Vec<Effect>)
        ensures
            final(self)@ == frame_spec(old(self)@, i).0,
            final(fx)@ == old(fx)@ + frame_spec(old(self)@, i).1,
    {
        let ghost s0 = self@;
        let ghost x0 = fx@;
        if (!i.focused || i.stalled) && !self.paused {
            self.suspend_into(fx);
        }
        let ghost x1 = fx@;
        if !self.armed && !i.held && i.focused && self.enabled {
            self.armed = true;
        }
        if self.enabled && i.focused && i.escape {
            self.toggle_into(fx);
        }
        if self.enabled && i.focused && i.settings_shortcut {
            self.settings_into(fx);
        }
        proof {
            let (s1, f1) = if (!i.focused || i.stalled) && !s0.paused {
                suspend_spec(s0)
            } else {
                (s0, Seq::empty())
            };
            assert(x1 =~= x0 + f1);
            assert(fx@ =~= x0 + frame_spec(s0, i).1);
        }
    }

    fn act_into(&mut self, gate: Gate, movement: i8, fire: bool, fx: &mut Vec<Effect>)
        ensures
            final(self)@ == act_spec(old(self)@, gate, movement, fire).0,
            final(fx)@ == old(fx)@ + act_spec(old(self)@, gate, movement, fire).1,
    {
        if gate.interactive && !self.paused && self.armed {
            if gate.human {
                if movement != 0 {
                    fx.push(Effect::Move { forward: movement > 0 });
                } else {
                    fx.push(Effect::ClearMovement);
                }
                if fire {
                    fx.push(Effect::Fire);
                    self.armed = false;
                }
            }
            fx.push(Effect::ComputerTurn);
        }
        assert(fx@ =~= old(fx)@ + act_spec(old(self)@, gate, movement, fire).1);
    }

    /// Carries out an event: the session moves to the next state, and the
    /// effects come back in the order in which the caller performs them.
    pub fn handle(&mut self, event: Event) -> (fx: Vec<Effect>)
        ensures
            final(self)@ == step(old(self)@, event).0,
            fx@ == step(old(self)@, event).1,
    {
        let mut fx: Vec<Effect> = Vec::new();
        match event {
            Event::Suspend => self.suspend_into(&mut fx),
            Event::SetInputEnabled(b) => {
                if self.enabled && !b {
                    self.suspend_into(&mut fx);
                }
                self.enabled = b;
            },
            Event::BeginMatch => self.begin_into(&mut fx),
            Event::WriteFailed(err) => {
                self.notice = Some(Notice::SaveFailed(err));
            },
            Event::Frame(i) => self.frame_into(i, &mut fx),
            Event::PauseButton => {
                if self.enabled {
                    self.toggle_into(&mut fx);
                }
            },
            Event::SettingsButton => self.settings_into(&mut fx),
            Event::LeaveButton => {
                self.suspend_into(&mut fx);
                self.leave = true;
            },
            Event::ReadyControl { gate, clicked, enter } => {
                if gate.interactive && (clicked || enter) {
                    fx.push(Effect::Ready);
                    self.armed = false;
                }
            },
            Event::NextRoundControl { gate, clicked, enter } => {
                if gate.interactive && (clicked || enter) {
                    fx.push(Effect::NextRound);
                    self.armed = false;
                    self.persist(&mut fx);
                }
            },
            Event::PlayAgain { gate, clicked } => {
                if gate.interactive && clicked {
                    self.begin_into(&mut fx);
                }
            },
            Event::Resume => {
                self.unpause();
                self.persist(&mut fx);
            },
            Event::NewMatchPrompt => {
                self.restart = true;
            },
            Event::CancelRestart => {
                self.restart = false;
            },
            Event::ChooseMatch { mode, difficulty } => {
                fx.push(Effect::Configure { mode, difficulty });
                self.begin_into(&mut fx);
            },
            Event::Archived(path) => {
                self.blocked = false;
                fx.push(Effect::ResetSave);
                self.notice = Some(Notice::Archived(path));
                self.persist(&mut fx);
            },
            Event::ArchiveFailed(err) => {
                self.notice = Some(Notice::ArchiveFailed(err));
            },
            Event::Act { gate, movement, fire } => self.act_into(gate, movement, fire, &mut fx),
            Event::MoveFailed(err) => {
                self.notice = Some(Notice::CannotMove(err));
            },
            Event::Tick { was_flying, flying } => {
                if was_flying && !flying {
                    self.armed = false;
                    fx.push(Effect::ClearMovement);
                    self.persist(&mut fx);
                }
            },
        }
        fx
    }
}

impl App {
    /// Pauses the session: disarms the controls, drops the clocks and the
    /// computer's search, and writes the save unless it is blocked.
    pub fn suspend(&mut self) -> (fx: Vec<Effect>)
        ensures
            final(self)@ == suspend_spec(old(self)@).0,
            fx@ == suspend_spec(old(self)@).1,
            final(self)@.paused,
            !final(self)@.armed,
            fx@.contains(Effect::Write) <==> !old(self)@.blocked,
    {
        let fx = self.handle(Event::Suspend);
        proof {
            if !old(self)@.blocked {
                assert(fx@[3] == Effect::Write);
            }
        }
        fx
    }

    /// Gives or takes the input. Taking it from a session that had it pauses
    /// the session first.
    pub fn set_input_enabled(&mut self, enabled: bool) -> (fx: Vec<Effect>)
        ensures
            final(self)@ == step(old(self)@, Event::SetInputEnabled(enabled)).0,
            fx@ == step(old(self)@, Event::SetInputEnabled(enabled)).1,
            final(self)@.enabled == enabled,
            old(self)@.enabled && !enabled ==> final(self)@.paused && !final(self)@.armed,
    {
        self.handle(Event::SetInputEnabled(enabled))
    }

    /// Whether the player asked to go back to the arcade.
    pub fn finished(&mut self) -> (r: bool)
        ensures
            r == old(self)@.leave,
            final(self)@ == old(self)@,
    {
        self.leave
    }

    /// Starts a new match and runs it at once, disarmed.
    pub fn begin_match(&mut self) -> (fx: Vec<Effect>)
        ensures
            final(self)@ == begin_spec(old(self)@).0,
            fx@ == begin_spec(old(self)@).1,
    {
        self.handle(Event::BeginMatch)
    }

    /// The start of a frame: pauses when the window lost focus or the frame
    /// stalled, arms the controls once nothing is held, then handles Escape
    /// (pause or resume) and the settings shortcut.
    pub fn frame(&mut self, input: FrameInput) -> (fx: Vec<Effect>)
        ensures
            final(self)@ == frame_spec(old(self)@, input).0,
            fx@ == frame_spec(old(self)@, input).1,
    {
        self.handle(Event::Frame(input))
    }

    /// The controls that are live for the rest of the frame, given whether
    /// the window has focus, whether the computer is to move, and the phase.
    pub fn gate(&self, focused: bool, computer: bool, phase: &Phase) -> (g: Gate)
        ensures
            g == gate_spec(self@, focused, computer, *phase),
    {
        let interactive = self.enabled && focused && !self.paused && self.armed;
        let aiming = match phase {
            Phase::Aiming => true,
            _ => false,
        };
        Gate { interactive, human: interactive && !computer && aiming }
    }

    /// The keyboard's commands for the frame, merged with the on-screen
    /// drive direction `movement` and fire button `fire`. The barrel and
    /// power keys nudge the aim from `angle` and `power`.
    pub fn keyboard(
        &self,
        gate: Gate,
        wants_keyboard: bool,
        keys: Keys,
        angle: u16,
        power: u16,
        movement: i8,
        fire: bool,
    ) -> (k: Keyboard)
        ensures
            k == keyboard_spec(self@, gate, wants_keyboard, keys, angle, power, movement, fire),
    {
        if gate.human && self.armed && !self.paused && !wants_keyboard {
            let aim = if keys.angle != 0 || keys.power != 0 {
                Some(nudge_aim(angle, power, keys.angle, keys.power))
            } else {
                None
            };
            Keyboard {
                aim,
                movement: if keys.movement != 0 {
                    keys.movement
                } else {
                    movement
                },
                fire: fire || keys.fire,
                weapon: keys.weapon,
            }
        } else {
            Keyboard { aim: None, movement, fire, weapon: None }
        }
    }

    /// Whether the simulation advances this frame; when it does not, the
    /// caller drops the time it had collected.
    pub fn ticking(&self, focused: bool) -> (r: bool)
        ensures
            r == ticking_spec(self@, focused),
    {
        !self.paused && self.enabled && focused
    }

    pub fn is_paused(&self) -> (r: bool)
        ensures
            r == self@.paused,
    {
        self.paused
    }

    pub fn is_blocked(&self) -> (r: bool)
        ensures
            r == self@.blocked,
    {
        self.blocked
    }

    pub fn is_armed(&self) -> (r: bool)
        ensures
            r == self@.armed,
    {
        self.armed
    }

    pub fn input_enabled(&self) -> (r: bool)
        ensures
            r == self@.enabled,
    {
        self.enabled
    }

    /// Whether the pause window shows the settings.
    pub fn settings_open(&self) -> (r: bool)
        ensures
            r == self@.settings,
    {
        self.settings
    }

    /// Whether the pause window asks which match to start.
    pub fn restart_prompt(&self) -> (r: bool)
        ensures
            r == self@.restart,
    {
        self.restart
    }

    pub fn notice(&self) -> (r: &Option<Notice>)
        ensures
            *r == self@.notice,
    {
        &self.notice
    }
}

} // verus!
