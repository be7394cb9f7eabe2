//! "When done" power actions behind their cancellable countdown.
use crate::app::{App, AppModel};
use crate::effect::{Effect, EffectModel};
use crate::model::PowerAction;
use crate::notes::{Note, NoteModel};
use crate::state::{PowerPrompt, WinKind, POWER_COUNTDOWN_SECS};
use vstd::prelude::*;

verus! {

impl AppModel {
    /// The countdown goes up. A countdown that is already up stays, and the
    /// stricter of the two wins.
    #[verifier::opaque]
    pub open spec fn arm_power_action(self, action: PowerAction, exit_after: bool) -> AppModel {
        let s = self.save_all();
        match s.power {
            Some(p) => s.with_power(
                Some(PowerPrompt { exit_after: p.exit_after || exit_after, ..p }),
            ),
            None => s.note(NoteModel::PowerArmed { action }).with_power(
                Some(PowerPrompt { action, secs: POWER_COUNTDOWN_SECS, exit_after }),
            ).open_window(WinKind::Power),
        }
    }

    pub open spec fn with_power(self, p: Option<PowerPrompt>) -> AppModel {
        AppModel { power: p, ..self }
    }

    /// The countdown ran out, or the user would not wait: everything is stored
    /// and the action runs. The program exits with the session, or where a
    /// queue asked it to.
    #[verifier::opaque]
    pub open spec fn fire_power_action(self) -> AppModel {
        match self.power {
            Some(p) => {
                let s = self.with_power(None).close_window(WinKind::Power).save_all().emit(
                    EffectModel::Power(p.action),
                );
                if p.action.ends() || p.exit_after {
                    s.emit(EffectModel::Exit)
                } else {
                    s
                }
            },
            None => self,
        }
    }

    /// The action is called off. "Exit when done" is a separate instruction
    /// and still stands.
    #[verifier::opaque]
    pub open spec fn cancel_power_action(self) -> AppModel {
        match self.power {
            Some(p) => {
                let s = self.with_power(None).note(
                    NoteModel::PowerCancelled { action: p.action },
                ).close_window(WinKind::Power);
                if p.exit_after {
                    s.save_all().emit(EffectModel::Exit)
                } else {
                    s
                }
            },
            None => self,
        }
    }

    /// One second of the countdown.
    #[verifier::opaque]
    pub open spec fn power_tick(self) -> AppModel {
        match self.power {
            Some(p) => {
                let left: u8 = if p.secs > 0 {
                    (p.secs - 1) as u8
                } else {
                    0
                };
                let s = self.with_power(Some(PowerPrompt { secs: left, ..p }));
                if left == 0 {
                    s.fire_power_action()
                } else {
                    s
                }
            },
            None => self,
        }
    }
}

impl App {
    fn power_prompt(&self) -> (r: Option<PowerPrompt>)
        ensures
            r == self@.power,
    {
        proof {
            reveal(App::model);
        }
        self.power
    }

    fn set_power(&mut self, p: Option<PowerPrompt>)
        ensures
            final(self)@ == old(self)@.with_power(p),
    {
        proof {
            reveal(App::model);
        }
        self.power = p;
    }

    /// Arm a "when done" power action behind its countdown. Nothing happens to
    /// the machine here. Everything is stored up front all the same: the
    /// countdown ends in a call that can stop the process where it stands.
    pub(crate) fn arm_power_action(&mut self, action: PowerAction, exit_after: bool)
        ensures
            final(self)@ == old(self)@.arm_power_action(action, exit_after),
    {
        proof {
            reveal(AppModel::arm_power_action);
        }
        self.save_all();
        match self.power_prompt() {
            Some(p) => {
                self.set_power(
                    Some(
                        PowerPrompt {
                            action: p.action,
                            secs: p.secs,
                            exit_after: p.exit_after || exit_after,
                        },
                    ),
                );
            },
            None => {
                self.note(Note::PowerArmed { action });
                self.set_power(
                    Some(PowerPrompt { action, secs: POWER_COUNTDOWN_SECS, exit_after }),
                );
                self.open_window(WinKind::Power);
            },
        }
    }

    /// The countdown ran out (or "now" was pressed): do it.
    pub(crate) fn fire_power_action(&mut self)
        ensures
            final(self)@ == old(self)@.fire_power_action(),
    {
        proof {
            reveal(AppModel::fire_power_action);
        }
        match self.power_prompt() {
            Some(p) => {
                self.set_power(None);
                self.close_window(WinKind::Power);
                self.save_all();
                self.emit(Effect::Power(p.action));
                if p.action.ends_session() || p.exit_after {
                    self.emit(Effect::Exit);
                }
            },
            None => {},
        }
    }

    /// Call the pending power action off.
    pub(crate) fn cancel_power_action(&mut self)
        ensures
            final(self)@ == old(self)@.cancel_power_action(),
    {
        proof {
            reveal(AppModel::cancel_power_action);
        }
        match self.power_prompt() {
            Some(p) => {
                self.set_power(None);
                self.note(Note::PowerCancelled { action: p.action });
                self.close_window(WinKind::Power);
                if p.exit_after {
                    self.save_all();
                    self.emit(Effect::Exit);
                }
            },
            None => {},
        }
    }

    pub(crate) fn power_tick(&mut self)
        ensures
            final(self)@ == old(self)@.power_tick(),
    {
        proof {
            reveal(AppModel::power_tick);
        }
        match self.power_prompt() {
            Some(p) => {
                let left: u8 = p.secs.saturating_sub(1);
                self.set_power(
                    Some(PowerPrompt { action: p.action, secs: left, exit_after: p.exit_after }),
                );
                if left == 0 {
                    self.fire_power_action();
                }
            },
            None => {},
        }
    }
}

// ---------------------------------------------------------------------- laws

/// Cancelling never touches the machine: it asks for no power action.
pub proof fn cancelling_leaves_the_machine_alone(s: AppModel)
    requires
        s.power is Some,
    ensures
        s.cancel_power_action().power is None,
        forall|i: int|
            s.out.len() <= i < s.cancel_power_action().out.len()
                ==> !((#[trigger] s.cancel_power_action().out[i]) is Power),
{
    reveal(AppModel::cancel_power_action);
    reveal(AppModel::close_window);
}

/// Where the program leaves with the countdown, run out or cancelled, nothing
/// that was marked stays unsaved.
pub proof fn leaving_with_the_countdown_saves_everything(s: AppModel)
    requires
        s.power is Some,
        s.power->0.exit_after,
    ensures
        s.cancel_power_action().out.last() == EffectModel::Exit,
        s.fire_power_action().out.last() == EffectModel::Exit,
        !s.cancel_power_action().dirty.state && !s.cancel_power_action().dirty.cfg,
        !s.fire_power_action().dirty.state && !s.fire_power_action().dirty.cfg,
{
    reveal(AppModel::cancel_power_action);
    reveal(AppModel::fire_power_action);
    reveal(AppModel::close_window);
}

} // verus!
