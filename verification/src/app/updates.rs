//! The update dialog.
use crate::app::{App, AppModel};
use crate::effect::{Effect, EffectModel};
use crate::notes::{Note, NoteModel};
use crate::state::{
    ConfirmKind, ConfirmKindModel, UpdatePhase, UpdatePhaseModel, UpdateUiState, UpdateUiStateModel,
    WinKind,
};
use crate::text::{begins, starts_with};
use crate::twin::Twin;
use crate::update::{UpdateEvent, UpdateInfo};
use vstd::prelude::*;

verus! {

/// What a check for a newer release has found.
pub type Checked = Result<Option<UpdateInfo>, String>;

impl AppModel {
    pub open spec fn with_updater(self, u: UpdateUiStateModel) -> AppModel {
        AppModel { updater: u, ..self }
    }

    /// A check has ended. A newer release is always offered; the other
    /// outcomes are told only to a user who asked.
    #[verifier::opaque]
    pub open spec fn update_checked(self, res: Checked) -> AppModel {
        let s = self.with_updater(UpdateUiStateModel { manual: false, ..self.updater });
        match res {
            Ok(Some(info)) => s.note(
                NoteModel::UpdateFound { version: info@.version },
            ).with_updater(
                UpdateUiStateModel { info: Some(info@), ..UpdateUiStateModel::empty() },
            ).open_window(WinKind::Update),
            Ok(None) => if self.updater.manual {
                s.ask(ConfirmKindModel::UpToDate)
            } else {
                s
            },
            Err(e) => {
                let t = s.note(NoteModel::UpdateCheckFailed { error: e@ });
                if self.updater.manual {
                    t.ask(ConfirmKindModel::UpdateCheckFailed(e@))
                } else {
                    t
                }
            },
        }
    }

    /// The download of the offered release starts, where the program may
    /// install it itself and nothing is under way.
    #[verifier::opaque]
    pub open spec fn update_now(self) -> AppModel {
        match self.updater.info {
            Some(info) => {
                let s = self.note(NoteModel::UpdateChosen { version: info.version });
                if info.in_place && (self.updater.phase is Idle || self.updater.phase is Failed) {
                    s.with_updater(
                        UpdateUiStateModel {
                            running: true,
                            phase: UpdatePhaseModel::Downloading {
                                got: 0,
                                total: if info.size > 0 {
                                    Some(info.size)
                                } else {
                                    None
                                },
                            },
                            ..self.updater
                        },
                    ).emit(EffectModel::RunUpdate(info))
                } else {
                    s
                }
            },
            None => self,
        }
    }

    /// Cancel calls a download off; once the files are being swapped it is too
    /// late.
    #[verifier::opaque]
    pub open spec fn update_cancel(self) -> AppModel {
        match self.updater.phase {
            UpdatePhaseModel::Downloading { .. } => if self.updater.running {
                self.emit(EffectModel::CancelUpdate)
            } else {
                self
            },
            UpdatePhaseModel::Verifying => self,
            UpdatePhaseModel::Preparing => self,
            UpdatePhaseModel::Restarting => self,
            _ => self.forget_update(),
        }
    }

    /// The offer goes, and its dialog.
    #[verifier::opaque]
    pub open spec fn forget_update(self) -> AppModel {
        self.with_updater(UpdateUiStateModel::empty()).close_window(WinKind::Update)
    }

    /// The dialog was closed from outside: as Cancel, unless the finisher runs.
    #[verifier::opaque]
    pub open spec fn update_closed(self) -> AppModel {
        if self.updater.phase is Restarting {
            self
        } else {
            (if self.updater.running {
                self.emit(EffectModel::CancelUpdate)
            } else {
                self
            }).with_updater(UpdateUiStateModel::empty())
        }
    }

    #[verifier::opaque]
    pub open spec fn update_open_page(self) -> AppModel {
        match self.updater.info {
            Some(info) => if info.html_url.len() > 0 {
                self.emit(EffectModel::OpenPath(info.html_url))
            } else {
                self
            },
            None => self,
        }
    }

    /// A link out of the release notes; only web addresses are opened.
    #[verifier::opaque]
    pub open spec fn update_open_url(self, url: Seq<char>) -> AppModel {
        if begins(url, "https://"@) || begins(url, "http://"@) {
            self.emit(EffectModel::OpenPath(url))
        } else {
            self
        }
    }

    pub open spec fn with_phase(self, p: UpdatePhaseModel) -> AppModel {
        self.with_updater(UpdateUiStateModel { phase: p, ..self.updater })
    }

    /// A running update has got further.
    #[verifier::opaque]
    pub open spec fn on_update(self, ev: UpdateEvent) -> AppModel {
        match ev {
            UpdateEvent::Progress(got, total) => match self.updater.phase {
                UpdatePhaseModel::Downloading { total: known, .. } => self.with_phase(
                    UpdatePhaseModel::Downloading {
                        got,
                        total: if total is Some {
                            total
                        } else {
                            known
                        },
                    },
                ),
                _ => self,
            },
            UpdateEvent::Verifying => self.with_phase(UpdatePhaseModel::Verifying),
            UpdateEvent::Preparing => self.with_phase(UpdatePhaseModel::Preparing),
            UpdateEvent::Cancelled => self.forget_update(),
            UpdateEvent::Failed(e) => self.with_updater(
                UpdateUiStateModel {
                    phase: UpdatePhaseModel::Failed(e@),
                    running: false,
                    ..self.updater
                },
            ),
            UpdateEvent::ReadyToRestart => self.with_phase(
                UpdatePhaseModel::Restarting,
            ).save_all().emit(EffectModel::Exit),
        }
    }

    /// A manual check: a known offer only shows its dialog again.
    #[verifier::opaque]
    pub open spec fn check_updates(self) -> AppModel {
        if self.updater.info is Some {
            self.open_window(WinKind::Update)
        } else {
            self.with_updater(UpdateUiStateModel { manual: true, ..self.updater }).emit(
                EffectModel::CheckUpdate { beta: self.cfg.settings.on.beta_channel },
            )
        }
    }
}

impl App {
    fn updater_copy(&self) -> (r: UpdateUiState)
        ensures
            r@ == self@.updater,
    {
        proof {
            reveal(App::model);
        }
        self.updater.twin()
    }

    fn set_updater(&mut self, u: UpdateUiState)
        ensures
            final(self)@ == old(self)@.with_updater(u@),
    {
        proof {
            reveal(App::model);
        }
        self.updater = u;
    }

    pub fn update_checked(&mut self, res: Checked)
        ensures
            final(self)@ == old(self)@.update_checked(res),
    {
        proof {
            reveal(AppModel::update_checked);
        }
        let mut u = self.updater_copy();
        let manual = u.manual;
        u.manual = false;
        self.set_updater(u);
        match res {
            Ok(Some(info)) => {
                self.note(Note::UpdateFound { version: info.version.clone() });
                let mut offer = UpdateUiState::default();
                offer.info = Some(info);
                self.set_updater(offer);
                self.open_window(WinKind::Update);
            },
            Ok(None) => {
                if manual {
                    self.ask(ConfirmKind::UpToDate);
                }
            },
            Err(e) => {
                self.note(Note::UpdateCheckFailed { error: e.clone() });
                if manual {
                    self.ask(ConfirmKind::UpdateCheckFailed(e));
                }
            },
        }
    }

    pub(crate) fn update_now(&mut self)
        ensures
            final(self)@ == old(self)@.update_now(),
    {
        proof {
            reveal(AppModel::update_now);
        }
        let mut u = self.updater_copy();
        let info = match &u.info {
            Some(i) => i.twin(),
            None => return ,
        };
        self.note(Note::UpdateChosen { version: info.version.clone() });
        if !info.in_place {
            return ;
        }
        match u.phase {
            UpdatePhase::Idle => {},
            UpdatePhase::Failed(_) => {},
            _ => return ,
        }
        u.running = true;
        u.phase = UpdatePhase::Downloading {
            got: 0,
            total: if info.size > 0 {
                Some(info.size)
            } else {
                None
            },
        };
        self.set_updater(u);
        self.emit(Effect::RunUpdate(info));
    }

    fn forget_update(&mut self)
        ensures
            final(self)@ == old(self)@.forget_update(),
    {
        proof {
            reveal(AppModel::forget_update);
        }
        self.set_updater(UpdateUiState::default());
        self.close_window(WinKind::Update);
    }

    pub(crate) fn update_cancel(&mut self)
        ensures
            final(self)@ == old(self)@.update_cancel(),
    {
        proof {
            reveal(AppModel::update_cancel);
        }
        let u = self.updater_copy();
        match u.phase {
            UpdatePhase::Downloading { .. } => {
                if u.running {
                    self.emit(Effect::CancelUpdate);
                }
            },
            UpdatePhase::Verifying | UpdatePhase::Preparing | UpdatePhase::Restarting => {},
            _ => {
                self.forget_update();
            },
        }
    }

    pub(crate) fn update_closed(&mut self)
        ensures
            final(self)@ == old(self)@.update_closed(),
    {
        proof {
            reveal(AppModel::update_closed);
        }
        let u = self.updater_copy();
        if let UpdatePhase::Restarting = u.phase {
            return ;
        }
        if u.running {
            self.emit(Effect::CancelUpdate);
        }
        self.set_updater(UpdateUiState::default());
    }

    pub(crate) fn update_open_page(&mut self)
        ensures
            final(self)@ == old(self)@.update_open_page(),
    {
        proof {
            reveal(AppModel::update_open_page);
        }
        if let Some(info) = self.updater_copy().info {
            if !info.html_url.as_str().is_empty() {
                self.emit(Effect::OpenPath(info.html_url));
            }
        }
    }

    pub(crate) fn update_open_url(&mut self, url: String)
        ensures
            final(self)@ == old(self)@.update_open_url(url@),
    {
        proof {
            reveal(AppModel::update_open_url);
        }
        if starts_with(&url, "https://") || starts_with(&url, "http://") {
            self.emit(Effect::OpenPath(url));
        }
    }

    fn set_phase(&mut self, p: UpdatePhase)
        ensures
            final(self)@ == old(self)@.with_phase(p@),
    {
        let mut u = self.updater_copy();
        u.phase = p;
        self.set_updater(u);
    }

    pub fn on_update(&mut self, ev: UpdateEvent)
        ensures
            final(self)@ == old(self)@.on_update(ev),
    {
        proof {
            reveal(AppModel::on_update);
        }
        match ev {
            UpdateEvent::Progress(got, total) => {
                if let UpdatePhase::Downloading { total: known, .. } = self.updater_copy().phase {
                    let total = if total.is_some() {
                        total
                    } else {
                        known
                    };
                    self.set_phase(UpdatePhase::Downloading { got, total });
                }
            },
            UpdateEvent::Verifying => self.set_phase(UpdatePhase::Verifying),
            UpdateEvent::Preparing => self.set_phase(UpdatePhase::Preparing),
            UpdateEvent::Cancelled => self.forget_update(),
            UpdateEvent::Failed(e) => {
                let mut u = self.updater_copy();
                u.phase = UpdatePhase::Failed(e);
                u.running = false;
                self.set_updater(u);
            },
            UpdateEvent::ReadyToRestart => {
                self.set_phase(UpdatePhase::Restarting);
                self.save_all();
                self.emit(Effect::Exit);
            },
        }
    }

    pub(crate) fn check_updates(&mut self)
        ensures
            final(self)@ == old(self)@.check_updates(),
    {
        proof {
            reveal(AppModel::check_updates);
        }
        let mut u = self.updater_copy();
        if u.info.is_some() {
            self.open_window(WinKind::Update);
        } else {
            u.manual = true;
            self.set_updater(u);
            let beta = self.switches().beta_channel;
            self.emit(Effect::CheckUpdate { beta });
        }
    }
}

// ------------------------------------------------------------------------- laws

/// A release that only a package manager may install is never downloaded: the
/// wish for it is logged, and nothing else happens.
pub proof fn packaged_installs_are_left_alone(s: AppModel)
    requires
        s.updater.info is Some,
        !s.updater.info->0.in_place,
    ensures
        s.update_now() == s.note(NoteModel::UpdateChosen { version: s.updater.info->0.version }),
{
    reveal(AppModel::update_now);
}

/// A check nobody asked for shows nothing, unless there is a newer release; a
/// failure is a line in the log and no more.
pub proof fn silent_checks_stay_silent(s: AppModel, res: Checked)
    requires
        !s.updater.manual,
        !(res is Ok && res->Ok_0 is Some),
    ensures
        s.update_checked(res) == (match res {
            Ok(_) => s,
            Err(e) => s.note(NoteModel::UpdateCheckFailed { error: e@ }),
        }),
{
    reveal(AppModel::update_checked);
    assert(s.with_updater(UpdateUiStateModel { manual: false, ..s.updater }) =~= s);
}

} // verus!
