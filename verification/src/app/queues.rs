//! Running queues: the tick that starts their rows, their schedule, and what
//! happens once they are done.
use crate::app::{App, AppModel, Env, EnvModel};
use crate::downloads::{ids_where, promote_all, promote_queue_members, Items};
use crate::effect::{Effect, EffectModel};
use crate::engine::{Cmd, CmdModel};
use crate::model::{
    DlId, DownloadItem, DownloadItemModel, PowerAction, QueueDef, QueueDefModel, ScheduleModel,
};
use crate::notes::{Note, NoteModel};
use crate::queues::{
    all_done, all_starts, all_works, busy_in, due_starts, due_stops, edit_queue, find_queue,
    members, queue_of, queue_plan, queues_done, schedule_plan, Member,
};
use crate::sounds;
use crate::text::{same, trim, trimmed, views};
use crate::twin::Twin;
use vstd::prelude::*;

verus! {

// -------------------------------------------------------------------- sounds

impl AppModel {
    /// The sound of an event plays, where it is switched on.
    #[verifier::opaque]
    pub open spec fn play(self, i: int, event: sounds::Event) -> AppModel {
        let rows = self.cfg.settings.sounds;
        if 0 <= i < rows.len() && rows[i].enabled {
            self.emit(
                EffectModel::Play {
                    file: if rows[i].file.len() > 0 {
                        Some(rows[i].file)
                    } else {
                        None
                    },
                    event,
                },
            )
        } else {
            self
        }
    }
}

impl App {
    fn sound_of(&self, i: usize) -> (r: Option<Option<String>>)
        ensures
            match r {
                Some(f) => i < self@.cfg.settings.sounds.len()
                    && self@.cfg.settings.sounds[i as int].enabled && f.deep_view() == (
                if self@.cfg.settings.sounds[i as int].file.len() > 0 {
                    Some(self@.cfg.settings.sounds[i as int].file)
                } else {
                    None
                }),
                None => i >= self@.cfg.settings.sounds.len()
                    || !self@.cfg.settings.sounds[i as int].enabled,
            },
    {
        proof {
            reveal(App::model);
        }
        let rows = &self.cfg.settings.sounds;
        if i < rows.len() && rows[i].enabled {
            if rows[i].file.as_str().is_empty() {
                Some(None)
            } else {
                Some(Some(rows[i].file.clone()))
            }
        } else {
            None
        }
    }

    pub(crate) fn play(&mut self, i: usize, event: sounds::Event)
        ensures
            final(self)@ == old(self)@.play(i as int, event),
    {
        proof {
            reveal(AppModel::play);
        }
        if let Some(file) = self.sound_of(i) {
            self.emit(Effect::Play { file, event });
        }
    }
}

// ------------------------------------------------------------------ start/stop

pub open spec fn to_running(run: bool) -> spec_fn(QueueDefModel) -> QueueDefModel {
    |q: QueueDefModel| QueueDefModel { running: run, ..q }
}

pub open spec fn to_worked() -> spec_fn(QueueDefModel) -> QueueDefModel {
    |q: QueueDefModel| QueueDefModel { did_work: true, ..q }
}

pub open spec fn to_done() -> spec_fn(QueueDefModel) -> QueueDefModel {
    |q: QueueDefModel| QueueDefModel { running: false, did_work: false, ..q }
}

pub open spec fn to_disarmed() -> spec_fn(QueueDefModel) -> QueueDefModel {
    |q: QueueDefModel|
        QueueDefModel { schedule: ScheduleModel { start_enabled: false, ..q.schedule }, ..q }
}

pub open spec fn to_named(name: Seq<char>) -> spec_fn(QueueDefModel) -> QueueDefModel {
    |q: QueueDefModel| QueueDefModel { name, ..q }
}

fn set_running(v: &mut Vec<QueueDef>, name: &str, run: bool)
    ensures
        final(v).deep_view() == edit_queue(old(v).deep_view(), name@, to_running(run)),
{
    let ghost before = v.deep_view();
    if let Some(i) = find_queue(v, name) {
        v[i].running = run;
        assert(v@[i as int]@ =~= to_running(run)(before[i as int]));
        assert(v.deep_view() =~= before.update(i as int, to_running(run)(before[i as int])));
    }
}

fn set_worked(v: &mut Vec<QueueDef>, name: &str)
    ensures
        final(v).deep_view() == edit_queue(old(v).deep_view(), name@, to_worked()),
{
    let ghost before = v.deep_view();
    if let Some(i) = find_queue(v, name) {
        v[i].did_work = true;
        assert(v@[i as int]@ =~= to_worked()(before[i as int]));
        assert(v.deep_view() =~= before.update(i as int, to_worked()(before[i as int])));
    }
}

fn set_done(v: &mut Vec<QueueDef>, name: &str)
    ensures
        final(v).deep_view() == edit_queue(old(v).deep_view(), name@, to_done()),
{
    let ghost before = v.deep_view();
    if let Some(i) = find_queue(v, name) {
        v[i].running = false;
        v[i].did_work = false;
        assert(v@[i as int]@ =~= to_done()(before[i as int]));
        assert(v.deep_view() =~= before.update(i as int, to_done()(before[i as int])));
    }
}

fn set_disarmed(v: &mut Vec<QueueDef>, name: &str)
    ensures
        final(v).deep_view() == edit_queue(old(v).deep_view(), name@, to_disarmed()),
{
    let ghost before = v.deep_view();
    if let Some(i) = find_queue(v, name) {
        v[i].schedule.start_enabled = false;
        assert(v@[i as int]@ =~= to_disarmed()(before[i as int]));
        assert(v.deep_view() =~= before.update(i as int, to_disarmed()(before[i as int])));
    }
}

fn set_named(v: &mut Vec<QueueDef>, name: &str, new: &str)
    ensures
        final(v).deep_view() == edit_queue(old(v).deep_view(), name@, to_named(new@)),
{
    let ghost before = v.deep_view();
    if let Some(i) = find_queue(v, name) {
        v[i].name = new.to_owned();
        assert(v@[i as int]@ =~= to_named(new@)(before[i as int]));
        assert(v.deep_view() =~= before.update(i as int, to_named(new@)(before[i as int])));
    }
}

impl AppModel {
    pub open spec fn edit_queue(
        self,
        name: Seq<char>,
        f: spec_fn(QueueDefModel) -> QueueDefModel,
    ) -> AppModel {
        self.with_queues(edit_queue(self.queues(), name, f))
    }

    pub open spec fn queue_runs(self, name: Seq<char>) -> bool {
        queue_of(self.queues(), name) matches Some(q) && q.running
    }

    pub open spec fn tell_stops(self, ids: Seq<DlId>) -> AppModel {
        self.emit_all(Seq::new(ids.len(), |i: int| EffectModel::Engine(CmdModel::Stop(ids[i]))))
    }

    /// A queue is switched on or off. Switching it on promotes its paused and
    /// failed rows; switching it off stops what is transferring. A sound tells
    /// of the change.
    #[verifier::opaque]
    pub open spec fn set_queue_running(self, name: Seq<char>, run: bool) -> AppModel {
        let was = self.queue_runs(name);
        let a = if run {
            self.with_items(promote_all(self.items(), name))
        } else {
            self
        };
        let b = a.edit_queue(name, to_running(run));
        let c = if run != was {
            let i = if run {
                2int
            } else {
                3
            };
            b.play(i, sounds::Event::at(i))
        } else {
            b
        };
        if run {
            c
        } else {
            c.tell_stops(ids_where(c.items(), busy_in(name)))
        }
    }
}

impl App {
    pub(crate) fn queue_runs(&self, name: &str) -> (r: bool)
        ensures
            r == self@.queue_runs(name@),
    {
        proof {
            reveal(App::model);
        }
        match find_queue(&self.cfg.queues, name) {
            Some(i) => self.cfg.queues[i].running,
            None => false,
        }
    }

    fn promote(&mut self, name: &str)
        ensures
            final(self)@ == old(self)@.with_items(promote_all(old(self)@.items(), name@)),
    {
        let mut v = self.take_items();
        promote_queue_members(&mut v, name);
        self.put_items(v);
    }

    fn switch_queue(&mut self, name: &str, run: bool)
        ensures
            final(self)@ == old(self)@.edit_queue(name@, to_running(run)),
    {
        let mut v = self.take_queues();
        set_running(&mut v, name, run);
        self.put_queues(v);
    }

    fn busy_rows(&self, name: &str) -> (r: Vec<DlId>)
        ensures
            r@ == ids_where(self@.items(), busy_in(name@)),
    {
        proof {
            reveal(App::model);
        }
        members(&self.state.downloads, &Member::Busy(name))
    }

    fn tell_stops(&mut self, ids: &Vec<DlId>)
        ensures
            final(self)@ == old(self)@.tell_stops(ids@),
    {
        let mut v: Vec<Effect> = Vec::new();
        let mut i: usize = 0;
        while i < ids.len()
            invariant
                i <= ids@.len(),
                v@.len() == i,
                forall|k: int|
                    0 <= k < i ==> (#[trigger] v@[k])@ == EffectModel::Engine(
                        CmdModel::Stop(ids@[k]),
                    ),
            decreases ids.len() - i,
        {
            v.push(Effect::Engine(Cmd::Stop(ids[i])));
            i += 1;
        }
        assert(v.deep_view() =~= Seq::new(
            ids@.len(),
            |i: int| EffectModel::Engine(CmdModel::Stop(ids@[i])),
        ));
        self.emit_all(v);
    }

    /// Every way of starting or stopping a queue goes through here. A queue
    /// whose rows are all paused would otherwise find nothing waiting and
    /// count as done at once.
    pub fn set_queue_running(&mut self, name: &str, run: bool)
        ensures
            final(self)@ == old(self)@.set_queue_running(name@, run),
    {
        proof {
            reveal(AppModel::set_queue_running);
        }
        let was = self.queue_runs(name);
        if run {
            self.promote(name);
        }
        self.switch_queue(name, run);
        if run != was {
            let i: usize = if run {
                2
            } else {
                3
            };
            self.play(i, sounds::Event::from_index(i));
        }
        if !run {
            let ids = self.busy_rows(name);
            self.tell_stops(&ids);
        }
    }
}

// ----------------------------------------------------------------------- tick

/// A queue tick on its way: the state, and what the finished queues ask for.
pub struct Finishing {
    pub app: AppModel,
    pub exit: bool,
    pub power: Option<PowerAction>,
}

impl Finishing {
    /// One queue is done. What it asks for is done only if this run has
    /// processed something.
    #[verifier::opaque]
    pub open spec fn finish(self, name: Seq<char>) -> Finishing {
        match queue_of(self.app.queues(), name) {
            Some(q) => {
                let s = self.app.edit_queue(name, to_done());
                if q.did_work {
                    let sc = q.schedule;
                    Finishing {
                        app: (if sc.open_file_enabled && trimmed(sc.open_file).len() > 0 {
                            s.emit(EffectModel::OpenPath(trimmed(sc.open_file)))
                        } else {
                            s
                        }).play(3, sounds::Event::QueueStopped).note(
                            NoteModel::QueueFinished { name },
                        ),
                        exit: self.exit || sc.exit_when_done,
                        power: if sc.shutdown_when_done {
                            Some(sc.shutdown_action)
                        } else {
                            self.power
                        },
                    }
                } else {
                    Finishing { app: s, ..self }
                }
            },
            None => self,
        }
    }

    pub open spec fn finish_all(self, names: Seq<Seq<char>>) -> Finishing
        decreases names.len(),
    {
        if names.len() == 0 {
            self
        } else {
            self.finish_all(names.drop_last()).finish(names.last())
        }
    }

    /// What the finished queues asked for is done: with a power action pending
    /// the countdown owns the exit too.
    pub open spec fn settle(self) -> AppModel {
        match self.power {
            Some(action) => self.app.save_all().arm_power_action(action, self.exit),
            None => if self.exit {
                self.app.save_all().emit(EffectModel::Exit)
            } else {
                self.app
            },
        }
    }
}

impl AppModel {
    pub open spec fn mark_worked(self, names: Seq<Seq<char>>) -> AppModel
        decreases names.len(),
    {
        if names.len() == 0 {
            self
        } else {
            self.mark_worked(names.drop_last()).edit_queue(names.last(), to_worked())
        }
    }

    /// The running queues start what they may; those with nothing left to wait
    /// for are done.
    #[verifier::opaque]
    pub open spec fn queue_tick(self, env: EnvModel) -> AppModel {
        let s = self.mark_worked(all_works(self.items(), self.queues())).start_each(
            all_starts(self.items(), self.queues()),
            false,
            env,
        );
        s.finish_queues()
    }

    pub open spec fn finish_queues(self) -> AppModel {
        Finishing { app: self, exit: false, power: None }.finish_all(
            all_done(self.items(), self.queues()),
        ).settle()
    }
}

impl App {
    fn plan(&self) -> (r: (Vec<DlId>, Vec<String>))
        ensures
            r.0@ == all_starts(self@.items(), self@.queues()),
            views(r.1@) == all_works(self@.items(), self@.queues()),
    {
        proof {
            reveal(App::model);
        }
        queue_plan(&self.state.downloads, &self.cfg.queues)
    }

    fn done_queues(&self) -> (r: Vec<String>)
        ensures
            views(r@) == all_done(self@.items(), self@.queues()),
    {
        proof {
            reveal(App::model);
        }
        queues_done(&self.state.downloads, &self.cfg.queues)
    }

    fn mark_one(&mut self, name: &str)
        ensures
            final(self)@ == old(self)@.edit_queue(name@, to_worked()),
    {
        let mut v = self.take_queues();
        set_worked(&mut v, name);
        self.put_queues(v);
    }

    fn mark_worked(&mut self, names: &Vec<String>)
        ensures
            final(self)@ == old(self)@.mark_worked(views(names@)),
    {
        let ghost all = views(names@);
        let mut i: usize = 0;
        assert(all.take(0) =~= seq![]);
        while i < names.len()
            invariant
                i <= names@.len(),
                all == views(names@),
                self@ == old(self)@.mark_worked(all.take(i as int)),
            decreases names.len() - i,
        {
            proof {
                assert(all.take(i + 1).drop_last() =~= all.take(i as int));
                assert(all.take(i + 1).last() == names@[i as int]@);
            }
            self.mark_one(&names[i]);
            i += 1;
        }
        assert(all.take(i as int) =~= all);
    }

    /// A copy of the queue called `name`.
    pub(crate) fn queue_copy(&self, name: &str) -> (r: Option<QueueDef>)
        ensures
            r.deep_view() == queue_of(self@.queues(), name@),
    {
        proof {
            reveal(App::model);
        }
        match find_queue(&self.cfg.queues, name) {
            Some(i) => Some(self.cfg.queues[i].twin()),
            None => None,
        }
    }

    fn done_one(&mut self, name: &str)
        ensures
            final(self)@ == old(self)@.edit_queue(name@, to_done()),
    {
        let mut v = self.take_queues();
        set_done(&mut v, name);
        self.put_queues(v);
    }

    fn finish_one(&mut self, name: &str, exit: bool, power: Option<PowerAction>) -> (r: (
        bool,
        Option<PowerAction>,
    ))
        ensures
            (Finishing { app: final(self)@, exit: r.0, power: r.1 }) == (Finishing {
                app: old(self)@,
                exit,
                power,
            }).finish(name@),
    {
        proof {
            reveal(Finishing::finish);
        }
        let q = match self.queue_copy(name) {
            Some(q) => q,
            None => return (exit, power),
        };
        self.done_one(name);
        if !q.did_work {
            return (exit, power);
        }
        let path = trim(&q.schedule.open_file);
        if q.schedule.open_file_enabled && !path.as_str().is_empty() {
            self.emit(Effect::OpenPath(path));
        }
        self.play(3, sounds::Event::QueueStopped);
        self.note(Note::QueueFinished { name: name.to_owned() });
        (
            exit || q.schedule.exit_when_done,
            if q.schedule.shutdown_when_done {
                Some(q.schedule.shutdown_action)
            } else {
                power
            },
        )
    }

    fn finish_all(&mut self, names: &Vec<String>) -> (r: (bool, Option<PowerAction>))
        ensures
            (Finishing { app: final(self)@, exit: r.0, power: r.1 }) == (Finishing {
                app: old(self)@,
                exit: false,
                power: None,
            }).finish_all(views(names@)),
    {
        let ghost all = views(names@);
        let ghost first = Finishing { app: self@, exit: false, power: None };
        let mut exit = false;
        let mut power: Option<PowerAction> = None;
        let mut i: usize = 0;
        assert(all.take(0) =~= seq![]);
        while i < names.len()
            invariant
                i <= names@.len(),
                all == views(names@),
                (Finishing { app: self@, exit, power }) == first.finish_all(all.take(i as int)),
            decreases names.len() - i,
        {
            proof {
                assert(all.take(i + 1).drop_last() =~= all.take(i as int));
                assert(all.take(i + 1).last() == names@[i as int]@);
            }
            let (e, p) = self.finish_one(&names[i], exit, power);
            exit = e;
            power = p;
            i += 1;
        }
        assert(all.take(i as int) =~= all);
        (exit, power)
    }

    fn settle(&mut self, exit: bool, power: Option<PowerAction>)
        ensures
            final(self)@ == (Finishing { app: old(self)@, exit, power }).settle(),
    {
        match power {
            Some(action) => {
                self.save_all();
                self.arm_power_action(action, exit);
            },
            None => if exit {
                self.save_all();
                self.emit(Effect::Exit);
            },
        }
    }

    fn finish_queues(&mut self)
        ensures
            final(self)@ == old(self)@.finish_queues(),
    {
        let names = self.done_queues();
        let (exit, power) = self.finish_all(&names);
        self.settle(exit, power);
    }

    /// Starts what the running queues may start, and finishes those that have
    /// nothing left to wait for.
    pub(crate) fn queue_tick(&mut self, env: &Env)
        ensures
            final(self)@ == old(self)@.queue_tick(env@),
    {
        proof {
            reveal(AppModel::queue_tick);
        }
        let (starts, works) = self.plan();
        self.mark_worked(&works);
        self.start_each(&starts, false, env);
        self.finish_queues();
    }
}

// ------------------------------------------------------------------- schedule

impl AppModel {
    /// "Once" means once: it is disarmed as it fires.
    pub open spec fn disarm_once(self, name: Seq<char>) -> AppModel {
        match queue_of(self.queues(), name) {
            Some(q) => if q.schedule.once {
                self.edit_queue(name, to_disarmed()).save_config()
            } else {
                self
            },
            None => self,
        }
    }

    pub open spec fn start_queues(self, names: Seq<Seq<char>>) -> AppModel
        decreases names.len(),
    {
        if names.len() == 0 {
            self
        } else {
            self.start_queues(names.drop_last()).disarm_once(names.last()).set_queue_running(
                names.last(),
                true,
            )
        }
    }

    pub open spec fn stop_queues(self, names: Seq<Seq<char>>) -> AppModel
        decreases names.len(),
    {
        if names.len() == 0 {
            self
        } else {
            self.stop_queues(names.drop_last()).set_queue_running(names.last(), false)
        }
    }

    /// What is due this minute starts, then what is due stops.
    #[verifier::opaque]
    pub open spec fn schedule_tick(self, env: EnvModel) -> AppModel {
        self.start_queues(due_starts(self.queues(), env.hhmm, env.weekday)).stop_queues(
            due_stops(self.queues(), env.hhmm),
        )
    }
}

impl App {
    fn due(&self, env: &Env) -> (r: (Vec<String>, Vec<String>))
        ensures
            views(r.0@) == due_starts(self@.queues(), env@.hhmm, env@.weekday),
            views(r.1@) == due_stops(self@.queues(), env@.hhmm),
    {
        proof {
            reveal(App::model);
        }
        schedule_plan(&self.cfg.queues, &env.hhmm, env.weekday)
    }

    fn disarm_one(&mut self, name: &str)
        ensures
            final(self)@ == old(self)@.edit_queue(name@, to_disarmed()),
    {
        let mut v = self.take_queues();
        set_disarmed(&mut v, name);
        self.put_queues(v);
    }

    fn disarm_once(&mut self, name: &str)
        ensures
            final(self)@ == old(self)@.disarm_once(name@),
    {
        let once = match self.queue_copy(name) {
            Some(q) => q.schedule.once,
            None => return ,
        };
        if once {
            self.disarm_one(name);
            self.save_config();
        }
    }

    fn start_queues(&mut self, names: &Vec<String>)
        ensures
            final(self)@ == old(self)@.start_queues(views(names@)),
    {
        let ghost all = views(names@);
        let mut i: usize = 0;
        assert(all.take(0) =~= seq![]);
        while i < names.len()
            invariant
                i <= names@.len(),
                all == views(names@),
                self@ == old(self)@.start_queues(all.take(i as int)),
            decreases names.len() - i,
        {
            proof {
                assert(all.take(i + 1).drop_last() =~= all.take(i as int));
                assert(all.take(i + 1).last() == names@[i as int]@);
            }
            self.disarm_once(&names[i]);
            self.set_queue_running(&names[i], true);
            i += 1;
        }
        assert(all.take(i as int) =~= all);
    }

    fn stop_queues(&mut self, names: &Vec<String>)
        ensures
            final(self)@ == old(self)@.stop_queues(views(names@)),
    {
        let ghost all = views(names@);
        let mut i: usize = 0;
        assert(all.take(0) =~= seq![]);
        while i < names.len()
            invariant
                i <= names@.len(),
                all == views(names@),
                self@ == old(self)@.stop_queues(all.take(i as int)),
            decreases names.len() - i,
        {
            proof {
                assert(all.take(i + 1).drop_last() =~= all.take(i as int));
                assert(all.take(i + 1).last() == names@[i as int]@);
            }
            self.set_queue_running(&names[i], false);
            i += 1;
        }
        assert(all.take(i as int) =~= all);
    }

    pub(crate) fn schedule_tick(&mut self, env: &Env)
        ensures
            final(self)@ == old(self)@.schedule_tick(env@),
    {
        proof {
            reveal(AppModel::schedule_tick);
        }
        let (starts, stops) = self.due(env);
        self.start_queues(&starts);
        self.stop_queues(&stops);
    }
}

// ------------------------------------------------------------------- renaming

/// `v` with the rows filed under `old` filed under `new`.
pub open spec fn refiled(v: Items, old: Seq<char>, new: Option<Seq<char>>) -> Items {
    v.map_values(
        |d: DownloadItemModel|
            if d.in_queue(old) {
                DownloadItemModel { queue: new, ..d }
            } else {
                d
            },
    )
}

pub(crate) fn refile(v: &mut Vec<DownloadItem>, old_name: &str, new: &Option<String>)
    ensures
        final(v).deep_view() == refiled(old(v).deep_view(), old_name@, new.deep_view()),
{
    let ghost all = v.deep_view();
    let ghost f = |d: DownloadItemModel|
        if d.in_queue(old_name@) {
            DownloadItemModel { queue: new.deep_view(), ..d }
        } else {
            d
        };
    let mut i: usize = 0;
    while i < v.len()
        invariant
            i <= v@.len(),
            v@.len() == all.len(),
            f == (|d: DownloadItemModel|
                if d.in_queue(old_name@) {
                    DownloadItemModel { queue: new.deep_view(), ..d }
                } else {
                    d
                }),
            forall|k: int| 0 <= k < i ==> (#[trigger] v@[k])@ == f(all[k]),
            forall|k: int| i <= k < all.len() ==> (#[trigger] v@[k])@ == all[k],
        decreases v.len() - i,
    {
        assert(v@[i as int]@ == all[i as int]);
        if v[i].is_in_queue(old_name) {
            v[i].queue = new.twin();
            assert(v@[i as int]@ =~= f(all[i as int]));
        }
        i += 1;
    }
    assert(v.deep_view() =~= refiled(all, old_name@, new.deep_view()));
}

impl AppModel {
    /// Whether a queue may be renamed: the new name is not empty, not that of
    /// another queue, and new, and the queue is not a stock one.
    pub open spec fn may_rename(self, old: Seq<char>, new: Seq<char>) -> bool {
        &&& new.len() > 0
        &&& new != old
        &&& !exists|i: int| 0 <= i < self.queues().len() && (#[trigger] self.queues()[i]).name == new
        &&& queue_of(self.queues(), old) matches Some(q)
        &&& !q.builtin
    }

    /// The queue and every row filed under it take the new name.
    #[verifier::opaque]
    pub open spec fn rename_queue(self, old: Seq<char>, new: Seq<char>) -> AppModel {
        let n = trimmed(new);
        if self.may_rename(old, n) {
            self.edit_queue(old, to_named(n)).refile(old, Some(n)).save_config().save_state().emit(
                EffectModel::RefreshMenu,
            ).emit(EffectModel::ReinstallTray)
        } else {
            self
        }
    }

    pub open spec fn refile(self, old: Seq<char>, new: Option<Seq<char>>) -> AppModel {
        self.with_items(refiled(self.items(), old, new))
    }
}

impl App {
    fn may_rename(&self, old: &str, new: &str) -> (r: bool)
        ensures
            r == self@.may_rename(old@, new@),
    {
        proof {
            reveal(App::model);
        }
        let qs = &self.cfg.queues;
        if new.is_empty() || same(new, old) {
            return false;
        }
        let ghost all = qs.deep_view();
        let mut i: usize = 0;
        while i < qs.len()
            invariant
                i <= qs@.len(),
                all == qs.deep_view(),
                all == self@.queues(),
                forall|k: int| 0 <= k < i ==> (#[trigger] all[k]).name != new@,
            decreases qs.len() - i,
        {
            assert(all[i as int] == qs@[i as int]@);
            if same(&qs[i].name, new) {
                assert(self@.queues()[i as int].name == new@);
                return false;
            }
            i += 1;
        }
        match find_queue(qs, old) {
            Some(k) => !qs[k].builtin,
            None => false,
        }
    }

    fn name_queue(&mut self, name: &str, new: &str)
        ensures
            final(self)@ == old(self)@.edit_queue(name@, to_named(new@)),
    {
        let mut v = self.take_queues();
        set_named(&mut v, name, new);
        self.put_queues(v);
    }

    pub(crate) fn refile(&mut self, name: &str, new: &Option<String>)
        ensures
            final(self)@ == old(self)@.refile(name@, new.deep_view()),
    {
        let mut v = self.take_items();
        refile(&mut v, name, new);
        self.put_items(v);
    }

    /// Renames a queue and every download filed under it, and refreshes the
    /// menus that carry queue names. Refuses an empty name, a name already
    /// taken by another queue, and renaming a stock queue. Returns whether the
    /// rename went through.
    pub(crate) fn rename_queue(&mut self, name: &str, new: &str) -> (r: bool)
        ensures
            final(self)@ == old(self)@.rename_queue(name@, new@),
            r == old(self)@.may_rename(name@, trimmed(new@)),
    {
        proof {
            reveal(AppModel::rename_queue);
        }
        let n = trim(new);
        if !self.may_rename(name, &n) {
            return false;
        }
        self.name_queue(name, &n);
        let filed = Some(n);
        self.refile(name, &filed);
        self.save_config();
        self.save_state();
        self.emit(Effect::RefreshMenu);
        self.emit(Effect::ReinstallTray);
        true
    }
}

} // verus!
