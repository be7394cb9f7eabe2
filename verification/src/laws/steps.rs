//! Which step each message takes.
use crate::app::update::Message;
use crate::app::{AppModel, EnvModel};
use crate::engine::Event;
use crate::model::DlId;
use crate::state::SortKey;
use vstd::prelude::*;

verus! {

pub proof fn engine_step(s: AppModel, ev: Event, env: EnvModel)
    ensures
        s.update(Message::Engine(ev), env) == s.on_engine(ev, env),
{
    reveal(AppModel::update);
    reveal(AppModel::update_frame);
}

pub proof fn progress_step(s: AppModel, ev: Event, env: EnvModel)
    ensures
        ev matches Event::Progress { id, done, rate_bits, recorded_bits, eta, conns, held }
            ==> s.update(Message::Engine(ev), env) == s.on_progress(
            id,
            done,
            rate_bits,
            recorded_bits,
            eta,
            conns.deep_view(),
            held@,
            env.now,
        ),
{
    engine_step(s, ev, env);
    reveal(AppModel::on_engine);
}

pub proof fn clock_steps(s: AppModel, env: EnvModel)
    ensures
        s.update(Message::Tick, env) == s.tick(env),
        s.update(Message::PowerTick, env) == s.power_tick(),
        s.update(Message::PowerNow, env) == s.fire_power_action(),
        s.update(Message::PowerCancel, env) == s.cancel_power_action(),
{
    reveal(AppModel::update);
    reveal(AppModel::update_frame);
}

pub proof fn table_steps(s: AppModel, id: DlId, key: SortKey, env: EnvModel)
    ensures
        s.update(Message::RowClick(id), env) == s.row_click(id, env.ms),
        s.update(Message::RowRightClick(id), env) == s.row_right_click(id),
        s.update(Message::SelectAll, env) == s.select_all(),
        s.update(Message::SortBy(key), env) == s.sort_by(key),
{
    reveal(AppModel::update);
    reveal(AppModel::update_table);
}

pub proof fn adding_steps(s: AppModel, env: EnvModel)
    ensures
        s.update(Message::AddUrlOk, env) == s.add_url_ok(env),
{
    reveal(AppModel::update);
    reveal(AppModel::update_adding);
}

pub proof fn clipboard_step(s: AppModel, text: Option<String>, env: EnvModel)
    ensures
        s.update(Message::ClipboardSeen(text), env) == s.clipboard_seen(text.deep_view(), env),
{
    reveal(AppModel::update);
    reveal(AppModel::update_frame);
}

} // verus!
