//! The countdown before the machine is shut down.
use crate::app::update::Message;
use crate::app::{AppModel, EnvModel};
use crate::effect::EffectModel;
use crate::laws::rows::asks;
use crate::laws::steps::clock_steps;
use crate::model::PowerAction;
use vstd::prelude::*;

verus! {

/// The state after `n` seconds of the countdown.
pub open spec fn seconds_on(s: AppModel, n: nat, env: EnvModel) -> AppModel
    decreases n,
{
    if n == 0 {
        s
    } else {
        seconds_on(s, (n - 1) as nat, env).update(Message::PowerTick, env)
    }
}

/// While the countdown runs nothing is asked for, and each second takes one off.
proof fn lemma_counting(s: AppModel, n: nat, env: EnvModel)
    requires
        s.power is Some,
        n < s.power->0.secs,
    ensures
        seconds_on(s, n, env).power is Some,
        seconds_on(s, n, env).power->0.secs == s.power->0.secs - n,
        seconds_on(s, n, env).power->0.action == s.power->0.action,
        seconds_on(s, n, env).power->0.exit_after == s.power->0.exit_after,
        seconds_on(s, n, env).out == s.out,
    decreases n,
{
    if n > 0 {
        let m = (n - 1) as nat;
        lemma_counting(s, m, env);
        clock_steps(seconds_on(s, m, env), env);
        reveal(AppModel::power_tick);
    }
}

/// The machine is left alone until the last second of the countdown, and then the
/// action that was asked for is taken, once. The program leaves with it, unless
/// the machine only sleeps and no queue asked for that.
pub proof fn the_countdown_runs_out(s: AppModel, n: nat, env: EnvModel)
    requires
        s.power is Some,
        s.power->0.secs > 0,
        n <= s.power->0.secs,
    ensures
        ({
            let p = s.power->0;
            let t = seconds_on(s, n, env);
            &&& n < p.secs ==> t.out == s.out && t.power is Some
            &&& n == p.secs ==> t.power is None && asks(s, t, EffectModel::Power(p.action)) && (
            asks(s, t, EffectModel::Exit) <==> p.action != PowerAction::Sleep || p.exit_after)
        }),
{
    let p = s.power->0;
    if n < p.secs {
        lemma_counting(s, n, env);
    } else {
        let m = (n - 1) as nat;
        lemma_counting(s, m, env);
        let u = seconds_on(s, m, env);
        clock_steps(u, env);
        reveal(AppModel::power_tick);
        lemma_firing(AppModel { power: Some(crate::state::PowerPrompt { secs: 0, ..p }), ..u });
    }
}

/// The countdown is cut short by hand: the action is taken at once.
pub proof fn not_waiting_takes_the_action(s: AppModel, env: EnvModel)
    requires
        s.power is Some,
    ensures
        ({
            let p = s.power->0;
            let t = s.update(Message::PowerNow, env);
            &&& t.power is None
            &&& asks(s, t, EffectModel::Power(p.action))
            &&& asks(s, t, EffectModel::Exit) <==> p.action != PowerAction::Sleep || p.exit_after
        }),
{
    clock_steps(s, env);
    lemma_firing(s);
}

proof fn lemma_firing(s: AppModel)
    requires
        s.power is Some,
    ensures
        ({
            let p = s.power->0;
            let t = s.fire_power_action();
            &&& t.power is None
            &&& asks(s, t, EffectModel::Power(p.action))
            &&& asks(s, t, EffectModel::Exit) <==> p.action != PowerAction::Sleep || p.exit_after
        }),
{
    reveal(AppModel::fire_power_action);
    reveal(AppModel::close_window);
    let p = s.power->0;
    let t = s.fire_power_action();
    let n = t.out.len() as int;
    if p.action != PowerAction::Sleep || p.exit_after {
        assert(t.out[n - 1] == EffectModel::Exit);
        assert(t.out[n - 2] == EffectModel::Power(p.action));
    } else {
        assert(t.out[n - 1] == EffectModel::Power(p.action));
    }
}

/// A cancelled countdown takes no action. The program still leaves where a queue
/// asked it to, and only then.
pub proof fn cancelling_takes_no_action(s: AppModel, action: PowerAction, env: EnvModel)
    requires
        s.power is Some,
    ensures
        ({
            let t = s.update(Message::PowerCancel, env);
            &&& t.power is None
            &&& !asks(s, t, EffectModel::Power(action))
            &&& asks(s, t, EffectModel::Exit) <==> s.power->0.exit_after
        }),
{
    clock_steps(s, env);
    reveal(AppModel::cancel_power_action);
    reveal(AppModel::close_window);
    let t = s.cancel_power_action();
    if s.power->0.exit_after {
        assert(t.out[t.out.len() - 1] == EffectModel::Exit);
    }
}

/// A new countdown takes ten seconds. A second request while one is up changes
/// neither the action nor the time that is left, and can only add the wish to
/// leave.
pub proof fn a_countdown_takes_ten_seconds(
    s: AppModel,
    first: PowerAction,
    second: PowerAction,
    a: bool,
    b: bool,
)
    requires
        s.power is None,
    ensures
        ({
            let t = s.arm_power_action(first, a);
            let u = t.arm_power_action(second, b);
            &&& t.power is Some
            &&& t.power->0.action == first
            &&& t.power->0.secs == 10
            &&& t.power->0.exit_after == a
            &&& u.power is Some
            &&& u.power->0.action == first
            &&& u.power->0.secs == 10
            &&& u.power->0.exit_after == (a || b)
            &&& forall|x: PowerAction| !#[trigger] asks(s, t, EffectModel::Power(x))
        }),
{
    reveal(AppModel::arm_power_action);
    reveal(AppModel::open_window);
    reveal(AppModel::close_file_info_windows);
}

} // verus!
