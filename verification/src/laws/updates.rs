//! Updates of the program itself.
use crate::app::AppModel;
use crate::effect::EffectModel;
use crate::laws::rows::asks;

use crate::text::begins;
use crate::update::{
    next_step, offered, step_event, verdict_of, Install, Release, Run, Step, StepDone,
    UpdateEventModel, UpdateMethod, Verdict,
};
use vstd::prelude::*;

verus! {

/// A release is offered exactly if it is newer than what runs and has an archive
/// for this machine: the image for an install that is one, else the bundle. What
/// is offered is that archive of that release.
pub proof fn only_newer_releases_are_offered(rel: Release, at: Install)
    ensures
        offered(rel, at) is Some <==> rel.newer && (if at.image is Some {
            rel.image is Some
        } else {
            rel.bundle is Some
        }),
        offered(rel, at) matches Some(i) ==> {
            &&& i.version == rel.version@
            &&& at.image is Some ==> i.asset_url == rel.image->0.url@ && i.size == rel.image->0.size
            &&& at.image is None ==> i.asset_url == rel.bundle->0.url@ && i.size
                == rel.bundle->0.size
            &&& at.dir is None ==> !i.in_place
            &&& i.in_place ==> at.method != UpdateMethod::Package && i.package is None
            &&& at.dir is Some && at.method != UpdateMethod::Package ==> i.in_place
            &&& at.dir is Some && at.method == UpdateMethod::Elevated ==> i.needs_auth
        },
        verdict_of(rel, at) == Verdict::UpToDate <==> !rel.newer,
        verdict_of(rel, at) is Updates ==> offered(rel, at) is Some && offered(rel, at)->0.in_place,
{
}

/// With a published checksum an archive is unpacked or installed only if its own
/// is the same: any other ends the update, and the user is told that it failed.
pub proof fn a_wrong_checksum_ends_the_update(r: Run, got: String)
    requires
        r.step == Step::Compare,
        r.want is Some,
    ensures
        got@ != r.want->0@ ==> next_step(r, StepDone::Hashed(got)) == Step::End && (step_event(
            r,
            StepDone::Hashed(got),
        ) matches Some(UpdateEventModel::Failed(_))),
        got@ == r.want->0@ ==> next_step(r, StepDone::Hashed(got)) == (if r.image {
            Step::Finish
        } else {
            Step::Unpack
        }),
{
}

/// Where checksums are published they are looked at before anything else is done
/// with the archive.
pub proof fn published_checksums_are_not_skipped(r: Run)
    requires
        r.step == Step::Download,
        r.has_sums,
    ensures
        next_step(r, StepDone::Downloaded) == Step::Sums,
        step_event(r, StepDone::Downloaded) == Some(UpdateEventModel::Verifying),
{
}

/// An error ends the update at every step, with its own words; a step that was
/// interrupted ends it as called off.
pub proof fn errors_end_the_update(r: Run, e: String)
    ensures
        next_step(r, StepDone::Error(e)) == Step::End,
        step_event(r, StepDone::Error(e)) == Some(UpdateEventModel::Failed(e@)),
        next_step(r, StepDone::Interrupted) == Step::End,
        step_event(r, StepDone::Interrupted) == Some(UpdateEventModel::Cancelled),
{
}

/// "Update now" runs the update of the offered release, once: not while it runs,
/// and not where a package manager owns the files.
pub proof fn an_update_runs_once(s: AppModel)
    requires
        s.updater.info is Some,
        s.updater.phase is Idle,
    ensures
        ({
            let info = s.updater.info->0;
            let t = s.update_now();
            let u = t.update_now();
            &&& asks(s, t, EffectModel::RunUpdate(info)) <==> info.in_place
            &&& !asks(t, u, EffectModel::RunUpdate(info))
            &&& info.in_place ==> t.updater.running && t.updater.phase is Downloading
            &&& !info.in_place ==> t.updater == s.updater
        }),
{
    reveal(AppModel::update_now);
    let info = s.updater.info->0;
    let t = s.update_now();
    let u = t.update_now();
    if info.in_place {
        assert(t.out[t.out.len() - 1] == EffectModel::RunUpdate(info));
    }
}

/// Of the links in the notes only web addresses are opened.
pub proof fn only_web_addresses_are_opened(s: AppModel, url: Seq<char>)
    ensures
        s.update_open_url(url).out.len() > s.out.len() ==> begins(url, "https://"@) || begins(
            url,
            "http://"@,
        ),
        begins(url, "https://"@) ==> s.update_open_url(url).out == s.out.push(
            EffectModel::OpenPath(url),
        ),
{
    reveal(AppModel::update_open_url);
}

} // verus!
