//! Updating the program: what a newer release offers, and the steps of
//! installing it.
use crate::names::{file_in, first_file, join_file, pick_file, Disk};
use crate::notes::{Note, NoteModel};
use crate::text::{cat, cat3, same};
use crate::twin::Twin;
use vstd::prelude::*;

verus! {

/// A package file of a release.
#[derive(Debug)]
pub struct Package {
    pub name: String,
    pub url: String,
    pub size: u64,
}

/// The model of [`Package`].
#[verifier::ext_equal]
pub struct PackageModel {
    pub name: Seq<char>,
    pub url: Seq<char>,
    pub size: u64,
}

impl View for Package {
    type V = PackageModel;

    open spec fn view(&self) -> PackageModel {
        PackageModel {
            name: self.name@,
            url: self.url@,
            size: self.size,
        }
    }
}

impl DeepView for Package {
    type V = PackageModel;

    open spec fn deep_view(&self) -> PackageModel {
        self@
    }
}

impl Twin for Package {
    fn twin(&self) -> (r: Self) {
        Package {
            name: self.name.clone(),
            url: self.url.clone(),
            size: self.size,
        }
    }
}

/// What the dialog needs to know about the newer release.
#[derive(Debug)]
pub struct UpdateInfo {
    pub version: String,
    /// Release notes.
    pub notes: String,
    /// Release web page.
    pub html_url: String,
    pub asset_name: String,
    pub asset_url: String,
    pub size: u64,
    /// The published checksums, where the release has any.
    pub sums_url: Option<String>,
    /// Whether the program can install this update itself.
    pub in_place: bool,
    /// Whether finishing the update will ask for an administrator password.
    pub needs_auth: bool,
    /// The package for this machine, where the install is packaged.
    pub package: Option<Package>,
}

/// The model of [`UpdateInfo`].
#[verifier::ext_equal]
pub struct UpdateInfoModel {
    pub version: Seq<char>,
    pub notes: Seq<char>,
    pub html_url: Seq<char>,
    pub asset_name: Seq<char>,
    pub asset_url: Seq<char>,
    pub size: u64,
    pub sums_url: Option<Seq<char>>,
    pub in_place: bool,
    pub needs_auth: bool,
    pub package: Option<PackageModel>,
}

impl View for UpdateInfo {
    type V = UpdateInfoModel;

    open spec fn view(&self) -> UpdateInfoModel {
        UpdateInfoModel {
            version: self.version@,
            notes: self.notes@,
            html_url: self.html_url@,
            asset_name: self.asset_name@,
            asset_url: self.asset_url@,
            size: self.size,
            sums_url: self.sums_url.deep_view(),
            in_place: self.in_place,
            needs_auth: self.needs_auth,
            package: self.package.deep_view(),
        }
    }
}

impl DeepView for UpdateInfo {
    type V = UpdateInfoModel;

    open spec fn deep_view(&self) -> UpdateInfoModel {
        self@
    }
}

impl Twin for UpdateInfo {
    fn twin(&self) -> (r: Self) {
        UpdateInfo {
            version: self.version.clone(),
            notes: self.notes.clone(),
            html_url: self.html_url.clone(),
            asset_name: self.asset_name.clone(),
            asset_url: self.asset_url.clone(),
            size: self.size,
            sums_url: self.sums_url.twin(),
            in_place: self.in_place,
            needs_auth: self.needs_auth,
            package: self.package.twin(),
        }
    }
}


/// Progress of a running update.
#[derive(Debug)]
pub enum UpdateEvent {
    Progress(u64, Option<u64>),
    Verifying,
    Preparing,
    /// The finisher is running; the program must now exit so it can swap files.
    ReadyToRestart,
    Cancelled,
    Failed(String),
}

/// How an install may be brought up to date.
#[derive(Clone, Copy, PartialEq, Eq, Structural, Debug)]
pub enum UpdateMethod {
    /// The program replaces its own files.
    InPlace,
    /// As `InPlace`, after the user has authorised it.
    Elevated,
    /// The image file is replaced as a whole.
    AppImage,
    /// A package manager owns the files.
    Package,
}

impl UpdateMethod {
    pub open spec fn spec_self_update(self) -> bool {
        self != UpdateMethod::Package
    }

    pub fn is_self_update(self) -> (r: bool)
        ensures
            r == self.spec_self_update(),
    {
        match self {
            UpdateMethod::Package => false,
            _ => true,
        }
    }
}

/// A published release, and what of it fits this machine.
#[derive(Debug)]
pub struct Release {
    pub version: String,
    pub notes: String,
    pub html_url: String,
    /// The version is ahead of the one that runs.
    pub newer: bool,
    /// The bundle for this machine.
    pub bundle: Option<Package>,
    /// The image file for this machine.
    pub image: Option<Package>,
    /// The checksum file.
    pub sums_url: Option<String>,
    /// The package for this machine.
    pub package: Option<Package>,
}

/// The install that an update would replace, and the machine it is on.
#[derive(Debug)]
pub struct Install {
    /// The image file that the program runs from.
    pub image: Option<String>,
    /// The folder of the program, where it is known.
    pub dir: Option<String>,
    /// How that folder may be updated.
    pub method: UpdateMethod,
    /// Replacing the image file takes an authorisation.
    pub image_auth: bool,
    /// The system and the architecture, as bundles are named by them.
    pub os: String,
    pub arch: String,
    /// The architecture, as image files are named by it.
    pub image_arch: String,
}

/// The file of a release that an install is updated from: a program that runs
/// from an image is replaced by the new image.
pub open spec fn asset_for(rel: Release, at: Install) -> Option<Package> {
    if at.image is Some {
        rel.image
    } else {
        rel.bundle
    }
}

/// How an install is updated; one whose folder is not known is left to the
/// package manager.
pub open spec fn method_for(at: Install) -> UpdateMethod {
    if at.dir is Some {
        at.method
    } else {
        UpdateMethod::Package
    }
}

/// What an update would rewrite: the image file, else the folder.
pub open spec fn place_of(at: Install) -> Seq<char> {
    match at.image {
        Some(p) => p@,
        None => match at.dir {
            Some(d) => d@,
            None => "the install directory"@,
        },
    }
}

/// The name of the bundle that fits an install.
pub open spec fn bundle_name(at: Install) -> Seq<char> {
    if at.image is Some {
        at.image_arch@ + ".AppImage"@
    } else {
        at.os@ + "-"@ + at.arch@
    }
}

/// What a check comes to.
#[derive(Clone, Copy, PartialEq, Eq, Structural, Debug)]
pub enum Verdict {
    /// The release is not newer than what runs.
    UpToDate,
    /// It is, and has nothing for this machine.
    NoBundle,
    /// The files belong to a package manager: its installer is offered.
    Packaged,
    /// The program can update itself in this way.
    Updates(UpdateMethod),
}

pub open spec fn verdict_of(rel: Release, at: Install) -> Verdict {
    if !rel.newer {
        Verdict::UpToDate
    } else if asset_for(rel, at) is None {
        Verdict::NoBundle
    } else if !method_for(at).spec_self_update() {
        Verdict::Packaged
    } else {
        Verdict::Updates(method_for(at))
    }
}

/// What the log is told of a check; a program that is up to date tells nothing.
pub open spec fn verdict_note(rel: Release, at: Install) -> Option<NoteModel> {
    match verdict_of(rel, at) {
        Verdict::UpToDate => None,
        Verdict::NoBundle => Some(
            NoteModel::NoBundle { version: rel.version@, bundle: bundle_name(at) },
        ),
        Verdict::Packaged => Some(
            NoteModel::PackageOwned { version: rel.version@, place: place_of(at) },
        ),
        Verdict::Updates(method) => Some(
            NoteModel::Updatable { version: rel.version@, place: place_of(at), method },
        ),
    }
}

/// What a release offers to an install.
pub open spec fn offered(rel: Release, at: Install) -> Option<UpdateInfoModel> {
    let method = method_for(at);
    match asset_for(rel, at) {
        Some(a) if rel.newer => Some(
            UpdateInfoModel {
                version: rel.version@,
                notes: rel.notes@,
                html_url: rel.html_url@,
                asset_name: a.name@,
                asset_url: a.url@,
                size: a.size,
                sums_url: rel.sums_url.deep_view(),
                in_place: method.spec_self_update(),
                needs_auth: method == UpdateMethod::Elevated || method == UpdateMethod::AppImage
                    && at.image_auth,
                package: if method.spec_self_update() {
                    None
                } else {
                    rel.package.deep_view()
                },
            },
        ),
        _ => None,
    }
}

fn method_at(at: &Install) -> (r: UpdateMethod)
    ensures
        r == method_for(*at),
{
    if at.dir.is_some() {
        at.method
    } else {
        UpdateMethod::Package
    }
}

fn place_text(at: &Install) -> (r: String)
    ensures
        r@ == place_of(*at),
{
    match &at.image {
        Some(p) => p.clone(),
        None => match &at.dir {
            Some(d) => d.clone(),
            None => "the install directory".to_owned(),
        },
    }
}

fn bundle_text(at: &Install) -> (r: String)
    ensures
        r@ == bundle_name(*at),
{
    if at.image.is_some() {
        cat(&at.image_arch, ".AppImage")
    } else {
        cat3(&at.os, "-", &at.arch)
    }
}

/// What a check comes to, for a release and an install.
pub fn verdict(rel: &Release, at: &Install) -> (r: Verdict)
    ensures
        r == verdict_of(*rel, *at),
{
    let fits = if at.image.is_some() {
        rel.image.is_some()
    } else {
        rel.bundle.is_some()
    };
    let method = method_at(at);
    if !rel.newer {
        Verdict::UpToDate
    } else if !fits {
        Verdict::NoBundle
    } else if !method.is_self_update() {
        Verdict::Packaged
    } else {
        Verdict::Updates(method)
    }
}

/// What the dialog can offer: nothing where the release is not newer, or has no
/// bundle for this machine.
pub fn offer(rel: &Release, at: &Install) -> (r: Option<UpdateInfo>)
    ensures
        r.deep_view() == offered(*rel, *at),
{
    if !rel.newer {
        return None;
    }
    let fit = if at.image.is_some() {
        &rel.image
    } else {
        &rel.bundle
    };
    let asset = match fit {
        Some(a) => a,
        None => return None,
    };
    let method = method_at(at);
    let in_place = method.is_self_update();
    let package = if in_place {
        None
    } else {
        rel.package.twin()
    };
    let info = UpdateInfo {
        version: rel.version.clone(),
        notes: rel.notes.clone(),
        html_url: rel.html_url.clone(),
        asset_name: asset.name.clone(),
        asset_url: asset.url.clone(),
        size: asset.size,
        sums_url: rel.sums_url.twin(),
        in_place,
        needs_auth: match method {
            UpdateMethod::Elevated => true,
            UpdateMethod::AppImage => at.image_auth,
            _ => false,
        },
        package,
    };
    assert(info@ =~= offered(*rel, *at)->0);
    Some(info)
}

/// Holds a release against an install: what the dialog can offer, and what the
/// log is told. A release without a bundle for this machine is no offer; the log
/// tells it from being up to date.
pub fn check(rel: &Release, at: &Install) -> (r: (Option<UpdateInfo>, Option<Note>))
    ensures
        r.0.deep_view() == offered(*rel, *at),
        r.1.deep_view() == verdict_note(*rel, *at),
{
    let version = rel.version.clone();
    let note = match verdict(rel, at) {
        Verdict::UpToDate => None,
        Verdict::NoBundle => Some(Note::NoBundle { version, bundle: bundle_text(at) }),
        Verdict::Packaged => Some(Note::PackageOwned { version, place: place_text(at) }),
        Verdict::Updates(method) => Some(
            Note::Updatable { version, place: place_text(at), method },
        ),
    };
    (offer(rel, at), note)
}

/// The name the program gives itself on the network.
pub fn user_agent(version: &str) -> (r: String)
    ensures
        r@ == "hydra-gui/"@ + version@,
{
    cat("hydra-gui/", version)
}

// ------------------------------------------------------------------- the pipeline

/// Where a running update stands.
#[derive(Clone, Copy, PartialEq, Eq, Structural, Debug)]
pub enum Step {
    Download,
    /// Fetch the published checksums.
    Sums,
    /// Compare the archive's checksum with the published one.
    Compare,
    Unpack,
    /// Find the finisher and start it.
    Finish,
    End,
}

/// What came of a step.
#[derive(Debug)]
pub enum StepDone {
    /// The archive is on disk.
    Downloaded,
    /// The user called the download off.
    Interrupted,
    /// The step failed.
    Error(String),
    /// The published checksum of the archive, where there is one.
    Published(Option<String>),
    /// The archive's own checksum.
    Hashed(String),
    Unpacked,
    Started,
}

/// A running update: the step to perform, and the checksum it is held to.
#[derive(Debug)]
pub struct Run {
    pub step: Step,
    /// The release publishes checksums.
    pub has_sums: bool,
    /// The program runs from an image: nothing has to be unpacked.
    pub image: bool,
    pub want: Option<String>,
    /// The archive on disk is to be discarded.
    pub discard: bool,
}

/// The words for an archive that is not the published one.
pub open spec fn mismatch_words() -> Seq<char> {
    "checksum mismatch \u{2014} the downloaded archive was discarded"@
}

/// The step after the archive has been accepted.
pub open spec fn step_after_check(image: bool) -> Step {
    if image {
        Step::Finish
    } else {
        Step::Unpack
    }
}

/// The step that follows, given what came of the one under way.
pub open spec fn next_step(r: Run, done: StepDone) -> Step {
    match (r.step, done) {
        (Step::Download, StepDone::Downloaded) => if r.has_sums {
            Step::Sums
        } else {
            step_after_check(r.image)
        },
        (Step::Sums, StepDone::Published(Some(_))) => Step::Compare,
        (Step::Sums, StepDone::Published(None)) => step_after_check(r.image),
        (Step::Compare, StepDone::Hashed(got)) => if r.want is Some && got@ == r.want->0@ {
            step_after_check(r.image)
        } else {
            Step::End
        },
        (Step::Unpack, StepDone::Unpacked) => Step::Finish,
        _ => Step::End,
    }
}

/// What the dialog is told at that point.
pub open spec fn step_event(r: Run, done: StepDone) -> Option<UpdateEventModel> {
    match done {
        StepDone::Interrupted => Some(UpdateEventModel::Cancelled),
        StepDone::Error(e) => Some(UpdateEventModel::Failed(e@)),
        _ => match next_step(r, done) {
            Step::Sums => Some(UpdateEventModel::Verifying),
            Step::Unpack => Some(UpdateEventModel::Preparing),
            Step::Finish => if r.step == Step::Unpack {
                None
            } else {
                Some(UpdateEventModel::Preparing)
            },
            Step::Compare => None,
            Step::Download => None,
            Step::End => if r.step == Step::Finish && done is Started {
                Some(UpdateEventModel::ReadyToRestart)
            } else if r.step == Step::Compare && done is Hashed {
                Some(UpdateEventModel::Failed(mismatch_words()))
            } else {
                None
            },
        },
    }
}

/// The model of [`UpdateEvent`].
#[verifier::ext_equal]
pub enum UpdateEventModel {
    Progress(u64, Option<u64>),
    Verifying,
    Preparing,
    ReadyToRestart,
    Cancelled,
    Failed(Seq<char>),
}

impl View for UpdateEvent {
    type V = UpdateEventModel;

    open spec fn view(&self) -> UpdateEventModel {
        match *self {
            UpdateEvent::Progress(a, b) => UpdateEventModel::Progress(a, b),
            UpdateEvent::Verifying => UpdateEventModel::Verifying,
            UpdateEvent::Preparing => UpdateEventModel::Preparing,
            UpdateEvent::ReadyToRestart => UpdateEventModel::ReadyToRestart,
            UpdateEvent::Cancelled => UpdateEventModel::Cancelled,
            UpdateEvent::Failed(e) => UpdateEventModel::Failed(e@),
        }
    }
}

impl DeepView for UpdateEvent {
    type V = UpdateEventModel;

    open spec fn deep_view(&self) -> UpdateEventModel {
        self@
    }
}

impl UpdateEventModel {
    /// What the log is told of the end of an update to `version`: a failure, and
    /// a finisher that runs. One that was called off tells nothing.
    pub open spec fn note(self, version: Seq<char>) -> Option<NoteModel> {
        match self {
            UpdateEventModel::Failed(error) => Some(NoteModel::UpdateFailed { error }),
            UpdateEventModel::ReadyToRestart => Some(NoteModel::FinisherStarted { version }),
            _ => None,
        }
    }
}

impl UpdateEvent {
    /// What the log is told, before the dialog is.
    pub fn note(&self, version: &str) -> (r: Option<Note>)
        ensures
            r.deep_view() == self@.note(version@),
    {
        match self {
            UpdateEvent::Failed(e) => Some(Note::UpdateFailed { error: e.clone() }),
            UpdateEvent::ReadyToRestart => Some(
                Note::FinisherStarted { version: version.to_owned() },
            ),
            _ => None,
        }
    }
}

impl Run {
    /// An update that has yet to download its archive.
    pub fn new(has_sums: bool, image: bool) -> (r: Run)
        ensures
            r.step == Step::Download,
            r.has_sums == has_sums,
            r.image == image,
            r.want is None,
            !r.discard,
    {
        Run { step: Step::Download, has_sums, image, want: None, discard: false }
    }

    fn after_check(&self) -> (r: Step)
        ensures
            r == step_after_check(self.image),
    {
        if self.image {
            Step::Finish
        } else {
            Step::Unpack
        }
    }

    /// Takes what came of the step under way, moves on to the next one and
    /// answers what the dialog is to be told. An archive whose checksum is not
    /// the published one is discarded.
    pub fn advance(&mut self, done: StepDone) -> (r: Option<UpdateEvent>)
        ensures
            final(self).step == next_step(*old(self), done),
            final(self).has_sums == old(self).has_sums,
            final(self).image == old(self).image,
            final(self).want == (match done {
                StepDone::Published(w) if old(self).step == Step::Sums => w,
                _ => old(self).want,
            }),
            final(self).discard == (old(self).discard || (old(self).step == Step::Compare && done
                is Hashed && next_step(*old(self), done) == Step::End)),
            r.deep_view() == step_event(*old(self), done),
    {
        let was = self.step;
        match done {
            StepDone::Interrupted => {
                self.step = Step::End;
                Some(UpdateEvent::Cancelled)
            },
            StepDone::Error(e) => {
                self.step = Step::End;
                Some(UpdateEvent::Failed(e))
            },
            StepDone::Downloaded => {
                if was != Step::Download {
                    self.step = Step::End;
                    return None;
                }
                if self.has_sums {
                    self.step = Step::Sums;
                    return Some(UpdateEvent::Verifying);
                }
                self.step = self.after_check();
                Some(UpdateEvent::Preparing)
            },
            StepDone::Published(w) => {
                if was != Step::Sums {
                    self.step = Step::End;
                    return None;
                }
                if w.is_some() {
                    self.want = w;
                    self.step = Step::Compare;
                    return None;
                }
                self.want = w;
                self.step = self.after_check();
                Some(UpdateEvent::Preparing)
            },
            StepDone::Hashed(got) => {
                if was != Step::Compare {
                    self.step = Step::End;
                    return None;
                }
                let good = match &self.want {
                    Some(w) => same(&got, w),
                    None => false,
                };
                if good {
                    self.step = self.after_check();
                    return Some(UpdateEvent::Preparing);
                }
                self.step = Step::End;
                self.discard = true;
                Some(
                    UpdateEvent::Failed(
                        "checksum mismatch \u{2014} the downloaded archive was discarded".to_owned(),
                    ),
                )
            },
            StepDone::Unpacked => {
                if was != Step::Unpack {
                    self.step = Step::End;
                    return None;
                }
                self.step = Step::Finish;
                None
            },
            StepDone::Started => {
                self.step = Step::End;
                if was == Step::Finish {
                    return Some(UpdateEvent::ReadyToRestart);
                }
                None
            },
        }
    }
}

/// The name of the finisher.
pub open spec fn finisher_name(windows: bool) -> Seq<char> {
    if windows {
        "hydra-updater.exe"@
    } else {
        "hydra-updater"@
    }
}

pub fn finisher_file(windows: bool) -> (r: &'static str)
    ensures
        r@ == finisher_name(windows),
{
    if windows {
        "hydra-updater.exe"
    } else {
        "hydra-updater"
    }
}

/// The places where the finisher is looked for, best first: the release's own
/// copy, then the one beside the program.
pub open spec fn finisher_places(
    bundle: Option<Seq<char>>,
    install: Seq<char>,
    windows: bool,
) -> Seq<Seq<char>> {
    let name = finisher_name(windows);
    match bundle {
        Some(b) => seq![file_in(b, name, windows), file_in(install, name, windows)],
        None => seq![file_in(install, name, windows)],
    }
}

pub fn finisher_candidates(bundle: &Option<String>, install: &str, windows: bool) -> (r: Vec<String>)
    ensures
        r.deep_view() == finisher_places(bundle.deep_view(), install@, windows),
{
    let name = finisher_file(windows);
    let mut r: Vec<String> = Vec::new();
    match bundle {
        Some(b) => {
            r.push(join_file(b, name, windows));
        },
        None => {},
    }
    r.push(join_file(install, name, windows));
    assert(r.deep_view() =~= finisher_places(bundle.deep_view(), install@, windows));
    r
}

/// The words for an update whose finisher is nowhere.
pub open spec fn no_finisher_words(name: Seq<char>, archive: Seq<char>) -> Seq<char> {
    "no "@ + name
        + " in the release bundle or next to the app; the downloaded update is at "@ + archive
}

/// The finisher that an update runs: the release's own copy, matched to what it
/// installs, or the one beside the program.
pub fn pick_finisher(
    bundle: &Option<String>,
    install: &str,
    windows: bool,
    archive: &str,
    disk: &Disk,
) -> (r: Result<String, String>)
    ensures
        match first_file(finisher_places(bundle.deep_view(), install@, windows), disk@) {
            Some(p) => r matches Ok(f) && f@ == p,
            None => r matches Err(e) && e@ == no_finisher_words(finisher_name(windows), archive@),
        },
{
    if let Some(p) = pick_file(&finisher_candidates(bundle, install, windows), disk) {
        return Ok(p);
    }
    let s = cat3(
        "no ",
        finisher_file(windows),
        " in the release bundle or next to the app; the downloaded update is at ",
    );
    Err(cat(&s, archive))
}

/// The paths an update works with.
#[derive(Debug)]
pub struct UpdatePaths {
    /// The archive that was downloaded.
    pub archive: String,
    /// The image file the program was launched from.
    pub image: Option<String>,
    /// The unpacked archive.
    pub bundle: Option<String>,
    pub install_dir: String,
    pub exe: String,
    /// The profile the program runs on, where it is not the default one.
    pub profile: Option<String>,
}

/// The arguments that bring the program back on its own profile.
pub open spec fn profile_args(p: Option<Seq<char>>) -> Seq<Seq<char>> {
    match p {
        Some(dir) => seq!["--relaunch-arg"@, "--config"@, "--relaunch-arg"@, dir],
        None => seq![],
    }
}

/// The words for an update that has left nothing to install.
pub open spec fn nothing_words() -> Seq<char> {
    "nothing was extracted to install"@
}

/// The finisher's arguments; none where there is nothing to install.
pub open spec fn finisher_command(p: UpdatePaths, version: Seq<char>) -> Option<Seq<Seq<char>>> {
    match (p.image, p.bundle) {
        (Some(img), _) => Some(
            seq![
                "--src-file"@,
                p.archive@,
                "--appimage"@,
                img@,
                "--relaunch"@,
                img@,
            ] + profile_args(p.profile.deep_view()),
        ),
        (None, Some(b)) => Some(
            seq![
                "--src-dir"@,
                b@,
                "--install-dir"@,
                p.install_dir@,
                "--app-version"@,
                version,
                "--relaunch"@,
                p.exe@,
            ] + profile_args(p.profile.deep_view()),
        ),
        (None, None) => None,
    }
}

fn push_profile(v: &mut Vec<String>, profile: &Option<String>)
    ensures
        final(v).deep_view() == old(v).deep_view() + profile_args(profile.deep_view()),
{
    let ghost before = v.deep_view();
    match profile {
        Some(dir) => {
            v.push("--relaunch-arg".to_owned());
            v.push("--config".to_owned());
            v.push("--relaunch-arg".to_owned());
            v.push(dir.clone());
        },
        None => {},
    }
    assert(v.deep_view() =~= before + profile_args(profile.deep_view()));
}

fn image_args(archive: &String, img: &String) -> (r: Vec<String>)
    ensures
        r.deep_view() == seq![
            "--src-file"@,
            archive@,
            "--appimage"@,
            img@,
            "--relaunch"@,
            img@,
        ],
{
    let mut r: Vec<String> = Vec::new();
    r.push("--src-file".to_owned());
    r.push(archive.clone());
    r.push("--appimage".to_owned());
    r.push(img.clone());
    r.push("--relaunch".to_owned());
    r.push(img.clone());
    assert(r.deep_view() =~= seq![
        "--src-file"@,
        archive@,
        "--appimage"@,
        img@,
        "--relaunch"@,
        img@,
    ]);
    r
}

fn bundle_args(bundle: &String, install: &String, version: &str, exe: &String) -> (r: Vec<String>)
    ensures
        r.deep_view() == seq![
            "--src-dir"@,
            bundle@,
            "--install-dir"@,
            install@,
            "--app-version"@,
            version@,
            "--relaunch"@,
            exe@,
        ],
{
    let mut r: Vec<String> = Vec::new();
    r.push("--src-dir".to_owned());
    r.push(bundle.clone());
    r.push("--install-dir".to_owned());
    r.push(install.clone());
    r.push("--app-version".to_owned());
    r.push(version.to_owned());
    r.push("--relaunch".to_owned());
    r.push(exe.clone());
    assert(r.deep_view() =~= seq![
        "--src-dir"@,
        bundle@,
        "--install-dir"@,
        install@,
        "--app-version"@,
        version@,
        "--relaunch"@,
        exe@,
    ]);
    r
}

/// What the finisher is started with: the image replaces the image the user
/// launched, an unpacked bundle replaces the files of the install.
pub fn finisher_args(p: &UpdatePaths, version: &str) -> (r: Result<Vec<String>, String>)
    ensures
        match finisher_command(*p, version@) {
            Some(c) => r matches Ok(v) && v.deep_view() == c,
            None => r matches Err(e) && e@ == nothing_words(),
        },
{
    let mut v = match (&p.image, &p.bundle) {
        (Some(img), _) => image_args(&p.archive, img),
        (None, Some(b)) => bundle_args(b, &p.install_dir, version, &p.exe),
        (None, None) => return Err("nothing was extracted to install".to_owned()),
    };
    push_profile(&mut v, &p.profile);
    Ok(v)
}

// ------------------------------------------------------------------------- laws

/// The outcomes of a check, told apart: a release is offered where it is newer
/// and has something for this machine, in place unless a package manager owns the
/// files, and each outcome but being up to date has its own line in the log.
pub proof fn outcomes_are_told_apart(rel: Release, at: Install)
    ensures
        verdict_of(rel, at) == Verdict::UpToDate <==> !rel.newer,
        verdict_of(rel, at) == Verdict::NoBundle <==> rel.newer && asset_for(rel, at) is None,
        offered(rel, at) is Some <==> (verdict_of(rel, at) is Packaged || verdict_of(rel, at)
            is Updates),
        offered(rel, at) matches Some(i) ==> (i.in_place <==> verdict_of(rel, at) is Updates),
        verdict_note(rel, at) is None <==> verdict_of(rel, at) is UpToDate,
        verdict_note(rel, at) matches Some(n) ==> {
            &&& (n is NoBundle <==> verdict_of(rel, at) is NoBundle)
            &&& (n is PackageOwned <==> verdict_of(rel, at) is Packaged)
            &&& (n is Updatable <==> verdict_of(rel, at) is Updates)
        },
{
}

/// An update that was called off leaves no line in the log; one that failed does,
/// with what failed.
pub proof fn only_failures_are_logged_as_such(r: Run, done: StepDone, version: Seq<char>)
    ensures
        done is Interrupted ==> step_event(r, done)->0.note(version) is None,
        done matches StepDone::Error(e) ==> step_event(r, done)->0.note(version) == Some(
            NoteModel::UpdateFailed { error: e@ },
        ),
        r.step == Step::Finish && done is Started ==> step_event(r, done)->0.note(version) == Some(
            NoteModel::FinisherStarted { version },
        ),
{
}

/// The finisher is never reached with an archive that differs from its
/// published checksum.
pub proof fn only_the_published_archive_is_installed(r: Run, got: String)
    requires
        r.step == Step::Compare,
        r.want is Some,
        got@ != r.want->0@,
    ensures
        next_step(r, StepDone::Hashed(got)) == Step::End,
        step_event(r, StepDone::Hashed(got)) == Some(UpdateEventModel::Failed(mismatch_words())),
{
}

/// Where checksums are published, a downloaded archive is not prepared before
/// they have been read.
pub proof fn published_checksums_are_read_first(r: Run)
    requires
        r.step == Step::Download,
        r.has_sums,
    ensures
        next_step(r, StepDone::Downloaded) == Step::Sums,
{
}

/// Whatever fails ends the update and is told.
pub proof fn failures_end_the_update(r: Run, e: String)
    ensures
        next_step(r, StepDone::Error(e)) == Step::End,
        step_event(r, StepDone::Error(e)) == Some(UpdateEventModel::Failed(e@)),
{
}

} // verus!
