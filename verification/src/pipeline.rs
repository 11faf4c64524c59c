use vstd::prelude::*;
use vstd::pervasive::unreached;

use crate::errors::ErrorModel;
use crate::errors::PipelineError;
use crate::naming::resolve_name;
use crate::naming::resolved_name;
use crate::package::Distfile;
use crate::package::Package;
use crate::paths::artifact_file_name;
use crate::paths::artifact_name_of;
use crate::paths::join_path;
use crate::paths::joined_path;
use crate::verify::digest_len_supported;
use crate::verify::digest_matches;
use crate::verify::verify;
use crate::verify::verify_post;
use vstd::string::StrSliceExecFns;

verus! {

/// Where one pipeline run stands. The `Await` phases name the outside
/// operation the driver has been asked to perform; `Done` and `Failed` are
/// terminal.
#[derive(PartialEq, Eq, Structural, Clone, Copy, Debug)]
pub enum Phase {
    /// Nothing has happened yet; the run starts with `Event::Start`.
    Ready,
    /// The driver is reading the cached copy of distfile `idx`.
    AwaitCacheRead { idx: usize },
    /// The driver is fetching distfile `idx` over the network.
    AwaitFetch { idx: usize },
    /// The driver is writing the verified bytes of distfile `idx` to the
    /// cache.
    AwaitCacheWrite { idx: usize },
    /// The driver is recreating the staging root.
    AwaitStaging,
    /// The driver is copying distfile `idx` into the work subtree.
    AwaitCopy { idx: usize },
    /// The driver is writing the build script into the staging root.
    AwaitScriptWrite,
    /// The driver is running the build script.
    AwaitBuild,
    /// The driver is archiving the output subtree.
    AwaitPackage,
    /// The run succeeded and the artifact exists.
    Done,
    /// The run failed; nothing further happens.
    Failed,
}

/// What the driver reports back after performing the requested action.
pub enum Event {
    /// Begin the run.
    Start,
    /// The cache read finished: the file's bytes, or `None` when there is
    /// no cached copy.
    CacheRead { data: Option<Vec<u8>> },
    /// The network fetch finished: the response body, or `None` when the
    /// retrieval failed.
    Fetched { body: Option<Vec<u8>> },
    /// The cache write finished.
    CacheWritten { ok: bool },
    /// The staging root was recreated (or could not be).
    StagingReady { ok: bool },
    /// The copy into the work subtree finished.
    Copied { ok: bool },
    /// The build script was written (or could not be).
    ScriptWritten { ok: bool },
    /// The build script exited; `code` is its exit code, `None` when it was
    /// terminated without one.
    BuildExited { code: Option<i32> },
    /// The archiving step finished.
    Packaged { ok: bool },
}

/// What the driver must do next. Every path the machine hands out was
/// built from the run's configured directories and resolved names.
pub enum Action {
    /// Read the file at `path`; answer with `Event::CacheRead`.
    ReadCache { path: String },
    /// Issue a blocking HTTP GET against `uri`; answer with
    /// `Event::Fetched`.
    Fetch { uri: String },
    /// Write `data` to `path`, creating or overwriting the file; answer
    /// with `Event::CacheWritten`.
    WriteCache { path: String, data: Vec<u8> },
    /// Remove `root` recursively if it exists, then create `root`,
    /// `work_dir` and `out_dir`; answer with `Event::StagingReady`.
    PrepareStaging { root: String, work_dir: String, out_dir: String },
    /// Copy the file at `from` to `to`; answer with `Event::Copied`.
    CopyDistfile { from: String, to: String },
    /// Write `script` verbatim to `path`; answer with
    /// `Event::ScriptWritten`.
    WriteScript { path: String, script: String },
    /// Run the shell on `script_path` with exit-on-first-failure semantics,
    /// the working directory set to `work_dir` and the environment exposing
    /// `out_dir` as the output directory; answer with `Event::BuildExited`.
    RunBuild { script_path: String, work_dir: String, out_dir: String },
    /// Archive the contents of `out_dir` into `artifact` in the process's
    /// working directory; answer with `Event::Packaged`.
    PackageOut { out_dir: String, artifact: String },
    /// The run succeeded; nothing is left to do.
    Finished,
    /// The run failed with `error`; nothing is left to do.
    Fail { error: PipelineError },
}

/// One run of the verified build pipeline, driven from outside: the driver
/// performs each returned `Action` and feeds the outcome back as an
/// `Event`.
pub struct Pipeline {
    pub package_name: String,
    pub version: String,
    pub build_script: String,
    pub distfiles: Vec<Distfile>,
    pub distdir: String,
    pub staging_root: String,
    pub phase: Phase,
}

/// Which event answers which phase. Terminal phases take no event.
pub open spec fn event_fits(phase: Phase, event: Event) -> bool {
    match phase {
        Phase::Ready => event is Start,
        Phase::AwaitCacheRead { .. } => event is CacheRead,
        Phase::AwaitFetch { .. } => event is Fetched,
        Phase::AwaitCacheWrite { .. } => event is CacheWritten,
        Phase::AwaitStaging => event is StagingReady,
        Phase::AwaitCopy { .. } => event is Copied,
        Phase::AwaitScriptWrite => event is ScriptWritten,
        Phase::AwaitBuild => event is BuildExited,
        Phase::AwaitPackage => event is Packaged,
        Phase::Done => false,
        Phase::Failed => false,
    }
}

/// Everything but the phase stays as it was.
pub open spec fn fields_unchanged(pre: Pipeline, post: Pipeline) -> bool {
    &&& post.package_name == pre.package_name
    &&& post.version == pre.version
    &&& post.build_script == pre.build_script
    &&& post.distfiles == pre.distfiles
    &&& post.distdir == pre.distdir
    &&& post.staging_root == pre.staging_root
}

/// The machine failed with exactly `e`.
pub open spec fn failed_with(pre: Pipeline, post: Pipeline, action: Action, e: ErrorModel) -> bool {
    &&& fields_unchanged(pre, post)
    &&& post.phase is Failed
    &&& action matches Action::Fail { error } && error@ == e
}

/// Entering the fetch-or-reuse stage for distfile `k`: ask for its cached
/// copy, or, when every distfile is local, ask for the staging root to be
/// recreated. A distfile whose name cannot be resolved fails the run.
pub open spec fn begin_post(pre: Pipeline, k: int, post: Pipeline, action: Action) -> bool {
    if k < pre.distfiles@.len() {
        match resolved_name(pre.distfiles@[k]@) {
            Option::Some(nm) => {
                &&& fields_unchanged(pre, post)
                &&& post.phase matches Phase::AwaitCacheRead { idx } && idx == k
                &&& action matches Action::ReadCache { path } && path@ == joined_path(
                    pre.distdir@,
                    nm,
                )
            },
            Option::None => failed_with(pre, post, action, ErrorModel::NameResolution),
        }
    } else {
        &&& fields_unchanged(pre, post)
        &&& post.phase is AwaitStaging
        &&& action matches Action::PrepareStaging { root, work_dir, out_dir }
            && root@ == pre.staging_root@
            && work_dir@ == joined_path(pre.staging_root@, "work"@)
            && out_dir@ == joined_path(pre.staging_root@, "out"@)
    }
}

/// Entering the staging copy for distfile `k`: ask for its cached file to
/// be copied into the work subtree, or, when every distfile is staged, ask
/// for the build script to be written.
pub open spec fn copy_post(pre: Pipeline, k: int, post: Pipeline, action: Action) -> bool {
    if k < pre.distfiles@.len() {
        match resolved_name(pre.distfiles@[k]@) {
            Option::Some(nm) => {
                &&& fields_unchanged(pre, post)
                &&& post.phase matches Phase::AwaitCopy { idx } && idx == k
                &&& action matches Action::CopyDistfile { from, to }
                    && from@ == joined_path(pre.distdir@, nm)
                    && to@ == joined_path(joined_path(pre.staging_root@, "work"@), nm)
            },
            Option::None => failed_with(pre, post, action, ErrorModel::NameResolution),
        }
    } else {
        &&& fields_unchanged(pre, post)
        &&& post.phase is AwaitScriptWrite
        &&& action matches Action::WriteScript { path, script }
            && path@ == joined_path(pre.staging_root@, "build"@)
            && script@ == pre.build_script@
    }
}

/// The full transition relation of the machine: from the phase of `pre` and
/// the event, exactly which phase and which action follow.
pub open spec fn step_post(pre: Pipeline, event: Event, post: Pipeline, action: Action) -> bool {
    match pre.phase {
        Phase::Ready => begin_post(pre, 0, post, action),
        Phase::AwaitCacheRead { idx } => {
            &&& event matches Event::CacheRead { data }
            &&& match data {
                Option::Some(buf) => {
                    if digest_matches(pre.distfiles@[idx as int]@.blake2b, buf@) {
                        begin_post(pre, idx + 1, post, action)
                    } else {
                        &&& fields_unchanged(pre, post)
                        &&& post.phase is Failed
                        &&& action matches Action::Fail { error } && verify_post(
                            pre.distfiles@[idx as int]@.blake2b,
                            buf@,
                            Err(error),
                        )
                    }
                },
                Option::None => {
                    &&& fields_unchanged(pre, post)
                    &&& post.phase matches Phase::AwaitFetch { idx: j } && j == idx
                    &&& action matches Action::Fetch { uri } && uri@ == pre.distfiles@[
                        idx as int
                    ]@.uri
                },
            }
        },
        Phase::AwaitFetch { idx } => {
            &&& event matches Event::Fetched { body }
            &&& match body {
                Option::Some(buf) => match resolved_name(pre.distfiles@[idx as int]@) {
                    Option::Some(nm) => {
                        if digest_matches(pre.distfiles@[idx as int]@.blake2b, buf@) {
                            &&& fields_unchanged(pre, post)
                            &&& post.phase matches Phase::AwaitCacheWrite { idx: j } && j == idx
                            &&& action matches Action::WriteCache { path, data }
                                && path@ == joined_path(pre.distdir@, nm)
                                && data@ == buf@
                        } else {
                            &&& fields_unchanged(pre, post)
                            &&& post.phase is Failed
                            &&& action matches Action::Fail { error } && verify_post(
                                pre.distfiles@[idx as int]@.blake2b,
                                buf@,
                                Err(error),
                            )
                        }
                    },
                    Option::None => failed_with(pre, post, action, ErrorModel::NameResolution),
                },
                Option::None => failed_with(pre, post, action, ErrorModel::FetchFailure),
            }
        },
        Phase::AwaitCacheWrite { idx } => {
            &&& event matches Event::CacheWritten { ok }
            &&& if ok {
                begin_post(pre, idx + 1, post, action)
            } else {
                failed_with(pre, post, action, ErrorModel::FilesystemFailure)
            }
        },
        Phase::AwaitStaging => {
            &&& event matches Event::StagingReady { ok }
            &&& if ok {
                copy_post(pre, 0, post, action)
            } else {
                failed_with(pre, post, action, ErrorModel::FilesystemFailure)
            }
        },
        Phase::AwaitCopy { idx } => {
            &&& event matches Event::Copied { ok }
            &&& if ok {
                copy_post(pre, idx + 1, post, action)
            } else {
                failed_with(pre, post, action, ErrorModel::FilesystemFailure)
            }
        },
        Phase::AwaitScriptWrite => {
            &&& event matches Event::ScriptWritten { ok }
            &&& if ok {
                &&& fields_unchanged(pre, post)
                &&& post.phase is AwaitBuild
                &&& action matches Action::RunBuild { script_path, work_dir, out_dir }
                    && script_path@ == joined_path(pre.staging_root@, "build"@)
                    && work_dir@ == joined_path(pre.staging_root@, "work"@)
                    && out_dir@ == joined_path(pre.staging_root@, "out"@)
            } else {
                failed_with(pre, post, action, ErrorModel::FilesystemFailure)
            }
        },
        Phase::AwaitBuild => {
            &&& event matches Event::BuildExited { code }
            &&& if code == Some(0i32) {
                &&& fields_unchanged(pre, post)
                &&& post.phase is AwaitPackage
                &&& action matches Action::PackageOut { out_dir, artifact }
                    && out_dir@ == joined_path(pre.staging_root@, "out"@)
                    && artifact@ == artifact_name_of(pre.package_name@, pre.version@)
            } else {
                failed_with(pre, post, action, ErrorModel::BuildFailed { code })
            }
        },
        Phase::AwaitPackage => {
            &&& event matches Event::Packaged { ok }
            &&& if ok {
                &&& fields_unchanged(pre, post)
                &&& post.phase is Done
                &&& action is Finished
            } else {
                failed_with(pre, post, action, ErrorModel::PackagingFailure)
            }
        },
        Phase::Done => false,
        Phase::Failed => false,
    }
}

impl Pipeline {
    /// Well-formedness: every distfile selects a digest size BLAKE2b can
    /// produce, and a phase that points at a distfile points at one that
    /// exists.
    pub open spec fn wf(self) -> bool {
        &&& forall|i: int|
            0 <= i < self.distfiles@.len() ==> digest_len_supported(
                #[trigger] self.distfiles@[i]@.blake2b,
            )
        &&& match self.phase {
            Phase::AwaitCacheRead { idx } => idx < self.distfiles.len(),
            Phase::AwaitFetch { idx } => idx < self.distfiles.len(),
            Phase::AwaitCacheWrite { idx } => idx < self.distfiles.len(),
            Phase::AwaitCopy { idx } => idx < self.distfiles.len(),
            _ => true,
        }
    }

    /// Set up a run for `package`. Returns nothing when some distfile's
    /// expected digest selects a size BLAKE2b cannot produce (fewer than 2
    /// or more than 129 hex characters).
    pub fn new(package: Package, package_name: &str, distdir: &str, staging_root: &str) -> (r:
        Option<Pipeline>)
        ensures
            r is Some <==> (forall|i: int|
                0 <= i < package.spec_distfiles().len() ==> digest_len_supported(
                    #[trigger] package.spec_distfiles()[i]@.blake2b,
                )),
            r matches Some(p) ==> {
                &&& p.wf()
                &&& p.phase is Ready
                &&& p.package_name@ == package_name@
                &&& p.version@ == package.version@
                &&& p.build_script@ == package.build@
                &&& p.distfiles@ == package.spec_distfiles()
                &&& p.distdir@ == distdir@
                &&& p.staging_root@ == staging_root@
            },
    {
        let Package { version, build, depends: _, distfiles: distfiles_opt } = package;
        let distfiles = match distfiles_opt {
            Some(v) => v,
            None => Vec::new(),
        };
        let mut i: usize = 0;
        while i < distfiles.len()
            invariant
                i <= distfiles@.len(),
                distfiles@ == package.spec_distfiles(),
                forall|j: int|
                    0 <= j < i ==> digest_len_supported(#[trigger] distfiles@[j]@.blake2b),
            decreases distfiles@.len() - i,
        {
            let l = distfiles[i].blake2b.as_str().unicode_len();
            if l / 2 < 1 || l / 2 > 64 {
                proof {
                    assert(!digest_len_supported(package.spec_distfiles()[i as int]@.blake2b));
                }
                return None;
            }
            i = i + 1;
        }
        Some(
            Pipeline {
                package_name: package_name.to_owned(),
                version,
                build_script: build,
                distfiles,
                distdir: distdir.to_owned(),
                staging_root: staging_root.to_owned(),
                phase: Phase::Ready,
            },
        )
    }

    /// Move to distfile `k`'s fetch-or-reuse stage, or to staging when all
    /// distfiles are local.
    fn begin_distfile(&mut self, k: usize) -> (action: Action)
        requires
            old(self).wf(),
            k <= old(self).distfiles@.len(),
        ensures
            final(self).wf(),
            begin_post(*old(self), k as int, *final(self), action),
    {
        if k < self.distfiles.len() {
            let d = &self.distfiles[k];
            match resolve_name(d) {
                Ok(name) => {
                    let path = join_path(self.distdir.as_str(), name.as_str());
                    self.phase = Phase::AwaitCacheRead { idx: k };
                    Action::ReadCache { path }
                },
                Err(error) => {
                    self.phase = Phase::Failed;
                    Action::Fail { error }
                },
            }
        } else {
            let work_dir = join_path(self.staging_root.as_str(), "work");
            let out_dir = join_path(self.staging_root.as_str(), "out");
            let root = self.staging_root.clone();
            self.phase = Phase::AwaitStaging;
            Action::PrepareStaging { root, work_dir, out_dir }
        }
    }

    /// Move to distfile `k`'s staging copy, or to the script write when all
    /// distfiles are staged.
    fn begin_copy(&mut self, k: usize) -> (action: Action)
        requires
            old(self).wf(),
            k <= old(self).distfiles@.len(),
        ensures
            final(self).wf(),
            copy_post(*old(self), k as int, *final(self), action),
    {
        if k < self.distfiles.len() {
            let d = &self.distfiles[k];
            match resolve_name(d) {
                Ok(name) => {
                    let from = join_path(self.distdir.as_str(), name.as_str());
                    let work_dir = join_path(self.staging_root.as_str(), "work");
                    let to = join_path(work_dir.as_str(), name.as_str());
                    self.phase = Phase::AwaitCopy { idx: k };
                    Action::CopyDistfile { from, to }
                },
                Err(error) => {
                    self.phase = Phase::Failed;
                    Action::Fail { error }
                },
            }
        } else {
            let path = join_path(self.staging_root.as_str(), "build");
            let script = self.build_script.clone();
            self.phase = Phase::AwaitScriptWrite;
            Action::WriteScript { path, script }
        }
    }

    /// One transition: take the driver's answer to the last action and hand
    /// out the next action. The whole behaviour is pinned by `step_post`.
    pub fn step(&mut self, event: Event) -> (action: Action)
        requires
            old(self).wf(),
            event_fits(old(self).phase, event),
        ensures
            final(self).wf(),
            step_post(*old(self), event, *final(self), action),
    {
        match (self.phase, event) {
            (Phase::Ready, Event::Start) => self.begin_distfile(0),
            (Phase::AwaitCacheRead { idx }, Event::CacheRead { data }) => match data {
                Some(buf) => {
                    proof {
                        assert(digest_len_supported(old(self).distfiles@[idx as int]@.blake2b));
                    }
                    let d = &self.distfiles[idx];
                    match verify(d.blake2b.as_str(), buf.as_slice()) {
                        Ok(()) => self.begin_distfile(idx + 1),
                        Err(error) => {
                            self.phase = Phase::Failed;
                            Action::Fail { error }
                        },
                    }
                },
                None => {
                    let uri = self.distfiles[idx].uri.clone();
                    self.phase = Phase::AwaitFetch { idx };
                    Action::Fetch { uri }
                },
            },
            (Phase::AwaitFetch { idx }, Event::Fetched { body }) => match body {
                Some(buf) => {
                    proof {
                        assert(digest_len_supported(old(self).distfiles@[idx as int]@.blake2b));
                    }
                    let d = &self.distfiles[idx];
                    match resolve_name(d) {
                        Ok(name) => match verify(d.blake2b.as_str(), buf.as_slice()) {
                            Ok(()) => {
                                let path = join_path(self.distdir.as_str(), name.as_str());
                                self.phase = Phase::AwaitCacheWrite { idx };
                                Action::WriteCache { path, data: buf }
                            },
                            Err(error) => {
                                self.phase = Phase::Failed;
                                Action::Fail { error }
                            },
                        },
                        Err(error) => {
                            self.phase = Phase::Failed;
                            Action::Fail { error }
                        },
                    }
                },
                None => {
                    self.phase = Phase::Failed;
                    Action::Fail { error: PipelineError::FetchFailure }
                },
            },
            (Phase::AwaitCacheWrite { idx }, Event::CacheWritten { ok }) => {
                if ok {
                    self.begin_distfile(idx + 1)
                } else {
                    self.phase = Phase::Failed;
                    Action::Fail { error: PipelineError::FilesystemFailure }
                }
            },
            (Phase::AwaitStaging, Event::StagingReady { ok }) => {
                if ok {
                    self.begin_copy(0)
                } else {
                    self.phase = Phase::Failed;
                    Action::Fail { error: PipelineError::FilesystemFailure }
                }
            },
            (Phase::AwaitCopy { idx }, Event::Copied { ok }) => {
                if ok {
                    self.begin_copy(idx + 1)
                } else {
                    self.phase = Phase::Failed;
                    Action::Fail { error: PipelineError::FilesystemFailure }
                }
            },
            (Phase::AwaitScriptWrite, Event::ScriptWritten { ok }) => {
                if ok {
                    let script_path = join_path(self.staging_root.as_str(), "build");
                    let work_dir = join_path(self.staging_root.as_str(), "work");
                    let out_dir = join_path(self.staging_root.as_str(), "out");
                    self.phase = Phase::AwaitBuild;
                    Action::RunBuild { script_path, work_dir, out_dir }
                } else {
                    self.phase = Phase::Failed;
                    Action::Fail { error: PipelineError::FilesystemFailure }
                }
            },
            (Phase::AwaitBuild, Event::BuildExited { code }) => {
                let success = match code {
                    Some(c) => c == 0,
                    None => false,
                };
                if success {
                    let out_dir = join_path(self.staging_root.as_str(), "out");
                    let artifact = artifact_file_name(
                        self.package_name.as_str(),
                        self.version.as_str(),
                    );
                    self.phase = Phase::AwaitPackage;
                    Action::PackageOut { out_dir, artifact }
                } else {
                    self.phase = Phase::Failed;
                    Action::Fail { error: PipelineError::BuildFailed { code } }
                }
            },
            (Phase::AwaitPackage, Event::Packaged { ok }) => {
                if ok {
                    self.phase = Phase::Done;
                    Action::Finished
                } else {
                    self.phase = Phase::Failed;
                    Action::Fail { error: PipelineError::PackagingFailure }
                }
            },
            _ => unreached(),
        }
    }
}

} // verus!
