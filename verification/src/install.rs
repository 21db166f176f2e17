//! What one provisioning run installs: the archives it fetches, the name
//! under which the binary of each is installed, and the aliases laid over
//! them.

use vstd::prelude::*;
use vstd::string::StringExecFns;
use crate::config::ResolvedConfig;
use crate::extract::UnzipError;
use crate::url::{download_url, get_download_url};

verus! {

/// The label of the headless variant in the names of the archives.
pub const HEADLESS_LABEL: &'static str = "linux_headless.64";

/// The label of the server variant, the full runtime.
pub const SERVER_LABEL: &'static str = "linux_server.64";

/// The name under which the headless binary is installed.
pub const HEADLESS_BINARY: &'static str = "godot_headless";

/// The name under which the server binary is installed.
pub const SERVER_BINARY: &'static str = "godot_server";

/// The folder of the layer that holds the binaries and their aliases. The
/// search paths for executables and for shared libraries both gain it.
pub const BINARY_FOLDER: &'static str = "bin";

/// Why a download was given up.
#[derive(Debug, Clone, Copy, PartialEq, Eq)]
pub enum DownloadError {
    /// The server could not be reached or refused the request.
    RequestError,
    /// The local file could not be created.
    FileCreateError,
    /// The response could not be written to the local file.
    WriteError,
}

/// Why a provisioning run was given up. Each kind ends the run.
#[derive(Debug, Clone, Copy, PartialEq, Eq)]
pub enum GodotBuildpackError {
    GodotDownloadError(DownloadError),
    GodotUnzipError(UnzipError),
    TempFileCreateError,
    SymbolicLinkError,
    InvalidConfig,
}

/// One variant of the runtime that a release offers.
#[derive(Debug, Clone, PartialEq, Eq)]
pub struct VariantRequest {
    pub variant_label: String,
    pub is_full_runtime: bool,
}

/// One archive to fetch, and the name under which its binary is installed.
#[derive(Debug, Clone, PartialEq, Eq)]
pub struct Fetch {
    pub url: String,
    pub canonical_name: String,
}

/// A symbolic link `name`, beside the binaries, that points at `target`.
#[derive(Debug, Clone, PartialEq, Eq)]
pub struct Alias {
    pub name: String,
    pub target: String,
}

/// The work of one run: first every fetch, in order, then every alias,
/// in order.
#[derive(Debug, Clone, PartialEq, Eq)]
pub struct InstallPlan {
    pub fetches: Vec<Fetch>,
    pub aliases: Vec<Alias>,
}

/// The name under which the binary of a variant is installed.
pub open spec fn binary_name(is_full_runtime: bool) -> Seq<char> {
    if is_full_runtime {
        SERVER_BINARY@
    } else {
        HEADLESS_BINARY@
    }
}

/// `fetch` gets the archive of the variant `label` of the given release
/// and installs its binary as `canonical`.
pub open spec fn fetches_variant(
    fetch: Fetch,
    base: Seq<char>,
    version: Seq<char>,
    tag: Seq<char>,
    mono: bool,
    label: Seq<char>,
    canonical: Seq<char>,
) -> bool {
    &&& fetch.url@ == download_url(base, version, tag, mono, label)
    &&& fetch.canonical_name@ == canonical
}

/// `alias` is the link `name` to `target`.
pub open spec fn links(alias: Alias, name: Seq<char>, target: Seq<char>) -> bool {
    alias.name@ == name && alias.target@ == target
}

/// The aliases are `godot` and `godot_s` for the server binary, then
/// `godot_h` for the headless one.
pub open spec fn standard_aliases(aliases: Seq<Alias>) -> bool {
    &&& aliases.len() == 3
    &&& links(aliases[0], "godot"@, SERVER_BINARY@)
    &&& links(aliases[1], "godot_s"@, SERVER_BINARY@)
    &&& links(aliases[2], "godot_h"@, HEADLESS_BINARY@)
}

/// `plan` installs the given release: the headless archive, then the
/// server archive, then the standard aliases.
pub open spec fn installs(
    plan: InstallPlan,
    base: Seq<char>,
    version: Seq<char>,
    tag: Seq<char>,
    mono: bool,
) -> bool {
    &&& plan.fetches@.len() == 2
    &&& fetches_variant(
        plan.fetches@[0],
        base,
        version,
        tag,
        mono,
        HEADLESS_LABEL@,
        HEADLESS_BINARY@,
    )
    &&& fetches_variant(plan.fetches@[1], base, version, tag, mono, SERVER_LABEL@, SERVER_BINARY@)
    &&& standard_aliases(plan.aliases@)
}

/// The two variants that every run installs: the headless one, then the
/// server one.
pub fn variants() -> (requests: Vec<VariantRequest>)
    ensures
        requests@.len() == 2,
        requests@[0].variant_label@ == HEADLESS_LABEL@,
        !requests@[0].is_full_runtime,
        requests@[1].variant_label@ == SERVER_LABEL@,
        requests@[1].is_full_runtime,
{
    let mut requests: Vec<VariantRequest> = Vec::new();
    requests.push(
        VariantRequest { variant_label: String::from_str(HEADLESS_LABEL), is_full_runtime: false },
    );
    requests.push(
        VariantRequest { variant_label: String::from_str(SERVER_LABEL), is_full_runtime: true },
    );
    requests
}

/// The name under which the binary of a variant is installed.
pub fn canonical_name(request: &VariantRequest) -> (name: String)
    ensures
        name@ == binary_name(request.is_full_runtime),
{
    if request.is_full_runtime {
        String::from_str(SERVER_BINARY)
    } else {
        String::from_str(HEADLESS_BINARY)
    }
}

/// The aliases that every run lays over the two binaries.
pub fn aliases() -> (aliases: Vec<Alias>)
    ensures
        standard_aliases(aliases@),
{
    let mut aliases: Vec<Alias> = Vec::new();
    aliases.push(
        Alias { name: String::from_str("godot"), target: String::from_str(SERVER_BINARY) },
    );
    aliases.push(
        Alias { name: String::from_str("godot_s"), target: String::from_str(SERVER_BINARY) },
    );
    aliases.push(
        Alias { name: String::from_str("godot_h"), target: String::from_str(HEADLESS_BINARY) },
    );
    aliases
}

/// Plans the installation that the settings ask for, from the
/// distribution at `base_url`.
pub fn install_plan(base_url: &str, config: &ResolvedConfig) -> (plan: InstallPlan)
    ensures
        installs(plan, base_url@, config.version@, config.tag@, config.mono_variant),
{
    let requests = variants();
    let mut fetches: Vec<Fetch> = Vec::new();
    let mut i: usize = 0;
    while i < requests.len()
        invariant
            i <= requests@.len() == 2,
            fetches@.len() == i,
            requests@[0].variant_label@ == HEADLESS_LABEL@,
            !requests@[0].is_full_runtime,
            requests@[1].variant_label@ == SERVER_LABEL@,
            requests@[1].is_full_runtime,
            forall|j: int|
                0 <= j < i ==> fetches_variant(
                    #[trigger] fetches@[j],
                    base_url@,
                    config.version@,
                    config.tag@,
                    config.mono_variant,
                    requests@[j].variant_label@,
                    binary_name(requests@[j].is_full_runtime),
                ),
        decreases requests.len() - i,
    {
        let request = &requests[i];
        let url = get_download_url(
            base_url,
            config.version.as_str(),
            config.tag.as_str(),
            config.mono_variant,
            request.variant_label.as_str(),
        );
        fetches.push(Fetch { url, canonical_name: canonical_name(request) });
        i += 1;
    }
    InstallPlan { fetches, aliases: aliases() }
}

/// One piece of work on files or on the network. The number says which
/// fetch of the plan, or which alias, it is for.
#[derive(Debug, Clone, Copy, PartialEq, Eq)]
pub enum InstallStep {
    /// Create the temporary file that will hold the archive of a fetch.
    CreateArchive(usize),
    /// Download the archive of a fetch into its temporary file.
    Download(usize),
    /// Extract the archive of a fetch into the folder of the binaries.
    Extract(usize),
    /// Create an alias.
    Link(usize),
}

/// How a step failed.
#[derive(Debug, Clone, Copy, PartialEq, Eq)]
pub enum StepFailure {
    TempFile,
    Download(DownloadError),
    Extract(UnzipError),
    Link,
}

/// Where a run stands.
#[derive(Debug, Clone, Copy, PartialEq, Eq)]
pub enum Progress {
    /// This step is to be done next.
    Next(InstallStep),
    /// Every step was done.
    Installed,
    /// The run is given up. Nothing is retried.
    Failed(GodotBuildpackError),
}

/// The error that ends a run in which a step failed.
pub open spec fn error_of(failure: StepFailure) -> GodotBuildpackError {
    match failure {
        StepFailure::TempFile => GodotBuildpackError::TempFileCreateError,
        StepFailure::Download(error) => GodotBuildpackError::GodotDownloadError(error),
        StepFailure::Extract(error) => GodotBuildpackError::GodotUnzipError(error),
        StepFailure::Link => GodotBuildpackError::SymbolicLinkError,
    }
}

/// Where a run of `aliases` aliases stands once all archives are
/// extracted.
pub open spec fn linking(aliases: nat) -> Progress {
    if aliases > 0 {
        Progress::Next(InstallStep::Link(0))
    } else {
        Progress::Installed
    }
}

/// Where a run of `fetches` fetches and `aliases` aliases begins: all
/// temporary files are created first.
pub open spec fn beginning(fetches: nat, aliases: nat) -> Progress {
    if fetches > 0 {
        Progress::Next(InstallStep::CreateArchive(0))
    } else {
        linking(aliases)
    }
}

/// Where a run stands after `step` was done: the temporary files are
/// followed by all downloads, these by all extractions, these by the
/// aliases, each kind in the order of the plan.
pub open spec fn following(step: InstallStep, fetches: nat, aliases: nat) -> Progress {
    match step {
        InstallStep::CreateArchive(i) => if i + 1 < fetches {
            Progress::Next(InstallStep::CreateArchive((i + 1) as usize))
        } else if fetches > 0 {
            Progress::Next(InstallStep::Download(0))
        } else {
            linking(aliases)
        },
        InstallStep::Download(i) => if i + 1 < fetches {
            Progress::Next(InstallStep::Download((i + 1) as usize))
        } else if fetches > 0 {
            Progress::Next(InstallStep::Extract(0))
        } else {
            linking(aliases)
        },
        InstallStep::Extract(i) => if i + 1 < fetches {
            Progress::Next(InstallStep::Extract((i + 1) as usize))
        } else {
            linking(aliases)
        },
        InstallStep::Link(i) => if i + 1 < aliases {
            Progress::Next(InstallStep::Link((i + 1) as usize))
        } else {
            Progress::Installed
        },
    }
}

/// `step` is one of a run of `fetches` fetches and `aliases` aliases.
pub open spec fn within(step: InstallStep, fetches: nat, aliases: nat) -> bool {
    match step {
        InstallStep::CreateArchive(i) => i < fetches,
        InstallStep::Download(i) => i < fetches,
        InstallStep::Extract(i) => i < fetches,
        InstallStep::Link(i) => i < aliases,
    }
}

/// The number of steps that are done before `step` in a run of `fetches`
/// fetches.
pub open spec fn rank(step: InstallStep, fetches: nat) -> int {
    match step {
        InstallStep::CreateArchive(i) => i as int,
        InstallStep::Download(i) => fetches + i,
        InstallStep::Extract(i) => fetches + fetches + i,
        InstallStep::Link(i) => fetches + fetches + fetches + i,
    }
}

/// The error that ends a run in which a step failed.
pub fn failure_kind(failure: StepFailure) -> (error: GodotBuildpackError)
    ensures
        error == error_of(failure),
{
    match failure {
        StepFailure::TempFile => GodotBuildpackError::TempFileCreateError,
        StepFailure::Download(error) => GodotBuildpackError::GodotDownloadError(error),
        StepFailure::Extract(error) => GodotBuildpackError::GodotUnzipError(error),
        StepFailure::Link => GodotBuildpackError::SymbolicLinkError,
    }
}

/// The first step of a run of `plan`.
pub fn first_step(plan: &InstallPlan) -> (progress: Progress)
    ensures
        progress == beginning(plan.fetches@.len(), plan.aliases@.len()),
{
    if plan.fetches.len() > 0 {
        Progress::Next(InstallStep::CreateArchive(0))
    } else if plan.aliases.len() > 0 {
        Progress::Next(InstallStep::Link(0))
    } else {
        Progress::Installed
    }
}

/// Where a run of `plan` stands after `step`: given up with the error of
/// its failure if it failed, else at the step that follows.
pub fn next_step(plan: &InstallPlan, step: InstallStep, failure: Option<StepFailure>) -> (progress:
    Progress)
    ensures
        progress == match failure {
            Some(failure) => Progress::Failed(error_of(failure)),
            None => following(step, plan.fetches@.len(), plan.aliases@.len()),
        },
{
    if let Some(failure) = failure {
        return Progress::Failed(failure_kind(failure));
    }
    let fetches: usize = plan.fetches.len();
    let aliases: usize = plan.aliases.len();
    let links = if aliases > 0 {
        Progress::Next(InstallStep::Link(0))
    } else {
        Progress::Installed
    };
    match step {
        InstallStep::CreateArchive(i) => if fetches > 0 && i < fetches - 1 {
            Progress::Next(InstallStep::CreateArchive(i + 1))
        } else if fetches > 0 {
            Progress::Next(InstallStep::Download(0))
        } else {
            links
        },
        InstallStep::Download(i) => if fetches > 0 && i < fetches - 1 {
            Progress::Next(InstallStep::Download(i + 1))
        } else if fetches > 0 {
            Progress::Next(InstallStep::Extract(0))
        } else {
            links
        },
        InstallStep::Extract(i) => if fetches > 0 && i < fetches - 1 {
            Progress::Next(InstallStep::Extract(i + 1))
        } else {
            links
        },
        InstallStep::Link(i) => if aliases > 0 && i < aliases - 1 {
            Progress::Next(InstallStep::Link(i + 1))
        } else {
            Progress::Installed
        },
    }
}

/// A run of a plan does its steps one after the other, each once: it
/// begins with the step of rank 0, every step is followed by the step of
/// the next rank, and it is complete after the step of the last rank.
pub proof fn law_steps_follow_in_order(plan: InstallPlan, step: InstallStep)
    requires
        within(step, plan.fetches@.len(), plan.aliases@.len()),
    ensures
        beginning(plan.fetches@.len(), plan.aliases@.len()) matches Progress::Next(first) && within(
            first,
            plan.fetches@.len(),
            plan.aliases@.len(),
        ) && rank(first, plan.fetches@.len()) == 0,
        match following(step, plan.fetches@.len(), plan.aliases@.len()) {
            Progress::Next(next) => within(next, plan.fetches@.len(), plan.aliases@.len()) && rank(
                next,
                plan.fetches@.len(),
            ) == rank(step, plan.fetches@.len()) + 1,
            Progress::Installed => rank(step, plan.fetches@.len()) + 1 == 3 * plan.fetches@.len()
                + plan.aliases@.len(),
            Progress::Failed(_) => false,
        },
{
    assert(plan.fetches.len() == plan.fetches@.len());
    assert(plan.aliases.len() == plan.aliases@.len());
}

/// Failures of different kinds end the run with different errors, and
/// none of them is taken for refused settings.
pub proof fn law_failures_stay_distinct(first: StepFailure, second: StepFailure)
    ensures
        error_of(first) == error_of(second) ==> first == second,
        error_of(first) != GodotBuildpackError::InvalidConfig,
{
}

} // verus!
