use godot_buildpack::config::{resolve, GodotBuildpackMetadata, GodotConfig, ResolvedConfig};
use godot_buildpack::extract::UnzipError;
use godot_buildpack::install::{
    aliases, canonical_name, failure_kind, first_step, install_plan, next_step, variants, Alias,
    DownloadError, Fetch, GodotBuildpackError, InstallPlan, InstallStep, Progress, StepFailure,
    VariantRequest,
};

fn descriptor() -> GodotBuildpackMetadata {
    GodotBuildpackMetadata {
        godot_url: String::from("https://dl.example.org/godot"),
        godot_version: String::from("3.5"),
        godot_tag: String::from("stable"),
        godot_mono: false,
    }
}

fn release(version: &str, tag: &str, mono_variant: bool) -> ResolvedConfig {
    ResolvedConfig { version: String::from(version), tag: String::from(tag), mono_variant }
}

fn alias(name: &str, target: &str) -> Alias {
    Alias { name: String::from(name), target: String::from(target) }
}

fn fetch(url: &str, canonical_name: &str) -> Fetch {
    Fetch { url: String::from(url), canonical_name: String::from(canonical_name) }
}

#[test]
fn both_variants_are_requested_headless_first() {
    let requests = variants();
    assert_eq!(
        requests,
        vec![
            VariantRequest { variant_label: String::from("linux_headless.64"), is_full_runtime: false },
            VariantRequest { variant_label: String::from("linux_server.64"), is_full_runtime: true },
        ]
    );
    assert_eq!(canonical_name(&requests[0]), "godot_headless");
    assert_eq!(canonical_name(&requests[1]), "godot_server");
}

#[test]
fn three_aliases_point_at_the_binaries() {
    assert_eq!(
        aliases(),
        vec![
            alias("godot", "godot_server"),
            alias("godot_s", "godot_server"),
            alias("godot_h", "godot_headless"),
        ]
    );
}

#[test]
fn a_release_is_planned_in_full() {
    let plan = install_plan("https://dl.example.org/godot", &release("3.5", "rc1", true));
    assert_eq!(
        plan,
        InstallPlan {
            fetches: vec![
                fetch(
                    "https://dl.example.org/godot/3.5/rc1/mono/Godot_v3.5-rc1_mono_linux_headless_64.zip",
                    "godot_headless"
                ),
                fetch(
                    "https://dl.example.org/godot/3.5/rc1/mono/Godot_v3.5-rc1_mono_linux_server_64.zip",
                    "godot_server"
                ),
            ],
            aliases: aliases(),
        }
    );
}

#[test]
fn a_stable_release_is_fetched_from_the_version_folder() {
    let plan = install_plan("https://dl.example.org/godot", &release("3.5", "stable", false));
    assert_eq!(
        plan.fetches,
        vec![
            fetch(
                "https://dl.example.org/godot/3.5/Godot_v3.5-stable_linux_headless.64.zip",
                "godot_headless"
            ),
            fetch(
                "https://dl.example.org/godot/3.5/Godot_v3.5-stable_linux_server.64.zip",
                "godot_server"
            ),
        ]
    );
}

#[test]
fn the_baseline_alone_is_resolved() {
    assert_eq!(resolve(&descriptor(), None), Ok(release("3.5", "stable", false)));
}

#[test]
fn project_settings_are_resolved_over_the_baseline() {
    let own = GodotConfig { version: None, tag: Some(String::from("beta2")), mono: Some(true) };
    assert_eq!(resolve(&descriptor(), Some(own)), Ok(release("3.5", "beta2", true)));
    let own = GodotConfig { version: Some(String::from("4.0.1")), tag: None, mono: None };
    assert_eq!(resolve(&descriptor(), Some(own)), Ok(release("4.0.1", "stable", false)));
}

#[test]
fn mono_is_installed_only_on_request() {
    let unset = GodotConfig {
        version: Some(String::from("3.5")),
        tag: Some(String::from("stable")),
        mono: None,
    };
    let set = GodotConfig { mono: Some(true), ..unset.clone() };
    let unwanted = GodotConfig { mono: Some(false), ..unset.clone() };
    assert_eq!(unset.validate(), Ok(release("3.5", "stable", false)));
    assert_eq!(set.validate(), Ok(release("3.5", "stable", true)));
    assert_eq!(unwanted.validate(), Ok(release("3.5", "stable", false)));
}

#[test]
fn refused_settings_are_not_resolved() {
    let bad_version = GodotConfig {
        version: Some(String::from("5.0")),
        tag: Some(String::from("stable")),
        mono: None,
    };
    let bad_tag = GodotConfig {
        version: Some(String::from("3.5")),
        tag: Some(String::from("Stable")),
        mono: None,
    };
    let missing = GodotConfig { version: None, tag: None, mono: None };
    assert_eq!(bad_version.validate(), Err(GodotBuildpackError::InvalidConfig));
    assert_eq!(bad_tag.validate(), Err(GodotBuildpackError::InvalidConfig));
    assert_eq!(missing.validate(), Err(GodotBuildpackError::InvalidConfig));
    assert_eq!(
        resolve(&descriptor(), Some(bad_version)),
        Err(GodotBuildpackError::InvalidConfig)
    );
    assert_eq!(resolve(&descriptor(), Some(bad_tag)), Err(GodotBuildpackError::InvalidConfig));
    let bad_baseline = GodotBuildpackMetadata { godot_version: String::from("9"), ..descriptor() };
    assert_eq!(resolve(&bad_baseline, None), Err(GodotBuildpackError::InvalidConfig));
    assert_eq!(resolve(&bad_baseline, Some(missing)), Err(GodotBuildpackError::InvalidConfig));
}

#[test]
fn a_run_does_its_steps_in_order() {
    let plan = install_plan("https://dl.example.org/godot", &release("3.5", "stable", false));
    let mut done = Vec::new();
    let mut progress = first_step(&plan);
    while let Progress::Next(step) = progress {
        done.push(step);
        progress = next_step(&plan, step, None);
    }
    assert_eq!(progress, Progress::Installed);
    assert_eq!(
        done,
        vec![
            InstallStep::CreateArchive(0),
            InstallStep::CreateArchive(1),
            InstallStep::Download(0),
            InstallStep::Download(1),
            InstallStep::Extract(0),
            InstallStep::Extract(1),
            InstallStep::Link(0),
            InstallStep::Link(1),
            InstallStep::Link(2),
        ]
    );
}

#[test]
fn an_empty_plan_is_installed_at_once() {
    let nothing = InstallPlan { fetches: Vec::new(), aliases: Vec::new() };
    assert_eq!(first_step(&nothing), Progress::Installed);
    let links_only = InstallPlan { fetches: Vec::new(), aliases: aliases() };
    assert_eq!(first_step(&links_only), Progress::Next(InstallStep::Link(0)));
    assert_eq!(next_step(&links_only, InstallStep::Link(2), None), Progress::Installed);
    assert_eq!(
        next_step(&links_only, InstallStep::Extract(usize::MAX), None),
        Progress::Next(InstallStep::Link(0))
    );
    assert_eq!(next_step(&nothing, InstallStep::Link(usize::MAX), None), Progress::Installed);
}

#[test]
fn each_failure_ends_the_run_with_its_own_error() {
    let plan = install_plan("https://dl.example.org/godot", &release("3.5", "stable", false));
    assert_eq!(
        next_step(&plan, InstallStep::CreateArchive(1), Some(StepFailure::TempFile)),
        Progress::Failed(GodotBuildpackError::TempFileCreateError)
    );
    for kind in [DownloadError::RequestError, DownloadError::FileCreateError, DownloadError::WriteError] {
        assert_eq!(
            next_step(&plan, InstallStep::Download(0), Some(StepFailure::Download(kind))),
            Progress::Failed(GodotBuildpackError::GodotDownloadError(kind))
        );
    }
    for kind in [
        UnzipError::FileOpenError,
        UnzipError::FileCreateError,
        UnzipError::StreamIOError,
        UnzipError::ExtractError,
    ] {
        assert_eq!(
            next_step(&plan, InstallStep::Extract(1), Some(StepFailure::Extract(kind))),
            Progress::Failed(GodotBuildpackError::GodotUnzipError(kind))
        );
        assert_eq!(
            failure_kind(StepFailure::Extract(kind)),
            GodotBuildpackError::GodotUnzipError(kind)
        );
    }
}

#[test]
fn an_alias_that_cannot_be_created_fails_the_run() {
    let plan = install_plan("https://dl.example.org/godot", &release("3.5", "stable", false));
    for index in 0..3 {
        assert_eq!(
            next_step(&plan, InstallStep::Link(index), Some(StepFailure::Link)),
            Progress::Failed(GodotBuildpackError::SymbolicLinkError)
        );
    }
    assert_eq!(failure_kind(StepFailure::Link), GodotBuildpackError::SymbolicLinkError);
}
