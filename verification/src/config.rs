//! The requested release: how a project's own settings are laid over the
//! defaults of the buildpack, and which settings are accepted.

use vstd::prelude::*;
use vstd::string::StringExecFns;
use crate::install::GodotBuildpackError;
use crate::pattern::{accepts, is_match};

verus! {

/// The grammar of a version: a major number from 1 to 4, then one or two
/// further numbers, each after a dot.
pub const VERSION_PATTERN: &'static str = "^[1-4](\\.\\d+){1,2}$";

/// The grammar of a tag: `stable`, or a pre-release kind and its number.
pub const TAG_PATTERN: &'static str = "^(stable|(alpha|beta|rc)\\d+)$";

/// The defaults that the buildpack's descriptor supplies.
#[derive(Debug, Clone, PartialEq, Eq)]
pub struct GodotBuildpackMetadata {
    pub godot_url: String,
    pub godot_version: String,
    pub godot_tag: String,
    pub godot_mono: bool,
}

/// The settings of one provisioning run. A project's own file may leave
/// any of them out.
#[derive(Debug, Clone, PartialEq, Eq)]
pub struct GodotConfig {
    pub version: Option<String>,
    pub tag: Option<String>,
    pub mono: Option<bool>,
}

/// Settings that are complete and were accepted: what a run installs.
#[derive(Debug, Clone, PartialEq, Eq)]
pub struct ResolvedConfig {
    pub version: String,
    pub tag: String,
    pub mono_variant: bool,
}

impl ResolvedConfig {
    /// The version and the tag are each in their grammar.
    pub open spec fn well_formed(&self) -> bool {
        version_accepted(self.version@) && tag_accepted(self.tag@)
    }
}

/// The settings as plain values.
pub ghost struct Settings {
    pub version: Option<Seq<char>>,
    pub tag: Option<Seq<char>>,
    pub mono: Option<bool>,
}

/// The characters of an optional string.
pub open spec fn text_of(field: Option<String>) -> Option<Seq<char>> {
    match field {
        Some(s) => Some(s@),
        None => None,
    }
}

impl View for GodotConfig {
    type V = Settings;

    open spec fn view(&self) -> Settings {
        Settings { version: text_of(self.version), tag: text_of(self.tag), mono: self.mono }
    }
}

/// The settings of a project, if it has any, as plain values.
pub open spec fn settings_of(project: Option<GodotConfig>) -> Option<Settings> {
    match project {
        Some(own) => Some(own@),
        None => None,
    }
}

/// The settings that the descriptor alone gives: each one present.
pub open spec fn baseline(metadata: GodotBuildpackMetadata) -> Settings {
    Settings {
        version: Some(metadata.godot_version@),
        tag: Some(metadata.godot_tag@),
        mono: Some(metadata.godot_mono),
    }
}

/// `first` where it is present, else `second`.
pub open spec fn or_else<T>(first: Option<T>, second: Option<T>) -> Option<T> {
    if first is Some {
        first
    } else {
        second
    }
}

/// The project's settings laid over the defaults: a setting that the
/// project leaves out is the default one, and without a project file the
/// defaults stand as they are.
pub open spec fn resolved(defaults: Settings, project: Option<Settings>) -> Settings {
    match project {
        Some(own) => Settings {
            version: or_else(own.version, defaults.version),
            tag: or_else(own.tag, defaults.tag),
            mono: or_else(own.mono, defaults.mono),
        },
        None => defaults,
    }
}

/// `version` is in the grammar of versions.
pub open spec fn version_accepted(version: Seq<char>) -> bool {
    accepts(VERSION_PATTERN@, version)
}

/// `tag` is in the grammar of tags.
pub open spec fn tag_accepted(tag: Seq<char>) -> bool {
    accepts(TAG_PATTERN@, tag)
}

/// Both the version and the tag are present and accepted.
pub open spec fn acceptable(settings: Settings) -> bool {
    &&& settings.version is Some
    &&& version_accepted(settings.version->0)
    &&& settings.tag is Some
    &&& tag_accepted(settings.tag->0)
}

/// Whether the Mono flavour is asked for: not, unless the settings say so.
pub open spec fn wants_mono(mono: Option<bool>) -> bool {
    mono == Some(true)
}

/// `config` holds exactly what `settings` ask for.
pub open spec fn resolves(config: ResolvedConfig, settings: Settings) -> bool {
    &&& settings.version == Some(config.version@)
    &&& settings.tag == Some(config.tag@)
    &&& config.mono_variant == wants_mono(settings.mono)
}

/// The line that names a refused version and says what a version is.
pub open spec fn version_refusal(version: Seq<char>) -> Seq<char> {
    "---> '"@ + version + "' is an invalid Godot version. "@
        + "Valid versions are a major number from 1 to 4, "@
        + "then one or two further numbers, each after a dot (3.5, 3.5.1)\n"@
}

/// The line that names a refused tag and says what a tag is.
pub open spec fn tag_refusal(tag: Seq<char>) -> Seq<char> {
    "---> '"@ + tag + "' is an invalid Godot version tag. "@
        + "Valid tags are stable, alpha[n], beta[n] and rc[n]\n"@
}

/// The lines that say which of the two settings was refused, each with
/// the grammar of its own setting: one for a refused version, then one for
/// a refused tag.
pub open spec fn diagnosis(
    version: Seq<char>,
    tag: Seq<char>,
    version_ok: bool,
    tag_ok: bool,
) -> Seq<char> {
    (if version_ok {
        Seq::<char>::empty()
    } else {
        version_refusal(version)
    }) + (if tag_ok {
        Seq::<char>::empty()
    } else {
        tag_refusal(tag)
    })
}

/// Whether `version` is in the grammar of versions.
pub fn is_valid_version(version: &str) -> (valid: bool)
    ensures
        valid == version_accepted(version@),
{
    is_match(VERSION_PATTERN, version)
}

/// Whether `tag` is in the grammar of tags.
pub fn is_valid_tag(tag: &str) -> (valid: bool)
    ensures
        valid == tag_accepted(tag@),
{
    is_match(TAG_PATTERN, tag)
}

/// Writes the diagnosis of a version and a tag, given whether each was
/// accepted.
pub fn describe_refusal(version: &str, tag: &str, version_ok: bool, tag_ok: bool) -> (report:
    String)
    ensures
        report@ == diagnosis(version@, tag@, version_ok, tag_ok),
{
    let mut report = String::from_str("");
    proof {
        reveal_strlit("");
    }
    if !version_ok {
        report.append("---> '");
        report.append(version);
        report.append("' is an invalid Godot version. ");
        report.append("Valid versions are a major number from 1 to 4, ");
        report.append("then one or two further numbers, each after a dot (3.5, 3.5.1)\n");
    }
    if !tag_ok {
        report.append("---> '");
        report.append(tag);
        report.append("' is an invalid Godot version tag. ");
        report.append("Valid tags are stable, alpha[n], beta[n] and rc[n]\n");
    }
    assert(report@ =~= diagnosis(version@, tag@, version_ok, tag_ok));
    report
}

/// Lays the project's own settings, where there are any, over the defaults
/// of the descriptor, and accepts or refuses the outcome.
///
/// The outcome is refused exactly when its version or its tag is not in
/// its grammar.
pub fn resolve(metadata: &GodotBuildpackMetadata, project: Option<GodotConfig>) -> (outcome: Result<
    ResolvedConfig,
    GodotBuildpackError,
>)
    ensures
        match outcome {
            Ok(config) => {
                &&& acceptable(resolved(baseline(*metadata), settings_of(project)))
                &&& resolves(config, resolved(baseline(*metadata), settings_of(project)))
                &&& config.well_formed()
            },
            Err(error) => {
                &&& !acceptable(resolved(baseline(*metadata), settings_of(project)))
                &&& error == GodotBuildpackError::InvalidConfig
            },
        },
{
    GodotConfig::load(metadata, project).validate()
}

impl GodotConfig {
    /// Lays the project's own settings, where there are any, over the
    /// defaults of the descriptor.
    pub fn load(metadata: &GodotBuildpackMetadata, project: Option<GodotConfig>) -> (config: Self)
        ensures
            config@ == resolved(baseline(*metadata), settings_of(project)),
            project is None ==> config@ == baseline(*metadata),
            project is Some && project->0.version is None ==> config@.version == Some(
                metadata.godot_version@,
            ),
            project is Some && project->0.tag is None ==> config@.tag == Some(
                metadata.godot_tag@,
            ),
            project is Some && project->0.mono is None ==> config@.mono == Some(
                metadata.godot_mono,
            ),
            config@.version is Some,
            config@.tag is Some,
            config@.mono is Some,
    {
        let defaults = Self::from_metadata(metadata);
        match project {
            Some(own) => {
                let version = match own.version {
                    Some(version) => Some(version),
                    None => defaults.version,
                };
                let tag = match own.tag {
                    Some(tag) => Some(tag),
                    None => defaults.tag,
                };
                let mono = match own.mono {
                    Some(mono) => Some(mono),
                    None => defaults.mono,
                };
                GodotConfig { version, tag, mono }
            },
            None => defaults,
        }
    }

    /// The settings that the descriptor alone gives.
    pub fn from_metadata(metadata: &GodotBuildpackMetadata) -> (config: Self)
        ensures
            config@ == baseline(*metadata),
    {
        GodotConfig {
            version: Some(metadata.godot_version.clone()),
            tag: Some(metadata.godot_tag.clone()),
            mono: Some(metadata.godot_mono),
        }
    }

    /// Whether the version and the tag are both present and accepted.
    pub fn is_valid(&self) -> (valid: bool)
        ensures
            valid == acceptable(self@),
    {
        let version_ok = match &self.version {
            Some(version) => is_valid_version(version.as_str()),
            None => false,
        };
        let tag_ok = match &self.tag {
            Some(tag) => is_valid_tag(tag.as_str()),
            None => false,
        };
        version_ok && tag_ok
    }

    /// Accepts these settings, if the version and the tag are both present
    /// and in their grammar, and refuses them if not.
    pub fn validate(&self) -> (outcome: Result<ResolvedConfig, GodotBuildpackError>)
        ensures
            match outcome {
                Ok(config) => acceptable(self@) && resolves(config, self@) && config.well_formed(),
                Err(error) => !acceptable(self@) && error == GodotBuildpackError::InvalidConfig,
            },
    {
        if !self.is_valid() {
            return Err(GodotBuildpackError::InvalidConfig);
        }
        let mono_variant = match self.mono {
            Some(mono) => mono,
            None => false,
        };
        match (&self.version, &self.tag) {
            (Some(version), Some(tag)) => Ok(
                ResolvedConfig { version: version.clone(), tag: tag.clone(), mono_variant },
            ),
            _ => Err(GodotBuildpackError::InvalidConfig),
        }
    }

    /// The diagnosis of these settings: a line for the version if it is
    /// refused, and a line for the tag if it is refused, each with the
    /// grammar of the setting it names.
    pub fn error_message(&self) -> (report: String)
        requires
            self.version is Some,
            self.tag is Some,
        ensures
            report@ == diagnosis(
                self@.version->0,
                self@.tag->0,
                version_accepted(self@.version->0),
                tag_accepted(self@.tag->0),
            ),
    {
        match (&self.version, &self.tag) {
            (Some(version), Some(tag)) => {
                let version_ok = is_valid_version(version.as_str());
                let tag_ok = is_valid_tag(tag.as_str());
                describe_refusal(version.as_str(), tag.as_str(), version_ok, tag_ok)
            },
            _ => String::from_str(""),
        }
    }
}

} // verus!
