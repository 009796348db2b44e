//! The settings of one project that decide what its site build does.

use indexmap::IndexMap;
use vstd::prelude::*;

verus! {

/// The insertion-ordered map that holds the additional pages of a project,
/// from page name to source file.
#[verifier::external_type_specification]
#[verifier::external_body]
#[verifier::reject_recursive_types(K)]
#[verifier::reject_recursive_types(V)]
#[verifier::reject_recursive_types(S)]
pub struct ExIndexMap<K, V, S>(IndexMap<K, V, S>);

/// The values of an additional-pages map, in the map's own order.
pub uninterp spec fn page_sources(files: IndexMap<String, String>) -> Seq<Seq<char>>;

/// Which service a project's release history is read from.
#[derive(Clone, Copy, Debug, PartialEq, Eq, Structural)]
pub enum ReleasesSource {
    GitHub,
    Axodotdev,
}

/// What the artifacts component may show.
#[derive(Clone, Copy, Debug, PartialEq, Eq, Structural)]
pub struct ArtifactsConfig {
    /// Artifacts are detected from the release assets.
    pub auto: bool,
    /// Artifacts are read from release manifests.
    pub cargo_dist: bool,
    /// At least one package manager is listed by hand.
    pub package_managers: bool,
}

impl ArtifactsConfig {
    pub open spec fn spec_has_some(&self) -> bool {
        self.cargo_dist || self.auto || self.package_managers
    }

    /// Whether there is anything at all to show.
    #[verifier::when_used_as_spec(spec_has_some)]
    pub fn has_some(&self) -> (b: bool)
        ensures
            b == self.spec_has_some(),
    {
        self.cargo_dist || self.auto || self.package_managers
    }
}

/// Settings of the changelog component.
#[derive(Clone, Copy, Debug, PartialEq, Eq, Structural)]
pub struct ChangelogConfig {
    /// Whether a feed is generated next to the changelog pages.
    pub rss_feed: bool,
}

/// The optional components of a site.
#[derive(Clone, Copy, Debug, PartialEq, Eq, Structural)]
pub struct ComponentConfig {
    pub artifacts: Option<ArtifactsConfig>,
    pub changelog: Option<ChangelogConfig>,
    /// Whether a funding page is configured.
    pub funding: bool,
    /// Whether a documentation book is configured.
    pub mdbook: bool,
    /// The release source; GitHub where none is selected.
    pub source: Option<ReleasesSource>,
}

impl ComponentConfig {
    pub open spec fn spec_artifacts_enabled(&self) -> bool {
        match self.artifacts {
            Some(artifacts) => artifacts.spec_has_some(),
            None => false,
        }
    }

    /// Whether the artifacts component is configured and has something to show.
    #[verifier::when_used_as_spec(spec_artifacts_enabled)]
    pub fn artifacts_enabled(&self) -> (b: bool)
        ensures
            b == self.spec_artifacts_enabled(),
    {
        match &self.artifacts {
            Some(artifacts) => artifacts.has_some(),
            None => false,
        }
    }
}

impl ComponentConfig {
    /// The components once the funding data was asked for: where it could
    /// not be loaded the funding component is off, and nothing else changes.
    pub fn with_funding_loaded(&self, loaded: bool) -> (out: ComponentConfig)
        ensures
            out == (ComponentConfig { funding: self.funding && loaded, ..*self }),
    {
        ComponentConfig {
            artifacts: self.artifacts,
            changelog: self.changelog,
            funding: self.funding && loaded,
            mdbook: self.mdbook,
            source: self.source,
        }
    }
}

/// Identity of the project.
#[derive(Clone, Debug, PartialEq, Eq)]
pub struct ProjectConfig {
    pub name: String,
    /// The version that the working tree is at, where it is known.
    pub version: Option<String>,
    /// URL of the repository that releases are read from.
    pub repository: Option<String>,
    pub readme_path: String,
}

/// Where the site is built and what goes into it besides the components.
#[derive(Debug, PartialEq, Eq)]
pub struct BuildConfig {
    pub dist_dir: String,
    pub static_dir: String,
    pub additional_pages: IndexMap<String, String>,
}

/// Styling that needs files placed in the output.
#[derive(Clone, Debug, PartialEq, Eq)]
pub struct StyleConfig {
    pub favicon: Option<String>,
    pub additional_css: Vec<String>,
}

/// Everything a build reads from a project's configuration.
#[derive(Debug, PartialEq, Eq)]
pub struct Config {
    pub project: ProjectConfig,
    pub build: BuildConfig,
    pub components: ComponentConfig,
    pub styles: StyleConfig,
}

/// Copies the source files of the additional pages out of their map.
///
/// Wraps `IndexMap::values`, which walks the values in the order of the map;
/// each value is cloned as it comes.
#[verifier::external_body]
pub(crate) fn additional_page_sources(files: &IndexMap<String, String>) -> (out: Vec<String>)
    ensures
        out@.len() == page_sources(*files).len(),
        forall|i: int| 0 <= i < out@.len() ==> (#[trigger] out@[i])@ == page_sources(*files)[i],
{
    files.values().cloned().collect()
}

} // verus!
