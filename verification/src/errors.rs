//! The error taxonomy of a site build, and the severity of each kind.

use vstd::prelude::*;
use vstd::string::StringExecFns;

verus! {

/// How an error affects the build that raised it.
#[derive(Clone, Copy, Debug, PartialEq, Eq, Structural)]
pub enum Severity {
    /// The build halts and the process exits non-zero.
    Fatal,
    /// The build continues; optional content may be missing from the output.
    Warning,
}

/// Everything that can go wrong while a site is built.
///
/// Causes raised by collaborators (file system, network, parsers, renderers)
/// are carried as their rendered text in `details`-like fields.
#[derive(Clone, Debug, PartialEq, Eq)]
pub enum OrandaError {
    Io(String),
    Toml(String),
    StripPrefixError(String),
    Json(String),
    Syntect(String),
    AxoAsset(String),
    AxoProject(String),
    Octolotl(String),
    Reqwest(String),
    Minijinja(String),
    UrlParse(String),
    Gazenot(String),
    GenerateCss(String),
    DistDirCreationError { dist_path: String, details: String },
    InvalidOrandaCSSOverride { path: String },
    GithubReleasesFetchError { details: String },
    AxoReleasesFetchError,
    GithubReleaseParseError { details: String },
    UnknownRepoStyle { url: String },
    NoCargoDistReleasesFound { repo_owner: String, repo_name: String },
    FSExtra(String),
    FileNotFound { filedesc: String, path: String },
    BuildNotFound { dist_dir: String },
    CargoDistManifestMalformed { tag: String, details: String },
    ReleasesCheckFailed { repo: String },
    CargoDistManifestPartial {
        schema_version: String,
        parser_version: String,
        tag: String,
        details: String,
    },
    PackageVersionParse { version: String },
    PathdiffError { root_path: String, path: String },
    MdBookLoad { path: String, details: String },
    MdBookBuild { path: String, details: String },
    MdbookBuildRecursive { src_path: String, dest_path: String },
    BrokenProject { kind: String, manifest_path: String, cause: String },
    ChangelogParseFailed { name: String, version: String, details: String },
    FundingLoadFailed { path: String, details: String },
    TomlEdit { document: String, details: String },
    FilesystemWatchError(String),
    GithubFundingFetchError { details: String },
    FundingConfigInvalid,
    GithubFundingParseError { details: String },
    PreferredFundingNotFound { preferred: String, help: String },
    MdBookConfigInvalid,
    PathDoesNotExist { path: String },
    Other(String),
}

impl OrandaError {
    /// The kinds that are reported and then survived: a manifest that could
    /// not be used, a release source that could not be asked, a project or a
    /// funding file that could not be read.
    pub open spec fn is_warning(&self) -> bool {
        ||| self is CargoDistManifestMalformed
        ||| self is CargoDistManifestPartial
        ||| self is ReleasesCheckFailed
        ||| self is BrokenProject
        ||| self is FundingLoadFailed
    }

    /// Severity of this error: `Warning` exactly for the kinds of
    /// [`Self::is_warning`], `Fatal` for every other kind.
    pub fn severity(&self) -> (s: Severity)
        ensures
            s == (if self.is_warning() { Severity::Warning } else { Severity::Fatal }),
    {
        match self {
            OrandaError::CargoDistManifestMalformed { .. }
            | OrandaError::CargoDistManifestPartial { .. }
            | OrandaError::ReleasesCheckFailed { .. }
            | OrandaError::BrokenProject { .. }
            | OrandaError::FundingLoadFailed { .. } => Severity::Warning,
            _ => Severity::Fatal,
        }
    }

    /// The text that describes this error to the operator.
    pub open spec fn message_text(&self) -> Seq<char> {
        match self {
            OrandaError::Io(inner) => inner@,
            OrandaError::Toml(inner) => inner@,
            OrandaError::StripPrefixError(inner) => inner@,
            OrandaError::Json(inner) => inner@,
            OrandaError::Syntect(inner) => inner@,
            OrandaError::AxoAsset(inner) => inner@,
            OrandaError::AxoProject(inner) => inner@,
            OrandaError::Octolotl(inner) => inner@,
            OrandaError::Reqwest(inner) => inner@,
            OrandaError::Minijinja(inner) => inner@,
            OrandaError::UrlParse(inner) => inner@,
            OrandaError::Gazenot(inner) => inner@,
            OrandaError::GenerateCss(inner) => inner@,
            OrandaError::DistDirCreationError { dist_path, .. } => "Failed to create a directory, `"@ + dist_path@ + "` to build your project in."@,
            OrandaError::InvalidOrandaCSSOverride { path, .. } => "Found an invalid value, `"@ + path@ + "`, assigned to ORANDA_CSS environment variable."@,
            OrandaError::GithubReleasesFetchError { .. } => "Failed fetching releases from Github."@,
            OrandaError::AxoReleasesFetchError => "Failed fetching releases from axo Releases."@,
            OrandaError::GithubReleaseParseError { .. } => "Failed parsing response when fetching releases from Github."@,
            OrandaError::UnknownRepoStyle { url, .. } => "Your repository URL "@ + url@ + " couldn't be parsed."@,
            OrandaError::NoCargoDistReleasesFound { repo_owner, repo_name, .. } => "Could not find any releases from "@ + repo_owner@ + "/"@ + repo_name@ + " with a cargo-dist compatible release manifest."@,
            OrandaError::FSExtra(inner) => inner@,
            OrandaError::FileNotFound { filedesc, path, .. } => "failed to read "@ + filedesc@ + " at "@ + path@,
            OrandaError::BuildNotFound { dist_dir, .. } => "Could not find a build in "@ + dist_dir@,
            OrandaError::CargoDistManifestMalformed { tag, .. } => "Skipping malformed release manifest for "@ + tag@,
            OrandaError::ReleasesCheckFailed { repo, .. } => "Failed checking for Github releases for repo, "@ + repo@ + ". Proceeding without releases..."@,
            OrandaError::CargoDistManifestPartial { tag, .. } => "Skipping unparseable release manifest for "@ + tag@,
            OrandaError::PackageVersionParse { version, .. } => "Failed to parse package version "@ + version@,
            OrandaError::PathdiffError { path, root_path, .. } => "Unable to create a path to "@ + path@ + " from root path "@ + root_path@ + "."@,
            OrandaError::MdBookLoad { path, .. } => "Couldn't load your mdbook at "@ + path@,
            OrandaError::MdBookBuild { path, .. } => "Couldn't build your mdbook at "@ + path@,
            OrandaError::MdbookBuildRecursive { dest_path, src_path, .. } => "Can't build mdbook because book output directory "@ + dest_path@ + " is under book source directory "@ + src_path@,
            OrandaError::BrokenProject { kind, manifest_path, .. } => "We found a potential "@ + kind@ + " project at "@ + manifest_path@ + " but there was an issue"@,
            OrandaError::ChangelogParseFailed { name, version, .. } => "Unable to parse changelog for "@ + name@ + " version "@ + version@,
            OrandaError::FundingLoadFailed { path, .. } => "Failed to loading funding details at "@ + path@,
            OrandaError::TomlEdit { .. } => "Failed to edit toml document"@,
            OrandaError::FilesystemWatchError(_) => "We were unable to watch your filesystem for changes"@,
            OrandaError::GithubFundingFetchError { .. } => "Failed to fetch your funding info from GitHub."@,
            OrandaError::FundingConfigInvalid => "Couldn't find your FUNDING.yml or funding.md"@,
            OrandaError::GithubFundingParseError { .. } => "Error while parsing FUNDING.yml"@,
            OrandaError::PreferredFundingNotFound { preferred, .. } => "Your preferred_funding '"@ + preferred@ + "' didn't match any of the sources we found"@,
            OrandaError::MdBookConfigInvalid => "Couldn't find your book.toml"@,
            OrandaError::PathDoesNotExist { path, .. } => "Specified path `"@ + path@ + "` was not found on your filesystem!"@,
            OrandaError::Other(inner) => inner@,
        }
    }

    /// The advice that goes with this error, for the kinds that have any.
    pub open spec fn help_text(&self) -> Option<Seq<char>> {
        match self {
            OrandaError::InvalidOrandaCSSOverride { .. } => Some("Please make sure you give a valid path pointing to a css file."@),
            OrandaError::UnknownRepoStyle { .. } => Some("oranda only supports URLs you can also use with Git."@),
            OrandaError::BuildNotFound { .. } => Some("Did you remember to run `oranda build`?"@),
            OrandaError::CargoDistManifestPartial { schema_version, parser_version, .. } => Some("the schema was version "@ + schema_version@ + ", while our parser is version "@ + parser_version@),
            OrandaError::PathdiffError { .. } => Some("It can help to have your workspace members in a subdirectory under your workspace root."@),
            OrandaError::MdbookBuildRecursive { .. } => Some("Make sure that your book source does not contain your book output directory, as that will lead to infinite recursion. Change either the `src` setting or the `build_dir` setting in your book.toml."@),
            OrandaError::ChangelogParseFailed { .. } => Some("Make sure that your changelog file lists the version in a header!"@),
            OrandaError::FilesystemWatchError(_) => Some("Make sure that oranda has privileges to set up file watchers!"@),
            OrandaError::GithubFundingFetchError { .. } => Some("Make sure that your funding file is located at `.github/FUNDING.yml`."@),
            OrandaError::FundingConfigInvalid => Some("You can manually specify md_path or yml_path in your components.funding config"@),
            OrandaError::GithubFundingParseError { .. } => Some("Make sure your FUNDING.yml conforms to GitHub's format!"@),
            OrandaError::PreferredFundingNotFound { help, .. } => Some(help@),
            OrandaError::MdBookConfigInvalid => Some("You can manually specify path in your components.mdbook config"@),
            OrandaError::PathDoesNotExist { .. } => Some("Make sure you specify your path relative to the oranda.json/manifest file/README file of your project!"@),
            _ => None,
        }
    }

    /// Describes this error to the operator. An error that only carries a
    /// collaborator's cause is described by that cause.
    pub fn message(&self) -> (out: String)
        ensures
            out@ == self.message_text(),
    {
        match self {
            OrandaError::Io(inner) => inner.clone(),
            OrandaError::Toml(inner) => inner.clone(),
            OrandaError::StripPrefixError(inner) => inner.clone(),
            OrandaError::Json(inner) => inner.clone(),
            OrandaError::Syntect(inner) => inner.clone(),
            OrandaError::AxoAsset(inner) => inner.clone(),
            OrandaError::AxoProject(inner) => inner.clone(),
            OrandaError::Octolotl(inner) => inner.clone(),
            OrandaError::Reqwest(inner) => inner.clone(),
            OrandaError::Minijinja(inner) => inner.clone(),
            OrandaError::UrlParse(inner) => inner.clone(),
            OrandaError::Gazenot(inner) => inner.clone(),
            OrandaError::GenerateCss(inner) => inner.clone(),
            OrandaError::DistDirCreationError { dist_path, .. } => "Failed to create a directory, `".to_owned().concat(dist_path.as_str()).concat("` to build your project in."),
            OrandaError::InvalidOrandaCSSOverride { path, .. } => "Found an invalid value, `".to_owned().concat(path.as_str()).concat("`, assigned to ORANDA_CSS environment variable."),
            OrandaError::GithubReleasesFetchError { .. } => "Failed fetching releases from Github.".to_owned(),
            OrandaError::AxoReleasesFetchError => "Failed fetching releases from axo Releases.".to_owned(),
            OrandaError::GithubReleaseParseError { .. } => "Failed parsing response when fetching releases from Github.".to_owned(),
            OrandaError::UnknownRepoStyle { url, .. } => "Your repository URL ".to_owned().concat(url.as_str()).concat(" couldn't be parsed."),
            OrandaError::NoCargoDistReleasesFound { repo_owner, repo_name, .. } => "Could not find any releases from ".to_owned().concat(repo_owner.as_str()).concat("/").concat(repo_name.as_str()).concat(" with a cargo-dist compatible release manifest."),
            OrandaError::FSExtra(inner) => inner.clone(),
            OrandaError::FileNotFound { filedesc, path, .. } => "failed to read ".to_owned().concat(filedesc.as_str()).concat(" at ").concat(path.as_str()),
            OrandaError::BuildNotFound { dist_dir, .. } => "Could not find a build in ".to_owned().concat(dist_dir.as_str()),
            OrandaError::CargoDistManifestMalformed { tag, .. } => "Skipping malformed release manifest for ".to_owned().concat(tag.as_str()),
            OrandaError::ReleasesCheckFailed { repo, .. } => "Failed checking for Github releases for repo, ".to_owned().concat(repo.as_str()).concat(". Proceeding without releases..."),
            OrandaError::CargoDistManifestPartial { tag, .. } => "Skipping unparseable release manifest for ".to_owned().concat(tag.as_str()),
            OrandaError::PackageVersionParse { version, .. } => "Failed to parse package version ".to_owned().concat(version.as_str()),
            OrandaError::PathdiffError { path, root_path, .. } => "Unable to create a path to ".to_owned().concat(path.as_str()).concat(" from root path ").concat(root_path.as_str()).concat("."),
            OrandaError::MdBookLoad { path, .. } => "Couldn't load your mdbook at ".to_owned().concat(path.as_str()),
            OrandaError::MdBookBuild { path, .. } => "Couldn't build your mdbook at ".to_owned().concat(path.as_str()),
            OrandaError::MdbookBuildRecursive { dest_path, src_path, .. } => "Can't build mdbook because book output directory ".to_owned().concat(dest_path.as_str()).concat(" is under book source directory ").concat(src_path.as_str()),
            OrandaError::BrokenProject { kind, manifest_path, .. } => "We found a potential ".to_owned().concat(kind.as_str()).concat(" project at ").concat(manifest_path.as_str()).concat(" but there was an issue"),
            OrandaError::ChangelogParseFailed { name, version, .. } => "Unable to parse changelog for ".to_owned().concat(name.as_str()).concat(" version ").concat(version.as_str()),
            OrandaError::FundingLoadFailed { path, .. } => "Failed to loading funding details at ".to_owned().concat(path.as_str()),
            OrandaError::TomlEdit { .. } => "Failed to edit toml document".to_owned(),
            OrandaError::FilesystemWatchError(_) => "We were unable to watch your filesystem for changes".to_owned(),
            OrandaError::GithubFundingFetchError { .. } => "Failed to fetch your funding info from GitHub.".to_owned(),
            OrandaError::FundingConfigInvalid => "Couldn't find your FUNDING.yml or funding.md".to_owned(),
            OrandaError::GithubFundingParseError { .. } => "Error while parsing FUNDING.yml".to_owned(),
            OrandaError::PreferredFundingNotFound { preferred, .. } => "Your preferred_funding '".to_owned().concat(preferred.as_str()).concat("' didn't match any of the sources we found"),
            OrandaError::MdBookConfigInvalid => "Couldn't find your book.toml".to_owned(),
            OrandaError::PathDoesNotExist { path, .. } => "Specified path `".to_owned().concat(path.as_str()).concat("` was not found on your filesystem!"),
            OrandaError::Other(inner) => inner.clone(),
        }
    }

    /// The advice that goes with this error, or `None` for a kind without.
    pub fn help(&self) -> (out: Option<String>)
        ensures
            match out {
                Some(advice) => self.help_text() == Some(advice@),
                None => self.help_text() is None,
            },
    {
        match self {
            OrandaError::InvalidOrandaCSSOverride { .. } => Some("Please make sure you give a valid path pointing to a css file.".to_owned()),
            OrandaError::UnknownRepoStyle { .. } => Some("oranda only supports URLs you can also use with Git.".to_owned()),
            OrandaError::BuildNotFound { .. } => Some("Did you remember to run `oranda build`?".to_owned()),
            OrandaError::CargoDistManifestPartial { schema_version, parser_version, .. } => Some("the schema was version ".to_owned().concat(schema_version.as_str()).concat(", while our parser is version ").concat(parser_version.as_str())),
            OrandaError::PathdiffError { .. } => Some("It can help to have your workspace members in a subdirectory under your workspace root.".to_owned()),
            OrandaError::MdbookBuildRecursive { .. } => Some("Make sure that your book source does not contain your book output directory, as that will lead to infinite recursion. Change either the `src` setting or the `build_dir` setting in your book.toml.".to_owned()),
            OrandaError::ChangelogParseFailed { .. } => Some("Make sure that your changelog file lists the version in a header!".to_owned()),
            OrandaError::FilesystemWatchError(_) => Some("Make sure that oranda has privileges to set up file watchers!".to_owned()),
            OrandaError::GithubFundingFetchError { .. } => Some("Make sure that your funding file is located at `.github/FUNDING.yml`.".to_owned()),
            OrandaError::FundingConfigInvalid => Some("You can manually specify md_path or yml_path in your components.funding config".to_owned()),
            OrandaError::GithubFundingParseError { .. } => Some("Make sure your FUNDING.yml conforms to GitHub's format!".to_owned()),
            OrandaError::PreferredFundingNotFound { help, .. } => Some(help.clone()),
            OrandaError::MdBookConfigInvalid => Some("You can manually specify path in your components.mdbook config".to_owned()),
            OrandaError::PathDoesNotExist { .. } => Some("Make sure you specify your path relative to the oranda.json/manifest file/README file of your project!".to_owned()),
            _ => None,
        }
    }
}

} // verus!
