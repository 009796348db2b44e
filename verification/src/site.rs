//! One project's site: what is built for it, in which order, and where each
//! page is written.

use crate::config::{
    additional_page_sources, page_sources, ChangelogConfig, ComponentConfig, Config,
    ProjectConfig, ReleasesSource,
};
use crate::context::{
    has_latest, is_placeholder_only, raw_views, releases_of, reports_flawed, source_of,
    Aggregate, Context, ContextBuild, FetchOutcome,
};
use crate::errors::{OrandaError, Severity};
use crate::paths::{
    ends_with, extension, file_stem, join as join_path, parent, path_ends_with, path_extension,
    path_file_stem, path_join, path_parent,
};
use crate::release::ReleaseView;
use crate::repo::{repository_of, resolved_view, resolve_repository, Repository, RepositoryView};
use crate::text::{join, joined, opt_text, same_text, string_texts, texts_of};
use crate::workspace::WorkspaceData;
use indexmap::IndexMap;
use vstd::pervasive::unreached;
use vstd::prelude::*;
use vstd::string::StringExecFns;

verus! {

/// One rendered file of a site.
#[derive(Clone, Debug, PartialEq, Eq)]
pub struct Page {
    /// Output file name: relative, slash-separated.
    pub filename: String,
    pub contents: String,
}

/// The result of building one project.
#[derive(Debug, PartialEq, Eq)]
pub struct Site {
    /// The workspace member that the site was built for, if any.
    pub workspace_data: Option<WorkspaceData>,
    pub pages: Vec<Page>,
}

/// One page that a build has to render.
#[derive(Clone, Copy, Debug, PartialEq, Eq, Structural)]
pub enum PageJob {
    /// The additional page with this position among the pages to render.
    Additional(usize),
    /// The artifacts page.
    Artifacts,
    /// The changelog overview.
    ChangelogIndex,
    /// The changelog feed.
    ChangelogFeed,
    /// The changelog page of the release at this position of the history.
    ChangelogRelease(usize),
    /// The funding page.
    Funding,
    /// The root page; with the artifacts of the latest release or plain.
    Index { with_artifacts: bool },
}

/// What building one project amounts to.
#[derive(Clone, Debug, PartialEq, Eq)]
pub struct SitePlan {
    /// The installers of the latest release are shown inline.
    pub inline_latest: bool,
    /// The artifacts summary is written next to the pages.
    pub artifacts_json: bool,
    /// The pages to render, in the order in which they are emitted.
    pub pages: Vec<PageJob>,
}

/// The additional pages of a project, split by whether they can be rendered.
#[derive(Clone, Debug, PartialEq, Eq)]
pub struct AdditionalPages {
    /// Source files that are rendered, in configuration order.
    pub render: Vec<String>,
    /// Source files that are not markdown and are passed over, in configuration order.
    pub skipped: Vec<String>,
}

/// Whether a build needs the release history.
#[derive(Clone, Debug, PartialEq, Eq)]
pub enum ContextNeed {
    /// No repository is configured.
    NotNeeded,
    /// A component that shows releases is enabled.
    Needed,
    /// No such component is enabled; the history is needed exactly if this
    /// repository, which the URL names, has any releases at all.
    IfReleased { url: String, repository: Repository },
}

/// Whether a build needs the release history, with the error that was
/// survived in finding out.
#[derive(Clone, Debug, PartialEq, Eq)]
pub struct NeedDecision {
    pub need: ContextNeed,
    pub report: Option<OrandaError>,
}

/// What asking the release source whether a repository has releases gave.
#[derive(Clone, Debug, PartialEq, Eq)]
pub enum ReleaseCheck {
    /// The source was not asked.
    NotAsked,
    /// The source said whether there are releases.
    Found(bool),
    /// The source could not be reached, for this reason.
    Unreachable(String),
}

/// A settled need, with the error that was survived in settling it.
#[derive(Clone, Debug, PartialEq, Eq)]
pub struct Settled {
    pub needed: bool,
    pub report: Option<OrandaError>,
}

/// The components that a build goes on with once the funding data was
/// asked for, with the error that was survived.
#[derive(Clone, Debug, PartialEq, Eq)]
pub struct FundingDecision {
    pub components: ComponentConfig,
    pub report: Option<OrandaError>,
}

/// Which release source a build asks.
#[derive(Clone, Debug, PartialEq, Eq)]
pub enum ReleaseRequest {
    /// None: no repository is configured.
    WorkingTree,
    /// The hosting platform's release list of this repository.
    GitHub(Repository),
    /// The release-hosting service, for this package of this repository.
    FirstParty { package: String, repository: Repository },
    /// None: the configured repository could not be resolved.
    Refused(OrandaError),
}

/// Whether a component that shows releases is enabled.
pub open spec fn shows_releases(c: ComponentConfig) -> bool {
    c.artifacts_enabled() || c.changelog is Some || c.funding
}

/// Whether `decision` is what a build with a repository comes to. With a
/// component that shows releases the history is needed, whatever the
/// repository URL is; nothing is reported. Without one the URL is looked
/// at: where it names a repository, the need depends on whether that
/// repository has releases; where it names none, the build goes on without
/// a history and the refusal is reported.
pub open spec fn decides_need(
    shows: bool,
    url: Seq<char>,
    resolved: Result<RepositoryView, Seq<char>>,
    decision: NeedDecision,
) -> bool {
    if shows {
        decision.need is Needed && decision.report is None
    } else {
        decides_unshown_need(url, resolved, decision)
    }
}

/// Whether `decision` is what a build with a repository and without a
/// component that shows releases comes to, given what the repository URL
/// resolved to.
pub open spec fn decides_unshown_need(
    url: Seq<char>,
    resolved: Result<RepositoryView, Seq<char>>,
    decision: NeedDecision,
) -> bool {
    match resolved {
        Err(reason) => decision.need is NotNeeded && (decision.report matches Some(
            OrandaError::AxoProject(details),
        ) && details@ == reason),
        Ok(named) => decision.report is None && (decision.need matches ContextNeed::IfReleased {
            url: asked,
            repository,
        } && asked@ == url && repository@ == named),
    }
}

/// Whether `settled` is what a need comes to once the source was asked
/// whether there are releases. Only a need that depends on the answer looks
/// at it: it is settled by the answer, and a source that could not be
/// reached settles it as not needed, with a warning that names the
/// repository.
pub open spec fn settles(need: ContextNeed, check: ReleaseCheck, settled: Settled) -> bool {
    match need {
        ContextNeed::NotNeeded => !settled.needed && settled.report is None,
        ContextNeed::Needed => settled.needed && settled.report is None,
        ContextNeed::IfReleased { url, .. } => match check {
            ReleaseCheck::Found(has_releases) => settled.needed == has_releases && settled.report
                is None,
            ReleaseCheck::NotAsked => !settled.needed && settled.report is None,
            ReleaseCheck::Unreachable(_) => !settled.needed && (settled.report matches Some(
                OrandaError::ReleasesCheckFailed { repo },
            ) && repo@ == url@),
        },
    }
}

/// The release source that a configuration selects: the hosting platform
/// unless the hosting service is asked for.
pub open spec fn selected_source(c: ComponentConfig) -> ReleasesSource {
    match c.source {
        Some(selected) => selected,
        None => ReleasesSource::GitHub,
    }
}

/// The tag of the placeholder release of a project: its version, or
/// `current` where none is known.
pub open spec fn placeholder_tag(project: ProjectConfig) -> Seq<char> {
    match project.version {
        Some(version) => version@,
        None => "current"@,
    }
}

/// The history of a project without releases.
pub open spec fn placeholder_history(project: ProjectConfig) -> Seq<ReleaseView> {
    seq![ReleaseView::current(placeholder_tag(project))]
}

/// One step that readies the output directory before anything is rendered.
#[derive(Clone, Copy, Debug, PartialEq, Eq, Structural)]
pub enum Preparation {
    /// The output directory is removed with all that is in it.
    RemoveDistDir,
    /// The output directory is created, with the directories above it.
    CreateDistDir,
    /// The default favicon is placed.
    PlaceDefaultFavicon,
    /// The style sheet is placed.
    PlaceCss,
}

/// One step of building the index of a workspace.
#[derive(Clone, Copy, Debug, PartialEq, Eq, Structural)]
pub enum IndexStep {
    /// The default favicon is placed.
    PlaceDefaultFavicon,
    /// The style sheet is placed.
    PlaceCss,
    /// The index page is rendered from the members.
    Render,
    /// The additional style sheets are written.
    AdditionalCss,
    /// The index page is written to its destination.
    Write,
}

/// How the index of a workspace is built and where it is written.
#[derive(Clone, Debug, PartialEq, Eq)]
pub struct WorkspaceIndexPlan {
    pub steps: Vec<IndexStep>,
    pub destination: String,
}

/// The steps that empty the output directory: it is created, after it was
/// removed where it exists.
pub open spec fn cleaning(dist_exists: bool) -> Seq<Preparation> {
    (if dist_exists { seq![Preparation::RemoveDistDir] } else { Seq::empty() })
    + seq![Preparation::CreateDistDir]
}

/// The steps that place what every page needs: the default favicon where
/// none is configured, and the style sheet.
pub open spec fn asset_placing(config: Config) -> Seq<Preparation> {
    (if config.styles.favicon is None { seq![Preparation::PlaceDefaultFavicon] } else { Seq::empty() })
    + seq![Preparation::PlaceCss]
}

/// The steps of building a workspace index, in order.
pub open spec fn index_steps(config: Config) -> Seq<IndexStep> {
    (if config.styles.favicon is None { seq![IndexStep::PlaceDefaultFavicon] } else { Seq::empty() })
    + seq![IndexStep::PlaceCss, IndexStep::Render]
    + (if config.styles.additional_css@.len() > 0 { seq![IndexStep::AdditionalCss] } else { Seq::empty() })
    + seq![IndexStep::Write]
}

/// What is placed in the output directory once the pages are written.
#[derive(Clone, Copy, Debug, PartialEq, Eq, Structural)]
pub enum Placement {
    /// The documentation book is built into the output.
    Book,
    /// The configured favicon is copied.
    Favicon,
    /// The static directory is copied, if it exists.
    StaticFiles,
    /// The script that detects the visitor's platform is written.
    OsScript,
    /// The additional style sheets are written.
    AdditionalCss,
}

/// Where the pages of a site go, and what is placed after them.
#[derive(Clone, Debug, PartialEq, Eq)]
pub struct WritePlan {
    /// The destination of each page, in the order of the pages.
    pub destinations: Vec<String>,
    /// What follows the pages, in order.
    pub after: Vec<Placement>,
}

/// Whether a page gets a pretty link: it is an `html` file and its name does
/// not end in the component `index.html`.
pub open spec fn is_pretty_link(filename: Seq<char>) -> bool {
    !path_ends_with(filename, "index.html"@) && path_extension(filename) == Some("html"@)
}

/// The path segments of a page's destination, in the order in which they
/// are adjoined to the output directory. A page with a pretty link and a
/// stem goes to `index.html` in a directory named by its stem, beside where
/// it would have been: its parent, or nothing where it has none, then the
/// stem, then `index.html`. Every other page goes to its literal path.
pub open spec fn segments_of(
    pretty: bool,
    stem: Option<Seq<char>>,
    beside: Option<Seq<char>>,
    filename: Seq<char>,
) -> Seq<Seq<char>> {
    if pretty && stem is Some {
        seq![
            match beside {
                Some(p) => p,
                None => Seq::empty(),
            },
            stem->0,
            "index.html"@,
        ]
    } else {
        seq![filename]
    }
}

/// `segments` adjoined to `base` one after the other.
pub open spec fn adjoined(base: Seq<char>, segments: Seq<Seq<char>>) -> Seq<char>
    decreases segments.len(),
{
    if segments.len() == 0 {
        base
    } else {
        path_join(adjoined(base, segments.drop_last()), segments.last())
    }
}

/// Where a page is written below `dist`: its segments adjoined to `dist`.
pub open spec fn destination_of(dist: Seq<char>, filename: Seq<char>) -> Seq<char> {
    adjoined(
        dist,
        segments_of(
            is_pretty_link(filename),
            path_file_stem(filename),
            path_parent(filename),
            filename,
        ),
    )
}

/// What is placed after the pages, in order: the book and the favicon where
/// configured, the static files and the platform script always, the
/// additional style sheets where there are any.
pub open spec fn placements(config: Config) -> Seq<Placement> {
    (if config.components.mdbook { seq![Placement::Book] } else { Seq::empty() })
    + (if config.styles.favicon is Some { seq![Placement::Favicon] } else { Seq::empty() })
    + seq![Placement::StaticFiles, Placement::OsScript]
    + (if config.styles.additional_css@.len() > 0 { seq![Placement::AdditionalCss] } else { Seq::empty() })
}

/// Whether a source file is markdown: its extension is `md`.
pub open spec fn is_markdown_path(path: Seq<char>) -> bool {
    path_extension(path) == Some("md"@)
}

/// The markdown files among `sources`, in their order.
pub open spec fn markdown_sources(sources: Seq<Seq<char>>) -> Seq<Seq<char>> {
    sources.filter(|path: Seq<char>| is_markdown_path(path))
}

/// The files among `sources` that are not markdown, in their order.
pub open spec fn other_sources(sources: Seq<Seq<char>>) -> Seq<Seq<char>> {
    sources.filter(|path: Seq<char>| !is_markdown_path(path))
}

/// The names of the components that a configuration enables, in build order.
pub open spec fn planned_components(c: ComponentConfig) -> Seq<Seq<char>> {
    (if c.artifacts_enabled() { seq!["artifacts"@] } else { Seq::empty() })
    + (if c.changelog is Some { seq!["changelog"@] } else { Seq::empty() })
    + (if c.funding { seq!["funding"@] } else { Seq::empty() })
    + (if c.mdbook { seq!["mdbook"@] } else { Seq::empty() })
}

/// Whether the artifacts of the latest release are shown: there is a
/// history that does not stand in for an unreachable source, the component
/// is enabled, and some release qualifies as latest.
pub open spec fn shows_artifacts(
    c: ComponentConfig,
    history: Option<Seq<ReleaseView>>,
    source_failed: bool,
) -> bool {
    !source_failed && (history matches Some(releases) && c.artifacts_enabled() && has_latest(
        releases,
    ))
}

/// The pages of the artifacts component.
pub open spec fn artifact_jobs(c: ComponentConfig, releases: Seq<ReleaseView>) -> Seq<PageJob> {
    if c.artifacts_enabled() && has_latest(releases) {
        seq![PageJob::Artifacts]
    } else {
        Seq::empty()
    }
}

/// One changelog page per release of the history.
pub open spec fn release_jobs(count: nat) -> Seq<PageJob> {
    Seq::new(count, |i: int| PageJob::ChangelogRelease(i as usize))
}

/// The pages of the changelog component: the overview, the feed where it is
/// asked for, and one page per release unless the history is the placeholder.
pub open spec fn changelog_jobs(
    changelog: Option<ChangelogConfig>,
    releases: Seq<ReleaseView>,
) -> Seq<PageJob> {
    seq![PageJob::ChangelogIndex]
    + (if changelog matches Some(c) && c.rss_feed { seq![PageJob::ChangelogFeed] } else { Seq::empty() })
    + (if is_placeholder_only(releases) { Seq::empty() } else { release_jobs(releases.len()) })
}

/// The pages of the components that need a history, in emission order:
/// artifacts and changelog, unless the history stands in for an unreachable
/// source, and funding.
pub open spec fn component_jobs(
    c: ComponentConfig,
    releases: Seq<ReleaseView>,
    source_failed: bool,
) -> Seq<PageJob> {
    (if source_failed { Seq::empty() } else { artifact_jobs(c, releases) })
    + (if c.changelog is Some && !source_failed {
        changelog_jobs(c.changelog, releases)
    } else {
        Seq::empty()
    })
    + (if c.funding { seq![PageJob::Funding] } else { Seq::empty() })
}

/// One job per additional page that is rendered.
pub open spec fn additional_jobs(count: nat) -> Seq<PageJob> {
    Seq::new(count, |i: int| PageJob::Additional(i as usize))
}

/// All pages of a site in emission order: additional pages, the components
/// where there is a history, and the root page last.
pub open spec fn site_jobs(
    c: ComponentConfig,
    additional: nat,
    history: Option<Seq<ReleaseView>>,
    source_failed: bool,
) -> Seq<PageJob> {
    additional_jobs(additional)
    + (match history {
        Some(releases) => component_jobs(c, releases, source_failed),
        None => Seq::empty(),
    })
    + seq![PageJob::Index { with_artifacts: shows_artifacts(c, history, source_failed) }]
}

/// The output file name of a component page or of the root page, under the
/// history `releases`. The page of a release is named by the tag of the
/// release; there is none for a position that the history does not have. An
/// additional page is named by whoever renders it.
pub open spec fn filename_of(job: PageJob, releases: Seq<ReleaseView>) -> Option<Seq<char>> {
    match job {
        PageJob::Additional(_) => None,
        PageJob::Artifacts => Some("artifacts.html"@),
        PageJob::ChangelogIndex => Some("changelog.html"@),
        PageJob::ChangelogFeed => Some("changelog.rss"@),
        PageJob::ChangelogRelease(i) => if i < releases.len() {
            Some("changelog/"@ + releases[i as int].tag + ".html"@)
        } else {
            None
        },
        PageJob::Funding => Some("funding.html"@),
        PageJob::Index { .. } => Some("index.html"@),
    }
}

/// The model of an optional history.
pub open spec fn history_of(context: Option<&Context>) -> Option<Seq<ReleaseView>> {
    match context {
        Some(context) => Some(context@),
        None => None,
    }
}

/// Whether an optional history stands in for an unreachable source.
pub open spec fn failed_of(context: Option<&Context>) -> bool {
    match context {
        Some(context) => context.source_failed,
        None => false,
    }
}

/// The releases of an optional history; none where there is no history.
pub open spec fn releases_in(context: Option<&Context>) -> Seq<ReleaseView> {
    match context {
        Some(context) => context@,
        None => Seq::empty(),
    }
}

/// Decides whether a page gets a pretty link, from what the path rules say
/// of its name: whether it ends in the component `index.html`, and its
/// extension. It does exactly when the extension is `html` and the name does
/// not end in that component.
pub fn wants_pretty_link(ends_with_index: bool, extension: Option<&str>) -> (b: bool)
    ensures
        b == (!ends_with_index && (extension matches Some(e) && e@ == "html"@)),
{
    match extension {
        Some(e) => !ends_with_index && same_text(e, "html"),
        None => false,
    }
}

/// Decides the path segments of a page's destination from what the path
/// rules say of its name: whether it gets a pretty link, its stem and its
/// parent. The segments come in the order in which they are adjoined to the
/// output directory.
pub fn destination_segments(
    pretty: bool,
    stem: Option<String>,
    beside: Option<String>,
    filename: &str,
) -> (segments: Vec<String>)
    ensures
        string_texts(segments@) == segments_of(pretty, opt_text(stem), opt_text(beside), filename@),
{
    let mut segments: Vec<String> = Vec::new();
    match stem {
        Some(stem) => {
            if pretty {
                let beside = match beside {
                    Some(p) => p,
                    None => String::new(),
                };
                segments.push(beside);
                segments.push(stem);
                segments.push("index.html".to_owned());
            } else {
                segments.push(filename.to_owned());
            }
        },
        None => {
            segments.push(filename.to_owned());
        },
    }
    assert(string_texts(segments@) =~= segments_of(
        pretty,
        opt_text(stem),
        opt_text(beside),
        filename@,
    ));
    segments
}

/// Adjoins `segments` to `base` one after the other.
pub fn adjoin(base: &str, segments: &Vec<String>) -> (out: String)
    ensures
        out@ == adjoined(base@, string_texts(segments@)),
{
    let mut out = base.to_owned();
    let mut i: usize = 0;
    assert(string_texts(segments@).take(0) =~= Seq::<Seq<char>>::empty());
    while i < segments.len()
        invariant
            i <= segments.len(),
            out@ == adjoined(base@, string_texts(segments@).take(i as int)),
        decreases segments.len() - i,
    {
        proof {
            let all = string_texts(segments@);
            assert(all.take(i + 1).drop_last() =~= all.take(i as int));
            assert(all.take(i + 1).last() == segments@[i as int]@);
        }
        out = join_path(out.as_str(), segments[i].as_str());
        i += 1;
    }
    assert(string_texts(segments@).take(segments@.len() as int) =~= string_texts(segments@));
    out
}

/// Decides whether a source file is markdown from its extension: it is
/// exactly when the extension is `md`.
pub fn is_markdown_extension(extension: Option<&str>) -> (b: bool)
    ensures
        b == (extension matches Some(e) && e@ == "md"@),
{
    match extension {
        Some(e) => same_text(e, "md"),
        None => false,
    }
}

/// Whether a source file is markdown.
pub fn is_markdown(path: &str) -> (b: bool)
    ensures
        b == is_markdown_path(path@),
{
    match extension(path) {
        Some(ext) => is_markdown_extension(Some(ext.as_str())),
        None => is_markdown_extension(None),
    }
}

impl PageJob {
    /// The output file name of this page, for the pages that this crate
    /// names. Only the page of a release looks at the history.
    pub fn filename(&self, context: Option<&Context>) -> (out: Option<String>)
        ensures
            opt_text(out) == filename_of(*self, releases_in(context)),
    {
        match self {
            PageJob::Additional(_) => None,
            PageJob::Artifacts => Some("artifacts.html".to_owned()),
            PageJob::ChangelogIndex => Some("changelog.html".to_owned()),
            PageJob::ChangelogFeed => Some("changelog.rss".to_owned()),
            PageJob::ChangelogRelease(i) => match context {
                Some(context) => {
                    if *i < context.releases.len() {
                        let tag = context.releases[*i].tag.as_str();
                        Some("changelog/".to_owned().concat(tag).concat(".html"))
                    } else {
                        None
                    }
                },
                None => None,
            },
            PageJob::Funding => Some("funding.html".to_owned()),
            PageJob::Index { .. } => Some("index.html".to_owned()),
        }
    }
}

impl ContextNeed {
    /// The need of a build with a repository and without a component that
    /// shows releases, given what the repository URL `url` resolved to.
    pub fn from_resolution(url: &str, resolved: Result<Repository, String>) -> (out: NeedDecision)
        ensures
            decides_unshown_need(url@, resolved_view(resolved), out),
    {
        match resolved {
            Err(reason) => NeedDecision {
                need: ContextNeed::NotNeeded,
                report: Some(OrandaError::AxoProject(reason)),
            },
            Ok(repository) => NeedDecision {
                need: ContextNeed::IfReleased { url: url.to_owned(), repository },
                report: None,
            },
        }
    }

    /// Settles the need once the source was asked whether the repository
    /// has releases.
    pub fn resolve(&self, check: &ReleaseCheck) -> (out: Settled)
        ensures
            settles(*self, *check, out),
    {
        match self {
            ContextNeed::NotNeeded => Settled { needed: false, report: None },
            ContextNeed::Needed => Settled { needed: true, report: None },
            ContextNeed::IfReleased { url, .. } => match check {
                ReleaseCheck::Found(has_releases) => Settled {
                    needed: *has_releases,
                    report: None,
                },
                ReleaseCheck::NotAsked => Settled { needed: false, report: None },
                ReleaseCheck::Unreachable(_) => Settled {
                    needed: false,
                    report: Some(OrandaError::ReleasesCheckFailed { repo: url.clone() }),
                },
            },
        }
    }
}

impl ReleaseRequest {
    /// The request of a build that has a repository, given what the
    /// repository URL resolved to: refused where the URL names no
    /// repository; else to the hosting platform, or to the hosting service
    /// under the name `package` where `selected` says so.
    pub fn from_resolution(
        resolved: Result<Repository, String>,
        selected: Option<ReleasesSource>,
        package: &str,
    ) -> (out: ReleaseRequest)
        ensures
            match resolved {
                Err(reason) => out == ReleaseRequest::Refused(OrandaError::AxoProject(reason)),
                Ok(named) => match selected {
                    Some(ReleasesSource::Axodotdev) => out matches ReleaseRequest::FirstParty {
                        package: p,
                        repository,
                    } && p@ == package@ && repository == named,
                    _ => out == ReleaseRequest::GitHub(named),
                },
            },
    {
        match resolved {
            Err(reason) => ReleaseRequest::Refused(OrandaError::AxoProject(reason)),
            Ok(repository) => match selected {
                Some(ReleasesSource::Axodotdev) => ReleaseRequest::FirstParty {
                    package: package.to_owned(),
                    repository,
                },
                _ => ReleaseRequest::GitHub(repository),
            },
        }
    }
}

/// The tag of the placeholder release of a project.
pub fn current_tag(project: &ProjectConfig) -> (tag: String)
    ensures
        tag@ == placeholder_tag(*project),
{
    match &project.version {
        Some(version) => version.clone(),
        None => "current".to_owned(),
    }
}

impl Site {
    /// Decides whether a build needs the release history.
    ///
    /// Without a repository it does not. With a repository and a component
    /// that shows releases it does, and the repository URL is not looked at.
    /// Otherwise the need depends on whether the repository that the URL
    /// names has releases, which only the source can tell; where the URL
    /// names no repository the build goes on without a history, and the
    /// refusal is handed back to be reported.
    pub fn needs_context(config: &Config) -> (out: NeedDecision)
        ensures
            match config.project.repository {
                None => out.need is NotNeeded && out.report is None,
                Some(url) => decides_need(
                    shows_releases(config.components),
                    url@,
                    repository_of(url@),
                    out,
                ),
            },
    {
        match &config.project.repository {
            None => NeedDecision { need: ContextNeed::NotNeeded, report: None },
            Some(url) => {
                if config.components.artifacts_enabled() || config.components.changelog.is_some()
                    || config.components.funding {
                    NeedDecision { need: ContextNeed::Needed, report: None }
                } else {
                    ContextNeed::from_resolution(url.as_str(), resolve_repository(url.as_str()))
                }
            },
        }
    }

    /// Decides which release source a build asks.
    ///
    /// Without a repository none is asked. A repository URL that names no
    /// repository is refused with the error. Otherwise the hosting platform
    /// is asked, or the hosting service where the configuration selects it,
    /// under the project's name.
    pub fn release_request(config: &Config) -> (out: ReleaseRequest)
        ensures
            match config.project.repository {
                None => out is WorkingTree,
                Some(url) => match repository_of(url@) {
                    Err(reason) => out matches ReleaseRequest::Refused(
                        OrandaError::AxoProject(details),
                    ) && details@ == reason,
                    Ok(named) => match selected_source(config.components) {
                        ReleasesSource::GitHub => out matches ReleaseRequest::GitHub(r) && r@
                            == named,
                        ReleasesSource::Axodotdev => out matches ReleaseRequest::FirstParty {
                            package,
                            repository,
                        } && package@ == config.project.name@ && repository@ == named,
                    },
                },
            },
    {
        match &config.project.repository {
            None => ReleaseRequest::WorkingTree,
            Some(url) => ReleaseRequest::from_resolution(
                resolve_repository(url.as_str()),
                config.components.source,
                config.project.name.as_str(),
            ),
        }
    }

    /// Puts the release history of a project together whose repository URL
    /// `url` names a repository, from what the release source answered.
    ///
    /// The history is the placeholder alone where no source was asked,
    /// where the source could not be reached and where it holds no
    /// releases. After an unreachable source the history is marked as
    /// standing in, and the failure is reported once, naming the
    /// repository. Every manifest that was not read in full is reported
    /// once under its tag.
    pub fn history_for(config: &Config, url: &str, fetch: &FetchOutcome) -> (out: Aggregate)
        ensures
            out.context.wf(),
            out.context.source_failed == (*fetch is Unreachable),
            match *fetch {
                FetchOutcome::NotAsked => out.context@ == placeholder_history(config.project)
                    && out.reports@.len() == 0,
                FetchOutcome::Unreachable(_) => out.context@ == placeholder_history(config.project)
                    && out.reports@.len() == 1
                    && (out.reports@[0] matches OrandaError::ReleasesCheckFailed { repo } && repo@
                    == url@),
                FetchOutcome::Fetched(raws) => out.context@ == (if raws@.len() == 0 {
                    placeholder_history(config.project)
                } else {
                    releases_of(source_of(selected_source(config.components)), raw_views(raws@))
                }) && reports_flawed(out.reports@, out.context@),
            },
            forall|k: int| 0 <= k < out.reports@.len() ==> (#[trigger] out.reports@[k]).is_warning(),
    {
        let tag = current_tag(&config.project);
        match fetch {
            FetchOutcome::NotAsked => Aggregate {
                context: Context::new_current(tag.as_str()),
                reports: Vec::new(),
            },
            FetchOutcome::Unreachable(_) => {
                let mut reports: Vec<OrandaError> = Vec::new();
                reports.push(OrandaError::ReleasesCheckFailed { repo: url.to_owned() });
                Aggregate { context: Context::after_failed_source(tag.as_str()), reports }
            },
            FetchOutcome::Fetched(raws) => {
                let selected = match &config.components.source {
                    Some(ReleasesSource::Axodotdev) => ReleasesSource::Axodotdev,
                    _ => ReleasesSource::GitHub,
                };
                Context::from_releases(tag.as_str(), selected, raws)
            },
        }
    }

    /// What a build has in place of a release history where its repository
    /// URL names no repository: no history, with the refusal reported.
    pub fn unresolved_history(reason: String) -> (out: ContextBuild)
        ensures
            out.context is None,
            out.reports@ == seq![OrandaError::AxoProject(reason)],
    {
        let mut reports: Vec<OrandaError> = Vec::new();
        reports.push(OrandaError::AxoProject(reason));
        assert(reports@ =~= seq![OrandaError::AxoProject(reason)]);
        ContextBuild { context: None, reports }
    }

    /// Puts the release history of a project together from what its release
    /// source answered.
    ///
    /// Without a repository the history is the placeholder alone. With a
    /// repository URL that names no repository there is no history, and the
    /// refusal is reported. Otherwise there is a history as
    /// [`Self::history_for`] gives it: the placeholder alone where no source
    /// was asked, where the source could not be reached, which is reported
    /// once naming the repository, and where the source holds no releases;
    /// else the releases of the source, with every manifest that was not
    /// read in full reported once under its tag.
    pub fn build_context(config: &Config, fetch: &FetchOutcome) -> (out: ContextBuild)
        ensures
            match config.project.repository {
                None => (out.context matches Some(context) && context@ == placeholder_history(
                    config.project,
                ) && !context.source_failed && context.wf()) && out.reports@.len() == 0,
                Some(url) => match repository_of(url@) {
                    Err(reason) => out.context is None && out.reports@.len() == 1
                        && (out.reports@[0] matches OrandaError::AxoProject(details) && details@
                        == reason),
                    Ok(_) => out.context matches Some(context) && context.wf()
                        && context.source_failed == (*fetch is Unreachable) && match *fetch {
                        FetchOutcome::NotAsked => context@ == placeholder_history(config.project)
                            && out.reports@.len() == 0,
                        FetchOutcome::Unreachable(_) => context@ == placeholder_history(
                            config.project,
                        ) && out.reports@.len() == 1
                            && (out.reports@[0] matches OrandaError::ReleasesCheckFailed { repo }
                            && repo@ == url@),
                        FetchOutcome::Fetched(raws) => context@ == (if raws@.len() == 0 {
                            placeholder_history(config.project)
                        } else {
                            releases_of(
                                source_of(selected_source(config.components)),
                                raw_views(raws@),
                            )
                        }) && reports_flawed(out.reports@, context@),
                    },
                },
            },
            forall|k: int|
                0 <= k < out.reports@.len() ==> (#[trigger] out.reports@[k]).is_warning()
                    || out.reports@[k] is AxoProject,
    {
        let url = match &config.project.repository {
            Some(url) => url,
            None => {
                let tag = current_tag(&config.project);
                return ContextBuild {
                    context: Some(Context::new_current(tag.as_str())),
                    reports: Vec::new(),
                };
            },
        };
        match resolve_repository(url.as_str()) {
            Ok(_) => {
                let built = Self::history_for(config, url.as_str(), fetch);
                ContextBuild { context: Some(built.context), reports: built.reports }
            },
            Err(reason) => Self::unresolved_history(reason),
        }
    }

    /// Whether the funding data is asked for: the funding component is
    /// configured and there is a release history.
    pub fn loads_funding(config: &Config, context: Option<&Context>) -> (loads: bool)
        ensures
            loads == (config.components.funding && context is Some),
    {
        config.components.funding && context.is_some()
    }

    /// Settles the components once the funding data was asked for.
    ///
    /// Where it was loaded nothing changes. Where loading failed with a
    /// warning the funding component is switched off and the warning handed
    /// back to be reported. Any other failure ends the build.
    pub fn settle_funding(components: &ComponentConfig, loaded: Result<(), OrandaError>) -> (out:
        Result<FundingDecision, OrandaError>)
        ensures
            match loaded {
                Ok(_) => out matches Ok(decision) && decision.components == *components
                    && decision.report is None,
                Err(e) => if e.is_warning() {
                    out matches Ok(decision) && decision.components == (ComponentConfig {
                        funding: false,
                        ..*components
                    }) && decision.report == Some(e)
                } else {
                    out == Err::<FundingDecision, OrandaError>(e)
                },
            },
    {
        match loaded {
            Ok(_) => Ok(
                FundingDecision { components: components.with_funding_loaded(true), report: None },
            ),
            Err(e) => match e.severity() {
                Severity::Warning => Ok(
                    FundingDecision {
                        components: components.with_funding_loaded(false),
                        report: Some(e),
                    },
                ),
                Severity::Fatal => Err(e),
            },
        }
    }

    /// Settles the style sheet override of the environment: none where the
    /// variable is unset; the path where it names an existing file; a
    /// configuration error that names the value otherwise.
    pub fn css_override(value: Option<&str>, exists: bool) -> (out: Result<
        Option<String>,
        OrandaError,
    >)
        ensures
            match value {
                None => out matches Ok(None),
                Some(path) => if exists {
                    out matches Ok(Some(p)) && p@ == path@
                } else {
                    out matches Err(OrandaError::InvalidOrandaCSSOverride { path: p }) && p@
                        == path@
                },
            },
    {
        match value {
            None => Ok(None),
            Some(path) => if exists {
                Ok(Some(path.to_owned()))
            } else {
                Err(OrandaError::InvalidOrandaCSSOverride { path: path.to_owned() })
            },
        }
    }

    /// The steps that empty the output directory, given whether it exists.
    pub fn clean_dist_dir(dist_exists: bool) -> (steps: Vec<Preparation>)
        ensures
            steps@ == cleaning(dist_exists),
    {
        let mut steps: Vec<Preparation> = Vec::new();
        if dist_exists {
            steps.push(Preparation::RemoveDistDir);
        }
        steps.push(Preparation::CreateDistDir);
        assert(steps@ =~= cleaning(dist_exists));
        steps
    }

    /// The error that a failed step of emptying the output directory ends
    /// the build with. Failing to create the directory names the directory;
    /// every other failure is the file system's own. Either is fatal.
    pub fn preparation_failure(step: Preparation, dist_path: &str, details: String) -> (e:
        OrandaError)
        ensures
            !e.is_warning(),
            match step {
                Preparation::CreateDistDir => e matches OrandaError::DistDirCreationError {
                    dist_path: named,
                    details: cause,
                } && named@ == dist_path@ && cause == details,
                _ => e matches OrandaError::Io(cause) && cause == details,
            },
    {
        match step {
            Preparation::CreateDistDir => OrandaError::DistDirCreationError {
                dist_path: dist_path.to_owned(),
                details,
            },
            _ => OrandaError::Io(details),
        }
    }

    /// The steps before anything is rendered: the output directory is
    /// emptied, then the default favicon is placed where none is configured,
    /// then the style sheet.
    pub fn prepare(config: &Config, dist_exists: bool) -> (steps: Vec<Preparation>)
        ensures
            steps@ == cleaning(dist_exists) + asset_placing(*config),
    {
        let mut steps = Self::clean_dist_dir(dist_exists);
        if config.styles.favicon.is_none() {
            steps.push(Preparation::PlaceDefaultFavicon);
        }
        steps.push(Preparation::PlaceCss);
        assert(steps@ =~= cleaning(dist_exists) + asset_placing(*config));
        steps
    }

    /// Plans the index of a workspace: the default favicon is placed where
    /// none is configured, then the style sheet; the page is rendered; the
    /// additional style sheets are written where there are any; the page is
    /// written to `index.html` in the output directory.
    pub fn build_and_write_workspace_index(workspace_config: &Config) -> (plan: WorkspaceIndexPlan)
        ensures
            plan.steps@ == index_steps(*workspace_config),
            plan.destination@ == path_join(workspace_config.build.dist_dir@, "index.html"@),
    {
        let mut steps: Vec<IndexStep> = Vec::new();
        if workspace_config.styles.favicon.is_none() {
            steps.push(IndexStep::PlaceDefaultFavicon);
        }
        steps.push(IndexStep::PlaceCss);
        steps.push(IndexStep::Render);
        if workspace_config.styles.additional_css.len() > 0 {
            steps.push(IndexStep::AdditionalCss);
        }
        steps.push(IndexStep::Write);
        assert(steps@ =~= index_steps(*workspace_config));
        WorkspaceIndexPlan {
            steps,
            destination: join_path(workspace_config.build.dist_dir.as_str(), "index.html"),
        }
    }

    /// The line that announces the enabled components, or `None` where no
    /// component is enabled.
    pub fn print_plan(config: &Config) -> (message: Option<String>)
        ensures
            match message {
                Some(m) => planned_components(config.components).len() > 0 && m@
                    == "Building components: "@ + joined(
                    planned_components(config.components),
                    ", "@,
                ),
                None => planned_components(config.components).len() == 0,
            },
    {
        let mut planned: Vec<&str> = Vec::new();
        if config.components.artifacts_enabled() {
            planned.push("artifacts");
        }
        if config.components.changelog.is_some() {
            planned.push("changelog");
        }
        if config.components.funding {
            planned.push("funding");
        }
        if config.components.mdbook {
            planned.push("mdbook");
        }
        assert(texts_of(planned@) =~= planned_components(config.components));
        if planned.len() == 0 {
            None
        } else {
            let list = join(&planned, ", ");
            Some("Building components: ".to_owned().concat(list.as_str()))
        }
    }

    /// Splits the additional pages of a project into the markdown files,
    /// which are rendered, and the others, which are passed over. Both lists
    /// keep the order of the configuration.
    pub fn build_additional_pages(files: &IndexMap<String, String>) -> (out: AdditionalPages)
        ensures
            string_texts(out.render@) == markdown_sources(page_sources(*files)),
            string_texts(out.skipped@) == other_sources(page_sources(*files)),
    {
        let sources = additional_page_sources(files);
        assert(string_texts(sources@) =~= page_sources(*files));
        Self::split_sources(&sources)
    }

    /// Splits source files into the markdown files and the others, each
    /// list in the order of `sources`.
    pub fn split_sources(sources: &Vec<String>) -> (out: AdditionalPages)
        ensures
            string_texts(out.render@) == markdown_sources(string_texts(sources@)),
            string_texts(out.skipped@) == other_sources(string_texts(sources@)),
    {
        let ghost all = string_texts(sources@);
        let mut render: Vec<String> = Vec::new();
        let mut skipped: Vec<String> = Vec::new();
        let mut i: usize = 0;
        proof {
            reveal(Seq::filter);
            assert(all.take(0) =~= Seq::<Seq<char>>::empty());
            assert(string_texts(render@) =~= markdown_sources(all.take(0)));
            assert(string_texts(skipped@) =~= other_sources(all.take(0)));
        }
        while i < sources.len()
            invariant
                i <= sources.len(),
                sources@.len() == all.len(),
                forall|j: int| 0 <= j < sources@.len() ==> (#[trigger] sources@[j])@ == all[j],
                string_texts(render@) == markdown_sources(all.take(i as int)),
                string_texts(skipped@) == other_sources(all.take(i as int)),
            decreases sources.len() - i,
        {
            let source = sources[i].clone();
            proof {
                reveal(Seq::filter);
                assert(all.take(i + 1).drop_last() =~= all.take(i as int));
                assert(all.take(i + 1).last() == all[i as int]);
                assert(source@ == all[i as int]);
            }
            if is_markdown(source.as_str()) {
                let ghost before = render@;
                render.push(source);
                assert(string_texts(render@) =~= string_texts(before).push(all[i as int]));
            } else {
                let ghost before = skipped@;
                skipped.push(source);
                assert(string_texts(skipped@) =~= string_texts(before).push(all[i as int]));
            }
            i += 1;
        }
        proof {
            assert(all.take(sources@.len() as int) =~= all);
        }
        AdditionalPages { render, skipped }
    }

    /// The pages of the changelog component, in emission order: the
    /// overview, the feed where the configuration asks for one, and one page
    /// per release unless the history is the placeholder alone.
    pub fn build_changelog_pages(context: &Context, config: &Config) -> (jobs: Vec<PageJob>)
        ensures
            jobs@ == changelog_jobs(config.components.changelog, context@),
    {
        let mut jobs: Vec<PageJob> = Vec::new();
        jobs.push(PageJob::ChangelogIndex);
        let feed = match &config.components.changelog {
            Some(changelog) => changelog.rss_feed,
            None => false,
        };
        if feed {
            jobs.push(PageJob::ChangelogFeed);
        }
        let ghost head = jobs@;
        let count = context.releases.len();
        if !(count == 1 && context.releases[0].source.is_current_state()) {
            let mut i: usize = 0;
            while i < count
                invariant
                    i <= count,
                    jobs@ == head + release_jobs(i as nat),
                decreases count - i,
            {
                jobs.push(PageJob::ChangelogRelease(i));
                assert(jobs@ =~= head + release_jobs((i + 1) as nat));
                i += 1;
            }
        } else {
            assert(is_placeholder_only(context@));
            assert(jobs@ =~= head + Seq::<PageJob>::empty());
        }
        assert(jobs@ =~= changelog_jobs(config.components.changelog, context@));
        jobs
    }

    /// The pages of the components that need a release history, in emission
    /// order: artifacts, changelog, funding. A history that stands in for an
    /// unreachable source gets neither artifacts nor changelog pages.
    pub fn build_component_pages(context: &Context, config: &Config) -> (jobs: Vec<PageJob>)
        ensures
            jobs@ == component_jobs(config.components, context@, context.source_failed),
    {
        let mut jobs: Vec<PageJob> = Vec::new();
        if !context.source_failed {
            if config.components.artifacts_enabled() && context.latest_index().is_some() {
                jobs.push(PageJob::Artifacts);
            }
            assert(jobs@ =~= artifact_jobs(config.components, context@));
            if config.components.changelog.is_some() {
                let mut changelog = Self::build_changelog_pages(context, config);
                jobs.append(&mut changelog);
            }
        }
        if config.components.funding {
            jobs.push(PageJob::Funding);
        }
        assert(jobs@ =~= component_jobs(config.components, context@, context.source_failed));
        jobs
    }

    /// Plans the site of one project.
    ///
    /// The pages come in emission order: the additional pages that are
    /// markdown, then, where there is a release history, artifacts, changelog
    /// and funding as far as each is enabled, and the root page last. The
    /// root page shows the artifacts, and the installers of the latest
    /// release are shown inline and summarized, exactly where there is a
    /// history, the artifacts component is enabled and a release qualifies
    /// as the latest. After an unreachable source neither artifacts nor
    /// changelog pages are planned, and the root page is plain.
    pub fn build_single(config: &Config, context: Option<&Context>) -> (plan: SitePlan)
        ensures
            plan.pages@ == site_jobs(
                config.components,
                markdown_sources(page_sources(config.build.additional_pages)).len(),
                history_of(context),
                failed_of(context),
            ),
            plan.inline_latest == shows_artifacts(
                config.components,
                history_of(context),
                failed_of(context),
            ),
            plan.artifacts_json == plan.inline_latest,
    {
        let additional = Self::build_additional_pages(&config.build.additional_pages);
        let count = additional.render.len();
        assert(count == markdown_sources(page_sources(config.build.additional_pages)).len()) by {
            assert(string_texts(additional.render@).len() == additional.render@.len());
        }
        let mut pages: Vec<PageJob> = Vec::new();
        let mut i: usize = 0;
        while i < count
            invariant
                i <= count,
                pages@ == additional_jobs(i as nat),
            decreases count - i,
        {
            pages.push(PageJob::Additional(i));
            assert(pages@ =~= additional_jobs((i + 1) as nat));
            i += 1;
        }
        let mut with_artifacts = false;
        match context {
            Some(context) => {
                with_artifacts = !context.source_failed && config.components.artifacts_enabled()
                    && context.latest_index().is_some();
                let mut components = Self::build_component_pages(context, config);
                pages.append(&mut components);
            },
            None => {},
        }
        pages.push(PageJob::Index { with_artifacts });
        assert(pages@ =~= site_jobs(
            config.components,
            count as nat,
            history_of(context),
            failed_of(context),
        ));
        SitePlan { inline_latest: with_artifacts, artifacts_json: with_artifacts, pages }
    }

    /// Where the page named `filename` is written below `dist`.
    pub fn destination(dist: &str, filename: &str) -> (out: String)
        ensures
            out@ == destination_of(dist@, filename@),
    {
        let ext = extension(filename);
        let pretty = match &ext {
            Some(e) => wants_pretty_link(ends_with(filename, "index.html"), Some(e.as_str())),
            None => wants_pretty_link(ends_with(filename, "index.html"), None),
        };
        let segments = destination_segments(pretty, file_stem(filename), parent(filename), filename);
        adjoin(dist, &segments)
    }

    /// The configuration that a write goes by: the one handed in, else the
    /// one of the workspace member that the site was built for.
    pub open spec fn write_config(&self, config: Option<&Config>) -> Option<Config> {
        match config {
            Some(config) => Some(*config),
            None => match self.workspace_data {
                Some(member) => Some(member.config),
                None => None,
            },
        }
    }

    /// Plans writing the site to disk.
    ///
    /// Each page goes to its destination below the output directory of the
    /// configuration that the write goes by, in page order; the placements
    /// follow. There must be a configuration to go by: one is handed in, or
    /// the site was built for a workspace member.
    pub fn write(&self, config: Option<&Config>) -> (plan: WritePlan)
        requires
            self.write_config(config) is Some,
        ensures
            plan.destinations@.len() == self.pages@.len(),
            forall|i: int|
                0 <= i < self.pages@.len() ==> (#[trigger] plan.destinations@[i])@
                    == destination_of(
                    self.write_config(config)->0.build.dist_dir@,
                    self.pages@[i].filename@,
                ),
            plan.after@ == placements(self.write_config(config)->0),
    {
        let effective: &Config = match config {
            Some(config) => config,
            None => match &self.workspace_data {
                Some(member) => &member.config,
                None => unreached(),
            },
        };
        let mut destinations: Vec<String> = Vec::new();
        let mut i: usize = 0;
        while i < self.pages.len()
            invariant
                i <= self.pages.len(),
                destinations@.len() == i,
                forall|j: int|
                    0 <= j < i ==> (#[trigger] destinations@[j])@ == destination_of(
                        effective.build.dist_dir@,
                        self.pages@[j].filename@,
                    ),
            decreases self.pages.len() - i,
        {
            let to = Self::destination(
                effective.build.dist_dir.as_str(),
                self.pages[i].filename.as_str(),
            );
            destinations.push(to);
            i += 1;
        }
        let mut after: Vec<Placement> = Vec::new();
        if effective.components.mdbook {
            after.push(Placement::Book);
        }
        if effective.styles.favicon.is_some() {
            after.push(Placement::Favicon);
        }
        after.push(Placement::StaticFiles);
        after.push(Placement::OsScript);
        if effective.styles.additional_css.len() > 0 {
            after.push(Placement::AdditionalCss);
        }
        assert(after@ =~= placements(*effective));
        WritePlan { destinations, after }
    }

    /// Plans a build that only writes the artifacts summary: no page is
    /// rendered, and the summary is written, with the installers of the
    /// latest release shown inline, under the same condition as in
    /// [`Self::build_single`].
    pub fn build_single_json_only(config: &Config, context: Option<&Context>) -> (plan: SitePlan)
        ensures
            plan.pages@ == Seq::<PageJob>::empty(),
            plan.inline_latest == shows_artifacts(
                config.components,
                history_of(context),
                failed_of(context),
            ),
            plan.artifacts_json == plan.inline_latest,
    {
        let with_artifacts = match context {
            Some(context) => !context.source_failed && config.components.artifacts_enabled()
                && context.latest_index().is_some(),
            None => false,
        };
        SitePlan { inline_latest: with_artifacts, artifacts_json: with_artifacts, pages: Vec::new() }
    }
}


/// Where a page stands in the emission order: additional pages first, then
/// artifacts, changelog and funding, and the root page last.
pub open spec fn emission_rank(job: PageJob) -> int {
    match job {
        PageJob::Additional(_) => 0,
        PageJob::Artifacts => 1,
        PageJob::ChangelogIndex => 2,
        PageJob::ChangelogFeed => 2,
        PageJob::ChangelogRelease(_) => 2,
        PageJob::Funding => 3,
        PageJob::Index { .. } => 4,
    }
}

/// Whether a page shows release data: the artifacts page and the pages of
/// the changelog.
pub open spec fn is_release_page(job: PageJob) -> bool {
    emission_rank(job) == 1 || emission_rank(job) == 2
}

/// Every site has exactly one root page, and it is the last page: whatever
/// is configured and whatever the history holds, the plan ends in the root
/// page and holds no other.
pub proof fn law_one_root_page(
    c: ComponentConfig,
    additional: nat,
    history: Option<Seq<ReleaseView>>,
    source_failed: bool,
)
    ensures
        ({
            let jobs = site_jobs(c, additional, history, source_failed);
            &&& jobs.len() >= 1
            &&& jobs.last() is Index
            &&& forall|i: int| 0 <= i < jobs.len() - 1 ==> !(#[trigger] jobs[i] is Index)
        }),
{
}

/// Pages are emitted in a fixed order that depends on nothing but the
/// configuration and the history: additional pages, artifacts, changelog,
/// funding, root page.
pub proof fn law_emission_order(
    c: ComponentConfig,
    additional: nat,
    history: Option<Seq<ReleaseView>>,
    source_failed: bool,
    i: int,
    j: int,
)
    requires
        0 <= i <= j < site_jobs(c, additional, history, source_failed).len(),
    ensures
        emission_rank(site_jobs(c, additional, history, source_failed)[i]) <= emission_rank(
            site_jobs(c, additional, history, source_failed)[j],
        ),
{
}

/// Without a history nothing but additional pages and the root page is
/// emitted, and the root page is plain.
pub proof fn law_no_history_no_components(c: ComponentConfig, additional: nat, source_failed: bool)
    ensures
        site_jobs(c, additional, None, source_failed) == additional_jobs(additional) + seq![
            PageJob::Index { with_artifacts: false },
        ],
{
}

/// After an unreachable source the site is still planned, and no page that
/// shows release data is in it: the plan holds no artifacts page and no
/// changelog page, whatever is configured, and ends in a plain root page.
pub proof fn law_failed_source_emits_no_release_pages(
    c: ComponentConfig,
    additional: nat,
    history: Option<Seq<ReleaseView>>,
)
    ensures
        ({
            let jobs = site_jobs(c, additional, history, true);
            &&& jobs.len() >= 1
            &&& jobs.last() == PageJob::Index { with_artifacts: false }
            &&& forall|i: int| 0 <= i < jobs.len() ==> !is_release_page(#[trigger] jobs[i])
        }),
{
}

/// A history that is the placeholder alone gets no page of its own in the
/// changelog: no release page is emitted for it.
pub proof fn law_placeholder_has_no_release_pages(
    c: ComponentConfig,
    additional: nat,
    history: Seq<ReleaseView>,
    source_failed: bool,
)
    requires
        is_placeholder_only(history),
    ensures
        forall|i: int|
            0 <= i < site_jobs(c, additional, Some(history), source_failed).len() ==> !(
            #[trigger] site_jobs(c, additional, Some(history), source_failed)[i] is ChangelogRelease),
{
}

/// Every page of a plan that this crate names has a name: all but the
/// additional pages, which are named by whoever renders them.
pub proof fn law_planned_pages_are_named(
    c: ComponentConfig,
    additional: nat,
    history: Option<Seq<ReleaseView>>,
    source_failed: bool,
    i: int,
)
    requires
        0 <= i < site_jobs(c, additional, history, source_failed).len(),
    ensures
        ({
            let job = site_jobs(c, additional, history, source_failed)[i];
            let releases = match history {
                Some(releases) => releases,
                None => Seq::empty(),
            };
            !(job is Additional) ==> filename_of(job, releases) is Some
        }),
{
}

} // verus!
