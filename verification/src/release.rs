//! The release data model: one release, its artifacts, and how well its
//! manifest could be read.

use crate::text::opt_text;
use vstd::prelude::*;

verus! {

/// Where a release came from.
#[derive(Clone, Copy, Debug, PartialEq, Eq, Structural)]
pub enum ReleaseSource {
    /// Read from the hosting platform's release list.
    GitHub,
    /// Read from the dedicated release-hosting service.
    FirstPartyHosted,
    /// Synthesized from the project's present, unreleased state.
    CurrentWorkingTree,
}

impl ReleaseSource {
    pub open spec fn spec_is_current_state(&self) -> bool {
        *self == ReleaseSource::CurrentWorkingTree
    }

    /// Whether this is the synthetic placeholder rather than real history.
    #[verifier::when_used_as_spec(spec_is_current_state)]
    pub fn is_current_state(&self) -> (b: bool)
        ensures
            b == self.spec_is_current_state(),
    {
        match self {
            ReleaseSource::CurrentWorkingTree => true,
            _ => false,
        }
    }
}

/// What kind of file an artifact is.
#[derive(Clone, Copy, Debug, PartialEq, Eq, Structural)]
pub enum ArtifactKind {
    Installer,
    Archive,
    Script,
    Other,
}

/// One downloadable file of a release.
#[derive(Clone, Debug, PartialEq, Eq)]
pub struct Artifact {
    /// Target platform the file is built for.
    pub target: String,
    /// File name.
    pub name: String,
    /// Where the file is downloaded from.
    pub download: String,
    pub kind: ArtifactKind,
    /// Whether the page shows the file's content instead of only linking to it.
    pub viewable: bool,
}

/// Mathematical model of an [`Artifact`].
pub struct ArtifactView {
    pub target: Seq<char>,
    pub name: Seq<char>,
    pub download: Seq<char>,
    pub kind: ArtifactKind,
    pub viewable: bool,
}

impl View for Artifact {
    type V = ArtifactView;

    open spec fn view(&self) -> ArtifactView {
        ArtifactView {
            target: self.target@,
            name: self.name@,
            download: self.download@,
            kind: self.kind,
            viewable: self.viewable,
        }
    }
}

/// How well the manifest of a release could be read.
#[derive(Clone, Debug, PartialEq, Eq)]
pub enum ParseStatus {
    /// The manifest matched the supported schema and was read completely.
    Full,
    /// The manifest declared another schema; only its identity was read.
    Partial(String),
    /// The manifest could not be read at all.
    Unparseable(String),
}

/// Mathematical model of a [`ParseStatus`].
pub enum StatusView {
    Full,
    Partial(Seq<char>),
    Unparseable(Seq<char>),
}

impl View for ParseStatus {
    type V = StatusView;

    open spec fn view(&self) -> StatusView {
        match self {
            ParseStatus::Full => StatusView::Full,
            ParseStatus::Partial(reason) => StatusView::Partial(reason@),
            ParseStatus::Unparseable(reason) => StatusView::Unparseable(reason@),
        }
    }
}

/// One release of the project.
#[derive(Clone, Debug, PartialEq, Eq)]
pub struct Release {
    /// Version tag.
    pub tag: String,
    /// Publish date as the source reported it.
    pub published: Option<String>,
    pub source: ReleaseSource,
    /// Schema version that the manifest declared.
    pub schema_version: Option<String>,
    pub artifacts: Vec<Artifact>,
    /// Changelog body.
    pub changelog: Option<String>,
    pub status: ParseStatus,
}

/// Mathematical model of a [`Release`].
pub struct ReleaseView {
    pub tag: Seq<char>,
    pub published: Option<Seq<char>>,
    pub source: ReleaseSource,
    pub schema_version: Option<Seq<char>>,
    pub artifacts: Seq<ArtifactView>,
    pub changelog: Option<Seq<char>>,
    pub status: StatusView,
}

/// The models of a run of artifacts.
pub open spec fn artifact_views(artifacts: Seq<Artifact>) -> Seq<ArtifactView> {
    Seq::new(artifacts.len(), |i: int| artifacts[i]@)
}

/// The models of a run of releases.
pub open spec fn release_views(releases: Seq<Release>) -> Seq<ReleaseView> {
    Seq::new(releases.len(), |i: int| releases[i]@)
}

impl View for Release {
    type V = ReleaseView;

    open spec fn view(&self) -> ReleaseView {
        ReleaseView {
            tag: self.tag@,
            published: opt_text(self.published),
            source: self.source,
            schema_version: opt_text(self.schema_version),
            artifacts: artifact_views(self.artifacts@),
            changelog: opt_text(self.changelog),
            status: self.status@,
        }
    }
}

impl ReleaseView {
    /// A release whose manifest could not be read carries no artifacts, and
    /// neither does one that was read in part.
    pub open spec fn wf(self) -> bool {
        !(self.status is Full) ==> self.artifacts.len() == 0
    }

    /// Whether the release can be shown as the latest one.
    pub open spec fn qualifies(self) -> bool {
        !(self.status is Unparseable)
    }
}

impl Release {
    /// Whether the release can be shown as the latest one: its manifest was
    /// read, completely or in part.
    pub fn qualifies(&self) -> (b: bool)
        ensures
            b == self@.qualifies(),
    {
        match &self.status {
            ParseStatus::Unparseable(_) => false,
            _ => true,
        }
    }

    /// The placeholder for a project without release history: the present,
    /// unreleased state under the given tag, with no artifacts.
    pub fn current(tag: &str) -> (r: Release)
        ensures
            r@ == ReleaseView::current(tag@),
    {
        let r = Release {
            tag: tag.to_owned(),
            published: None,
            source: ReleaseSource::CurrentWorkingTree,
            schema_version: None,
            artifacts: Vec::new(),
            changelog: None,
            status: ParseStatus::Full,
        };
        assert(r@.artifacts =~= Seq::empty());
        r
    }
}

impl ArtifactView {
    /// The artifact with its content shown, if it is a script; unchanged
    /// otherwise.
    pub open spec fn shown(self) -> ArtifactView {
        if self.kind == ArtifactKind::Script {
            ArtifactView { viewable: true, ..self }
        } else {
            self
        }
    }
}

impl ReleaseView {
    /// The release with the content of its scripts shown.
    pub open spec fn with_scripts_shown(self) -> ReleaseView {
        ReleaseView {
            artifacts: Seq::new(self.artifacts.len(), |i: int| self.artifacts[i].shown()),
            ..self
        }
    }
}

impl Release {
    /// Marks the scripts among the artifacts as viewable, so that a page
    /// shows their content instead of only linking to them. Nothing else
    /// changes.
    pub fn make_scripts_viewable(&mut self)
        ensures
            final(self)@ == old(self)@.with_scripts_shown(),
    {
        let mut shown: Vec<Artifact> = Vec::new();
        let mut i: usize = 0;
        while i < self.artifacts.len()
            invariant
                i <= self.artifacts.len(),
                *self == *old(self),
                shown@.len() == i,
                forall|j: int| 0 <= j < i ==> (#[trigger] shown@[j])@ == self.artifacts@[j]@.shown(),
            decreases self.artifacts.len() - i,
        {
            let artifact = &self.artifacts[i];
            let viewable = match artifact.kind {
                ArtifactKind::Script => true,
                _ => artifact.viewable,
            };
            shown.push(
                Artifact {
                    target: artifact.target.clone(),
                    name: artifact.name.clone(),
                    download: artifact.download.clone(),
                    kind: artifact.kind,
                    viewable,
                },
            );
            i += 1;
        }
        self.artifacts = shown;
        assert(self@.artifacts =~= old(self)@.with_scripts_shown().artifacts);
    }
}

impl ReleaseView {
    /// Model of [`Release::current`].
    pub open spec fn current(tag: Seq<char>) -> ReleaseView {
        ReleaseView {
            tag,
            published: None,
            source: ReleaseSource::CurrentWorkingTree,
            schema_version: None,
            artifacts: Seq::empty(),
            changelog: None,
            status: StatusView::Full,
        }
    }
}

} // verus!
