//! The aggregated, ordered release history of one project build.

use crate::config::ReleasesSource;
use crate::errors::OrandaError;
use crate::json::json_document;
use crate::manifest::{
    manifest_warning, outcome_of, parse_manifest, warns_of, ManifestOutcome, OutcomeView,
};
use crate::release::{release_views, Release, ReleaseSource, ReleaseView};
use crate::text::{clone_text, opt_text, same_text};
use vstd::prelude::*;

verus! {

/// The release history of a project, newest first.
#[derive(Clone, Debug, PartialEq, Eq)]
pub struct Context {
    pub releases: Vec<Release>,
    /// The release source was asked and could not be reached, so that the
    /// history stands in for one that is not known.
    pub source_failed: bool,
}

impl View for Context {
    type V = Seq<ReleaseView>;

    open spec fn view(&self) -> Seq<ReleaseView> {
        release_views(self.releases@)
    }
}

/// One release as its source reports it, before its manifest is read.
#[derive(Clone, Debug, PartialEq, Eq)]
pub struct RawRelease {
    /// Version tag.
    pub tag: String,
    /// Publish date as the source reported it.
    pub published: Option<String>,
    /// Release notes that the source holds beside the manifest.
    pub notes: Option<String>,
    /// The manifest payload.
    pub manifest: String,
}

/// Mathematical model of a [`RawRelease`].
pub struct RawView {
    pub tag: Seq<char>,
    pub published: Option<Seq<char>>,
    pub notes: Option<Seq<char>>,
    pub manifest: Seq<char>,
}

impl View for RawRelease {
    type V = RawView;

    open spec fn view(&self) -> RawView {
        RawView {
            tag: self.tag@,
            published: opt_text(self.published),
            notes: opt_text(self.notes),
            manifest: self.manifest@,
        }
    }
}

/// The models of a run of raw releases.
pub open spec fn raw_views(raws: Seq<RawRelease>) -> Seq<RawView> {
    Seq::new(raws.len(), |i: int| raws[i]@)
}

/// One release as the hosting platform lists it.
#[derive(Clone, Debug, PartialEq, Eq)]
pub struct ListedRelease {
    pub tag: String,
    /// Publish date as the platform reports it.
    pub published: Option<String>,
    /// Release notes.
    pub notes: Option<String>,
    /// The names of the files attached to the release.
    pub assets: Vec<String>,
}

/// One manifest that was asked for: the position in the listing of the
/// release that it belongs to, and the payload, or the reason why none came.
#[derive(Debug, PartialEq, Eq)]
pub struct Download {
    pub position: usize,
    pub payload: Result<String, String>,
}

/// The download brought the manifest of a listed release.
pub open spec fn arrived(listing: Seq<ListedRelease>, download: Download) -> bool {
    download.position < listing.len() && download.payload is Ok
}

/// The raw release that a download that arrived makes: what the listing
/// says of the release, with the payload as its manifest.
pub open spec fn raw_of(listing: Seq<ListedRelease>, download: Download) -> RawView {
    RawView {
        tag: listing[download.position as int].tag@,
        published: opt_text(listing[download.position as int].published),
        notes: opt_text(listing[download.position as int].notes),
        manifest: download.payload->Ok_0@,
    }
}

/// Why a download did not arrive: the reason that came in place of the
/// payload, or that its release is not listed.
pub open spec fn failure_of(download: Download) -> Seq<char> {
    match download.payload {
        Err(reason) => reason@,
        Ok(_) => "the release is not in the listing"@,
    }
}

/// `k` is the first download that did not arrive.
pub open spec fn first_failure(listing: Seq<ListedRelease>, downloads: Seq<Download>, k: int) -> bool {
    &&& 0 <= k < downloads.len()
    &&& !arrived(listing, downloads[k])
    &&& forall|j: int| 0 <= j < k ==> arrived(listing, #[trigger] downloads[j])
}

/// Whether a file named `asset` is attached to the release.
pub open spec fn holds_asset(release: ListedRelease, asset: Seq<char>) -> bool {
    exists|k: int| 0 <= k < release.assets@.len() && (#[trigger] release.assets@[k])@ == asset
}

/// `positions` are exactly the positions of the releases of `listing` that
/// hold `asset`, in listing order.
pub open spec fn selects_holders(
    positions: Seq<usize>,
    listing: Seq<ListedRelease>,
    asset: Seq<char>,
) -> bool {
    &&& forall|a: int, b: int| 0 <= a < b < positions.len() ==> positions[a] < positions[b]
    &&& forall|a: int|
        0 <= a < positions.len() ==> (#[trigger] positions[a]) < listing.len() && holds_asset(
            listing[positions[a] as int],
            asset,
        )
    &&& forall|i: int|
        0 <= i < listing.len() && holds_asset(#[trigger] listing[i], asset) ==> exists|a: int|
            0 <= a < positions.len() && #[trigger] positions[a] == i
}

/// What asking a release source gave.
#[derive(Clone, Debug, PartialEq, Eq)]
pub enum FetchOutcome {
    /// No source was asked.
    NotAsked,
    /// The source answered with these releases, newest first.
    Fetched(Vec<RawRelease>),
    /// The source could not be reached, for this reason.
    Unreachable(String),
}

/// A release history, or none, together with what went wrong on the way.
#[derive(Debug, PartialEq, Eq)]
pub struct ContextBuild {
    /// The history; none where the build goes on without one.
    pub context: Option<Context>,
    /// Errors that were survived, in the order in which they came up.
    pub reports: Vec<OrandaError>,
}

/// A release history together with what went wrong while it was put together.
#[derive(Debug, PartialEq, Eq)]
pub struct Aggregate {
    pub context: Context,
    /// Errors that were survived, in the order in which they came up.
    pub reports: Vec<OrandaError>,
}

/// The release source that a configured selection stands for.
pub open spec fn source_of(selected: ReleasesSource) -> ReleaseSource {
    match selected {
        ReleasesSource::GitHub => ReleaseSource::GitHub,
        ReleasesSource::Axodotdev => ReleaseSource::FirstPartyHosted,
    }
}

/// The release made of a raw release and what reading its manifest gave.
/// The changelog is the manifest's, else the release notes.
pub open spec fn release_from(source: ReleaseSource, raw: RawView, outcome: OutcomeView) -> ReleaseView {
    ReleaseView {
        tag: raw.tag,
        published: raw.published,
        source,
        schema_version: outcome.schema_version,
        artifacts: outcome.artifacts,
        changelog: match outcome.changelog {
            Some(changelog) => Some(changelog),
            None => raw.notes,
        },
        status: outcome.status,
    }
}

/// The release that a raw release becomes once its manifest is read.
pub open spec fn release_of(source: ReleaseSource, raw: RawView) -> ReleaseView {
    release_from(source, raw, outcome_of(json_document(raw.manifest)))
}

/// The releases that raw releases become, each at the position of its raw
/// release.
pub open spec fn releases_of(source: ReleaseSource, raws: Seq<RawView>) -> Seq<ReleaseView> {
    Seq::new(raws.len(), |i: int| release_of(source, raws[i]))
}

/// The releases whose manifest was not read in full, in history order.
pub open spec fn flawed(releases: Seq<ReleaseView>) -> Seq<ReleaseView> {
    releases.filter(|r: ReleaseView| !(r.status is Full))
}

/// `reports` holds exactly one warning per flawed release, in history order,
/// each naming the tag of its release.
pub open spec fn reports_flawed(reports: Seq<OrandaError>, releases: Seq<ReleaseView>) -> bool {
    &&& reports.len() == flawed(releases).len()
    &&& forall|k: int|
        0 <= k < reports.len() ==> warns_of(
            #[trigger] reports[k],
            flawed(releases)[k].tag,
            flawed(releases)[k].status,
            flawed(releases)[k].schema_version,
        )
}

/// History and placeholder exclude each other: a placeholder release is the
/// only release of its history.
pub open spec fn placeholder_is_alone(releases: Seq<ReleaseView>) -> bool {
    forall|i: int|
        0 <= i < releases.len() && (#[trigger] releases[i]).source.spec_is_current_state()
            ==> releases.len() == 1
}

/// Every release of the history is well formed.
pub open spec fn releases_wf(releases: Seq<ReleaseView>) -> bool {
    forall|i: int| 0 <= i < releases.len() ==> (#[trigger] releases[i]).wf()
}

/// The history consists of the placeholder alone.
pub open spec fn is_placeholder_only(releases: Seq<ReleaseView>) -> bool {
    releases.len() == 1 && releases[0].source.spec_is_current_state()
}

/// `i` is the position of the latest release: the first one that qualifies.
pub open spec fn is_latest(releases: Seq<ReleaseView>, i: int) -> bool {
    &&& 0 <= i < releases.len()
    &&& releases[i].qualifies()
    &&& forall|j: int| 0 <= j < i ==> !(#[trigger] releases[j]).qualifies()
}

/// Some release of the history qualifies as the latest.
pub open spec fn has_latest(releases: Seq<ReleaseView>) -> bool {
    exists|i: int| 0 <= i < releases.len() && (#[trigger] releases[i]).qualifies()
}

impl ListedRelease {
    /// Whether a file named `asset` is attached to the release.
    pub fn has_asset(&self, asset: &str) -> (held: bool)
        ensures
            held == holds_asset(*self, asset@),
    {
        let mut k: usize = 0;
        while k < self.assets.len()
            invariant
                k <= self.assets.len(),
                forall|j: int| 0 <= j < k ==> (#[trigger] self.assets@[j])@ != asset@,
            decreases self.assets.len() - k,
        {
            if same_text(self.assets[k].as_str(), asset) {
                return true;
            }
            k += 1;
        }
        false
    }
}

/// Picks the releases of a listing that publish a manifest: the positions,
/// in listing order, of the releases that hold a file named `asset`. Only
/// their manifests are downloaded.
pub fn releases_with_asset(listing: &Vec<ListedRelease>, asset: &str) -> (positions: Vec<usize>)
    ensures
        selects_holders(positions@, listing@, asset@),
{
    let mut positions: Vec<usize> = Vec::new();
    let mut i: usize = 0;
    while i < listing.len()
        invariant
            i <= listing.len(),
            selects_holders(positions@, listing@.take(i as int), asset@),
            forall|a: int| 0 <= a < positions@.len() ==> (#[trigger] positions@[a]) < i,
        decreases listing.len() - i,
    {
        let ghost before = positions@;
        let held = listing[i].has_asset(asset);
        if held {
            positions.push(i);
        }
        proof {
            let seen = listing@.take(i as int);
            let next = listing@.take(i + 1);
            assert forall|a: int| 0 <= a < positions@.len() implies (#[trigger] positions@[a])
                < next.len() && holds_asset(next[positions@[a] as int], asset@) by {
                if a < before.len() {
                    assert(positions@[a] == before[a]);
                    assert(next[before[a] as int] == seen[before[a] as int]);
                }
            }
            assert forall|j: int|
                0 <= j < next.len() && holds_asset(#[trigger] next[j], asset@) implies exists|a: int|
                0 <= a < positions@.len() && #[trigger] positions@[a] == j by {
                if j < i {
                    assert(seen[j] == next[j]);
                    let a = choose|a: int| 0 <= a < before.len() && #[trigger] before[a] == j;
                    assert(positions@[a] == j);
                } else {
                    assert(positions@[before.len() as int] == j);
                }
            }
            assert forall|a: int, b: int| 0 <= a < b < positions@.len() implies positions@[a]
                < positions@[b] by {
                if b < before.len() {
                    assert(before[a] < before[b]);
                } else {
                    assert(positions@[a] == before[a]);
                }
            }
        }
        i += 1;
    }
    assert(listing@.take(listing@.len() as int) =~= listing@);
    positions
}

impl Release {
    /// The release made of a raw release and what reading its manifest gave.
    pub fn from_manifest(raw: &RawRelease, source: ReleaseSource, outcome: ManifestOutcome) -> (r:
        Release)
        ensures
            r@ == release_from(source, raw@, outcome@),
    {
        let changelog = match outcome.changelog {
            Some(changelog) => Some(changelog),
            None => clone_text(&raw.notes),
        };
        Release {
            tag: raw.tag.clone(),
            published: clone_text(&raw.published),
            source,
            schema_version: outcome.schema_version,
            artifacts: outcome.artifacts,
            changelog,
            status: outcome.status,
        }
    }
}

/// Puts the answer of a release source together from its listing and the
/// manifests that were asked for.
///
/// Where every download arrived, the answer holds one raw release per
/// download, in the order of the downloads. Where one did not, the source
/// counts as unreachable, for the reason of the first that did not.
pub fn collect_downloads(listing: &Vec<ListedRelease>, downloads: &Vec<Download>) -> (out:
    FetchOutcome)
    ensures
        match out {
            FetchOutcome::Fetched(raws) => (forall|k: int|
                0 <= k < downloads@.len() ==> arrived(listing@, #[trigger] downloads@[k]))
                && raw_views(raws@) == Seq::new(
                downloads@.len(),
                |k: int| raw_of(listing@, downloads@[k]),
            ),
            FetchOutcome::Unreachable(reason) => exists|k: int|
                first_failure(listing@, downloads@, k) && reason@ == failure_of(
                    #[trigger] downloads@[k],
                ),
            FetchOutcome::NotAsked => false,
        },
{
    let mut raws: Vec<RawRelease> = Vec::new();
    let mut k: usize = 0;
    while k < downloads.len()
        invariant
            k <= downloads.len(),
            raws@.len() == k,
            forall|j: int| 0 <= j < k ==> arrived(listing@, #[trigger] downloads@[j]),
            forall|j: int| 0 <= j < k ==> (#[trigger] raws@[j])@ == raw_of(listing@, downloads@[j]),
        decreases downloads.len() - k,
    {
        let download = &downloads[k];
        if download.position >= listing.len() {
            let reason = match &download.payload {
                Err(reason) => reason.clone(),
                Ok(_) => "the release is not in the listing".to_owned(),
            };
            assert(first_failure(listing@, downloads@, k as int));
            return FetchOutcome::Unreachable(reason);
        }
        match &download.payload {
            Err(reason) => {
                assert(first_failure(listing@, downloads@, k as int));
                return FetchOutcome::Unreachable(reason.clone());
            },
            Ok(payload) => {
                let listed = &listing[download.position];
                raws.push(
                    RawRelease {
                        tag: listed.tag.clone(),
                        published: clone_text(&listed.published),
                        notes: clone_text(&listed.notes),
                        manifest: payload.clone(),
                    },
                );
            },
        }
        k += 1;
    }
    assert(raw_views(raws@) =~= Seq::new(
        downloads@.len(),
        |k: int| raw_of(listing@, downloads@[k]),
    ));
    FetchOutcome::Fetched(raws)
}

impl Context {
    /// Validity of a history: every release is well formed, a placeholder
    /// is alone, and a history that stands in for an unreachable source is
    /// the placeholder alone.
    pub open spec fn wf(&self) -> bool {
        &&& releases_wf(self@)
        &&& placeholder_is_alone(self@)
        &&& self.source_failed ==> is_placeholder_only(self@)
    }

    /// The history of a project without releases: the placeholder alone.
    pub fn new_current(tag: &str) -> (ctx: Context)
        ensures
            ctx@ == seq![ReleaseView::current(tag@)],
            !ctx.source_failed,
            ctx.wf(),
            is_latest(ctx@, 0),
    {
        let mut releases: Vec<Release> = Vec::new();
        releases.push(Release::current(tag));
        let ctx = Context { releases, source_failed: false };
        assert(ctx@ =~= seq![ReleaseView::current(tag@)]);
        ctx
    }

    /// The history that stands in where the release source could not be
    /// reached: the placeholder alone, marked as standing in.
    pub fn after_failed_source(tag: &str) -> (ctx: Context)
        ensures
            ctx@ == seq![ReleaseView::current(tag@)],
            ctx.source_failed,
            ctx.wf(),
    {
        let mut releases: Vec<Release> = Vec::new();
        releases.push(Release::current(tag));
        let ctx = Context { releases, source_failed: true };
        assert(ctx@ =~= seq![ReleaseView::current(tag@)]);
        ctx
    }

    /// The history that a source's answer amounts to.
    ///
    /// Every raw release becomes one release at the same position, whatever
    /// reading its manifest gave, and every manifest that was not read in
    /// full is reported once, under its tag. An empty answer gives the
    /// placeholder under `current_tag`.
    pub fn from_releases(current_tag: &str, selected: ReleasesSource, raws: &Vec<RawRelease>) -> (out:
        Aggregate)
        ensures
            out.context@ == (if raws@.len() == 0 {
                seq![ReleaseView::current(current_tag@)]
            } else {
                releases_of(source_of(selected), raw_views(raws@))
            }),
            !out.context.source_failed,
            out.context.wf(),
            reports_flawed(out.reports@, out.context@),
            forall|k: int| 0 <= k < out.reports@.len() ==> (#[trigger] out.reports@[k]).is_warning(),
    {
        if raws.len() == 0 {
            let context = Context::new_current(current_tag);
            proof {
                reveal(Seq::filter);
                let only = context@;
                assert(only.drop_last() =~= Seq::<ReleaseView>::empty());
                assert(flawed(only.drop_last()) =~= Seq::<ReleaseView>::empty());
                assert(flawed(only) =~= Seq::<ReleaseView>::empty());
            }
            return Aggregate { context, reports: Vec::new() };
        }
        let source = match selected {
            ReleasesSource::GitHub => ReleaseSource::GitHub,
            ReleasesSource::Axodotdev => ReleaseSource::FirstPartyHosted,
        };
        let mut releases: Vec<Release> = Vec::new();
        let mut reports: Vec<OrandaError> = Vec::new();
        let mut i: usize = 0;
        proof {
            reveal(Seq::filter);
            assert(flawed(release_views(releases@)) =~= Seq::<ReleaseView>::empty());
        }
        while i < raws.len()
            invariant
                i <= raws.len(),
                source == source_of(selected),
                releases@.len() == i,
                forall|j: int|
                    0 <= j < i ==> (#[trigger] releases@[j])@ == release_of(source, raws@[j]@),
                reports_flawed(reports@, release_views(releases@)),
                forall|k: int| 0 <= k < reports@.len() ==> (#[trigger] reports@[k]).is_warning(),
            decreases raws.len() - i,
        {
            let raw = &raws[i];
            let outcome = parse_manifest(raw.manifest.as_str());
            let warning = manifest_warning(raw.tag.as_str(), &outcome);
            let release = Release::from_manifest(raw, source, outcome);
            let ghost before = release_views(releases@);
            let ghost told = reports@;
            releases.push(release);
            proof {
                reveal(Seq::filter);
                let after = release_views(releases@);
                assert(after.drop_last() =~= before);
                assert(after.last() == release@);
            }
            match warning {
                Some(w) => {
                    reports.push(w);
                    proof {
                        let after = release_views(releases@);
                        assert(flawed(after) == flawed(before).push(release@));
                        assert forall|k: int| 0 <= k < reports@.len() implies warns_of(
                            #[trigger] reports@[k],
                            flawed(after)[k].tag,
                            flawed(after)[k].status,
                            flawed(after)[k].schema_version,
                        ) by {
                            if k < told.len() {
                                assert(reports@[k] == told[k]);
                            }
                        }
                    }
                },
                None => {
                    proof {
                        let after = release_views(releases@);
                        assert(flawed(after) == flawed(before));
                    }
                },
            }
            i += 1;
        }
        let context = Context { releases, source_failed: false };
        proof {
            assert(context@ =~= releases_of(source_of(selected), raw_views(raws@)));
            assert forall|j: int| 0 <= j < context@.len() implies (#[trigger] context@[j]).wf() by {}
        }
        Aggregate { context, reports }
    }

    /// Position of the latest release: the first release whose manifest was
    /// read, or `None` where there is no such release.
    pub fn latest_index(&self) -> (r: Option<usize>)
        ensures
            match r {
                Some(i) => is_latest(self@, i as int),
                None => !has_latest(self@),
            },
    {
        let mut i: usize = 0;
        while i < self.releases.len()
            invariant
                i <= self.releases.len(),
                forall|j: int| 0 <= j < i ==> !(#[trigger] self@[j]).qualifies(),
            decreases self.releases.len() - i,
        {
            if self.releases[i].qualifies() {
                return Some(i);
            }
            i += 1;
        }
        None
    }

    /// Marks the scripts of the latest release as viewable. Every other
    /// release stays as it is, and so does a history without a latest
    /// release.
    pub fn make_latest_viewable(&mut self)
        ensures
            final(self)@.len() == old(self)@.len(),
            has_latest(old(self)@) ==> exists|i: int|
                is_latest(old(self)@, i) && final(self)@ == old(self)@.update(
                    i,
                    #[trigger] old(self)@[i].with_scripts_shown(),
                ),
            !has_latest(old(self)@) ==> final(self)@ == old(self)@,
            final(self).source_failed == old(self).source_failed,
            old(self).wf() ==> final(self).wf(),
    {
        match self.latest_index() {
            Some(i) => {
                let mut latest = self.releases.remove(i);
                latest.make_scripts_viewable();
                self.releases.insert(i, latest);
                proof {
                    assert(self@ =~= old(self)@.update(i as int, old(self)@[i as int].with_scripts_shown()));
                    assert(is_latest(old(self)@, i as int));
                    if old(self).wf() {
                        assert forall|j: int| 0 <= j < self@.len() implies (#[trigger] self@[j]).wf() by {
                            if j != i {
                                assert(self@[j] == old(self)@[j]);
                            } else {
                                assert(old(self)@[j].wf());
                            }
                        }
                        assert forall|j: int|
                            0 <= j < self@.len() && (#[trigger] self@[j]).source.spec_is_current_state()
                            implies self@.len() == 1 by {
                            assert(old(self)@[j].source == self@[j].source);
                        }
                    }
                }
            },
            None => {},
        }
    }

    /// The latest release, or `None` where no release qualifies.
    pub fn latest(&self) -> (r: Option<&Release>)
        ensures
            match r {
                Some(release) => exists|i: int|
                    is_latest(self@, i) && *release == #[trigger] self.releases@[i],
                None => !has_latest(self@),
            },
    {
        match self.latest_index() {
            Some(i) => Some(&self.releases[i]),
            None => None,
        }
    }
}


/// The history of a project without releases holds exactly one release: the
/// placeholder, which comes from the working tree, has no artifacts, and is
/// the latest release.
pub proof fn law_placeholder_history(tag: Seq<char>)
    ensures
        ({
            let history = seq![ReleaseView::current(tag)];
            &&& history.len() == 1
            &&& history[0].source == ReleaseSource::CurrentWorkingTree
            &&& history[0].artifacts.len() == 0
            &&& is_latest(history, 0)
            &&& is_placeholder_only(history)
            &&& releases_wf(history)
            &&& placeholder_is_alone(history)
        }),
{
}

/// The latest release is unique: two positions that are both the latest are
/// the same position.
pub proof fn law_latest_is_unique(releases: Seq<ReleaseView>, i: int, j: int)
    requires
        is_latest(releases, i),
        is_latest(releases, j),
    ensures
        i == j,
{
    if i < j {
        assert(!releases[i].qualifies());
    } else if j < i {
        assert(!releases[j].qualifies());
    }
}

/// A history has a latest release exactly if it holds a release whose
/// manifest was read, and an empty history has none.
pub proof fn law_latest_exists(releases: Seq<ReleaseView>)
    ensures
        has_latest(releases) <==> exists|i: int| is_latest(releases, i),
        releases.len() == 0 ==> !has_latest(releases),
    decreases releases.len(),
{
    if has_latest(releases) {
        let k = choose|k: int| 0 <= k < releases.len() && (#[trigger] releases[k]).qualifies();
        lemma_first_qualifying(releases, k);
    }
    if exists|i: int| is_latest(releases, i) {
        let i = choose|i: int| is_latest(releases, i);
        assert(releases[i].qualifies());
    }
}

/// Below any release that qualifies there is a first one.
proof fn lemma_first_qualifying(releases: Seq<ReleaseView>, k: int)
    requires
        0 <= k < releases.len(),
        releases[k].qualifies(),
    ensures
        exists|i: int| is_latest(releases, i),
    decreases k,
{
    if exists|j: int| 0 <= j < k && (#[trigger] releases[j]).qualifies() {
        let j = choose|j: int| 0 <= j < k && (#[trigger] releases[j]).qualifies();
        lemma_first_qualifying(releases, j);
    } else {
        assert(is_latest(releases, k));
    }
}

/// The history keeps the order of the source: the release at each position
/// carries the tag, the date and the source of the raw release at that
/// position, whatever reading any manifest gave.
pub proof fn law_order_is_kept(source: ReleaseSource, raws: Seq<RawView>)
    ensures
        releases_of(source, raws).len() == raws.len(),
        forall|i: int|
            0 <= i < raws.len() ==> {
                &&& (#[trigger] releases_of(source, raws)[i]).tag == raws[i].tag
                &&& releases_of(source, raws)[i].published == raws[i].published
                &&& releases_of(source, raws)[i].source == source
            },
{
}

/// A history whose every manifest was read in full has no flawed release,
/// and is put together without a report.
pub proof fn law_no_flaw_no_report(reports: Seq<OrandaError>, releases: Seq<ReleaseView>)
    requires
        reports_flawed(reports, releases),
        forall|j: int| 0 <= j < releases.len() ==> (#[trigger] releases[j]).status is Full,
    ensures
        reports.len() == 0,
{
    lemma_no_flaw(releases);
}

/// One flawed manifest gives exactly one report: where the manifest at
/// position `i` is the only one that was not read in full, there is exactly
/// one report, and it is the warning for that release, naming its tag.
pub proof fn law_one_flaw_one_report(
    reports: Seq<OrandaError>,
    releases: Seq<ReleaseView>,
    i: int,
)
    requires
        reports_flawed(reports, releases),
        0 <= i < releases.len(),
        !(releases[i].status is Full),
        forall|j: int| 0 <= j < releases.len() && j != i ==> (#[trigger] releases[j]).status is Full,
    ensures
        reports.len() == 1,
        warns_of(reports[0], releases[i].tag, releases[i].status, releases[i].schema_version),
{
    lemma_single_flaw(releases, i);
}

/// The flawed releases of a history with one flaw are that one release.
proof fn lemma_single_flaw(releases: Seq<ReleaseView>, i: int)
    requires
        0 <= i < releases.len(),
        !(releases[i].status is Full),
        forall|j: int| 0 <= j < releases.len() && j != i ==> (#[trigger] releases[j]).status is Full,
    ensures
        flawed(releases) == seq![releases[i]],
    decreases releases.len(),
{
    reveal(Seq::filter);
    let rest = releases.drop_last();
    if i == releases.len() - 1 {
        assert forall|j: int| 0 <= j < rest.len() implies (#[trigger] rest[j]).status is Full by {
            assert(rest[j] == releases[j]);
        }
        lemma_no_flaw(rest);
        assert(flawed(releases) =~= seq![releases[i]]);
    } else {
        assert(rest[i] == releases[i]);
        assert forall|j: int| 0 <= j < rest.len() && j != i implies (#[trigger] rest[j]).status
            is Full by {
            assert(rest[j] == releases[j]);
        }
        lemma_single_flaw(rest, i);
        assert(releases.last().status is Full);
        assert(flawed(releases) =~= seq![releases[i]]);
    }
}

/// A history without a flaw has no flawed release.
proof fn lemma_no_flaw(releases: Seq<ReleaseView>)
    requires
        forall|j: int| 0 <= j < releases.len() ==> (#[trigger] releases[j]).status is Full,
    ensures
        flawed(releases) == Seq::<ReleaseView>::empty(),
    decreases releases.len(),
{
    reveal(Seq::filter);
    if releases.len() > 0 {
        let rest = releases.drop_last();
        assert forall|j: int| 0 <= j < rest.len() implies (#[trigger] rest[j]).status is Full by {
            assert(rest[j] == releases[j]);
        }
        lemma_no_flaw(rest);
        assert(releases.last().status is Full);
    }
    assert(flawed(releases) =~= Seq::<ReleaseView>::empty());
}

/// What one manifest reads as does not depend on its neighbours: the release
/// at a position is the same in every answer that holds the same raw release
/// at that position.
pub proof fn law_releases_are_independent(
    source: ReleaseSource,
    raws: Seq<RawView>,
    others: Seq<RawView>,
    i: int,
)
    requires
        0 <= i < raws.len(),
        0 <= i < others.len(),
        raws[i] == others[i],
    ensures
        releases_of(source, raws)[i] == releases_of(source, others)[i],
{
}

/// Every release made from a manifest is well formed: one whose manifest
/// was not read in full carries no artifacts.
pub proof fn law_flawed_release_has_no_artifacts(source: ReleaseSource, raw: RawView)
    ensures
        release_of(source, raw).wf(),
{
}

} // verus!
