//! Reading one release manifest.
//!
//! A manifest is a JSON object. Its member `schema_version` is a text and
//! declares the shape of the rest. Under the supported schema the member
//! `artifacts` is a list of objects, each with the texts `name`, `target`
//! and `kind` and optionally the text `download`, and the member `changelog`
//! is an optional text. Other members are passed over.

use crate::errors::OrandaError;
use crate::json::{decode_json, decoded_view, json_document, Json};
use crate::release::{
    artifact_views, Artifact, ArtifactKind, ArtifactView, ParseStatus, StatusView,
};
use crate::text::{opt_text, same_text};
use vstd::prelude::*;
use vstd::string::StringExecFns;

verus! {

/// The schema version that manifests are read under.
pub open spec fn supported_schema_text() -> Seq<char> {
    "1"@
}

/// Why a manifest of another schema is read only in part.
pub open spec fn mismatch_reason(declared: Seq<char>) -> Seq<char> {
    "the schema was version "@ + declared + ", while our parser is version "@
        + supported_schema_text()
}

/// Why a manifest without a declared schema cannot be read.
pub open spec fn no_schema_reason() -> Seq<char> {
    "the manifest declares no schema version"@
}

/// Why a manifest of the supported schema without a readable artifact list
/// cannot be read.
pub open spec fn no_artifacts_reason() -> Seq<char> {
    "the artifacts of the manifest could not be read"@
}

/// The kind that a manifest's word for it denotes.
pub open spec fn kind_named(word: Seq<char>) -> ArtifactKind {
    if word == "installer"@ {
        ArtifactKind::Installer
    } else if word == "archive"@ {
        ArtifactKind::Archive
    } else if word == "script"@ {
        ArtifactKind::Script
    } else {
        ArtifactKind::Other
    }
}

/// The artifact that a list item describes, where it has the three texts
/// that every artifact needs. An item without `download` is downloaded
/// under its name. No artifact starts out viewable.
pub open spec fn artifact_in(item: Json) -> Option<ArtifactView> {
    match (item.text_member("name"@), item.text_member("target"@), item.text_member("kind"@)) {
        (Some(name), Some(target), Some(kind)) => Some(
            ArtifactView {
                target,
                name,
                download: match item.text_member("download"@) {
                    Some(download) => download,
                    None => name,
                },
                kind: kind_named(kind),
                viewable: false,
            },
        ),
        _ => None,
    }
}

/// Every item describes an artifact.
pub open spec fn all_artifacts(items: Seq<Json>) -> bool {
    forall|i: int| 0 <= i < items.len() ==> artifact_in(#[trigger] items[i]) is Some
}

/// The artifacts of a manifest, in manifest order, where its member
/// `artifacts` is a list whose every item describes an artifact.
pub open spec fn artifacts_in(doc: Json) -> Option<Seq<ArtifactView>> {
    match doc.member("artifacts"@) {
        Some(list) => match list.items() {
            Some(items) => if all_artifacts(items) {
                Some(Seq::new(items.len(), |i: int| artifact_in(items[i])->0))
            } else {
                None
            },
            None => None,
        },
        None => None,
    }
}

/// What reading one manifest gave.
#[derive(Clone, Debug, PartialEq, Eq)]
pub struct ManifestOutcome {
    pub status: ParseStatus,
    /// The schema version that the manifest declared, if it declared one.
    pub schema_version: Option<String>,
    pub artifacts: Vec<Artifact>,
    pub changelog: Option<String>,
}

/// Mathematical model of a [`ManifestOutcome`].
pub struct OutcomeView {
    pub status: StatusView,
    pub schema_version: Option<Seq<char>>,
    pub artifacts: Seq<ArtifactView>,
    pub changelog: Option<Seq<char>>,
}

impl View for ManifestOutcome {
    type V = OutcomeView;

    open spec fn view(&self) -> OutcomeView {
        OutcomeView {
            status: self.status@,
            schema_version: opt_text(self.schema_version),
            artifacts: artifact_views(self.artifacts@),
            changelog: opt_text(self.changelog),
        }
    }
}

/// The outcome for a manifest that could not be read at all.
pub open spec fn unreadable(schema_version: Option<Seq<char>>, reason: Seq<char>) -> OutcomeView {
    OutcomeView {
        status: StatusView::Unparseable(reason),
        schema_version,
        artifacts: Seq::empty(),
        changelog: None,
    }
}

/// What a decoded manifest is read as.
///
/// A text that is no JSON, a document that declares no schema, and a
/// document of the supported schema without a readable artifact list are
/// unreadable. A document of the supported schema is otherwise read in full.
/// A document of any other schema is read in part: its declared schema and
/// its changelog, and no artifacts.
pub open spec fn outcome_of(decoded: Result<Json, Seq<char>>) -> OutcomeView {
    match decoded {
        Err(reason) => unreadable(None, reason),
        Ok(doc) => match doc.text_member("schema_version"@) {
            None => unreadable(None, no_schema_reason()),
            Some(declared) => if declared == supported_schema_text() {
                match artifacts_in(doc) {
                    Some(artifacts) => OutcomeView {
                        status: StatusView::Full,
                        schema_version: Some(declared),
                        artifacts,
                        changelog: doc.text_member("changelog"@),
                    },
                    None => unreadable(Some(declared), no_artifacts_reason()),
                }
            } else {
                OutcomeView {
                    status: StatusView::Partial(mismatch_reason(declared)),
                    schema_version: Some(declared),
                    artifacts: Seq::empty(),
                    changelog: doc.text_member("changelog"@),
                }
            },
        },
    }
}

/// Whether `warning` is the warning that a manifest under the tag `tag`
/// calls for, given how it was read and which schema it declared: the
/// warning names the tag and carries the reason, and for a manifest read in
/// part also the two schema versions (the declared one empty where none is
/// known). A manifest read in full calls for none.
pub open spec fn warns_of(
    warning: OrandaError,
    tag: Seq<char>,
    status: StatusView,
    declared: Option<Seq<char>>,
) -> bool {
    match status {
        StatusView::Full => false,
        StatusView::Partial(reason) => warning matches OrandaError::CargoDistManifestPartial {
            schema_version,
            parser_version,
            tag: named,
            details,
        } && named@ == tag && details@ == reason && schema_version@ == (match declared {
            Some(declared) => declared,
            None => Seq::empty(),
        }) && parser_version@ == supported_schema_text(),
        StatusView::Unparseable(reason) => warning matches OrandaError::CargoDistManifestMalformed {
            tag: named,
            details,
        } && named@ == tag && details@ == reason,
    }
}

/// The schema version that manifests are read under.
pub fn supported_schema() -> (version: &'static str)
    ensures
        version@ == supported_schema_text(),
{
    "1"
}

/// The kind that a manifest's word for it denotes.
pub fn artifact_kind(word: &str) -> (kind: ArtifactKind)
    ensures
        kind == kind_named(word@),
{
    if same_text(word, "installer") {
        ArtifactKind::Installer
    } else if same_text(word, "archive") {
        ArtifactKind::Archive
    } else if same_text(word, "script") {
        ArtifactKind::Script
    } else {
        ArtifactKind::Other
    }
}

/// Reads one item of a manifest's artifact list.
pub fn read_artifact(item: &Json) -> (out: Option<Artifact>)
    ensures
        match out {
            Some(artifact) => artifact_in(*item) == Some(artifact@),
            None => artifact_in(*item) is None,
        },
{
    let name = match item.get_text("name") {
        Some(name) => name,
        None => {
            return None;
        },
    };
    let target = match item.get_text("target") {
        Some(target) => target,
        None => {
            return None;
        },
    };
    let kind = match item.get_text("kind") {
        Some(kind) => kind,
        None => {
            return None;
        },
    };
    let download = match item.get_text("download") {
        Some(download) => download,
        None => name,
    };
    Some(
        Artifact {
            target: target.to_owned(),
            name: name.to_owned(),
            download: download.to_owned(),
            kind: artifact_kind(kind),
            viewable: false,
        },
    )
}

/// Reads the artifact list of a manifest.
pub fn read_artifacts(doc: &Json) -> (out: Option<Vec<Artifact>>)
    ensures
        match out {
            Some(artifacts) => artifacts_in(*doc) == Some(artifact_views(artifacts@)),
            None => artifacts_in(*doc) is None,
        },
{
    let items = match doc.get("artifacts") {
        Some(Json::List(items)) => items,
        _ => {
            return None;
        },
    };
    let mut artifacts: Vec<Artifact> = Vec::new();
    let mut i: usize = 0;
    while i < items.len()
        invariant
            i <= items.len(),
            artifacts@.len() == i,
            doc.member("artifacts"@) == Some(Json::List(*items)),
            forall|j: int| 0 <= j < i ==> artifact_in(#[trigger] items@[j]) == Some(artifacts@[j]@),
        decreases items.len() - i,
    {
        match read_artifact(&items[i]) {
            Some(artifact) => {
                artifacts.push(artifact);
            },
            None => {
                assert(!all_artifacts(items@));
                return None;
            },
        }
        i += 1;
    }
    assert(all_artifacts(items@));
    assert(artifact_views(artifacts@) =~= Seq::new(
        items@.len(),
        |i: int| artifact_in(items@[i])->0,
    ));
    Some(artifacts)
}

/// Copies an optional text.
fn owned(text: Option<&str>) -> (out: Option<String>)
    ensures
        match text {
            Some(t) => opt_text(out) == Some(t@),
            None => out is None,
        },
{
    match text {
        Some(t) => Some(t.to_owned()),
        None => None,
    }
}

/// The outcome for a manifest that could not be read at all.
fn unreadable_outcome(schema_version: Option<String>, reason: String) -> (out: ManifestOutcome)
    ensures
        out@ == unreadable(opt_text(schema_version), reason@),
{
    let out = ManifestOutcome {
        status: ParseStatus::Unparseable(reason),
        schema_version,
        artifacts: Vec::new(),
        changelog: None,
    };
    assert(out@.artifacts =~= Seq::empty());
    out
}

/// Reads a decoded manifest: `decoded` is the document that the payload
/// denotes, or the reason why it denotes none.
pub fn read_manifest(decoded: &Result<Json, String>) -> (out: ManifestOutcome)
    ensures
        out@ == outcome_of(decoded_view(*decoded)),
{
    let doc = match decoded {
        Ok(doc) => doc,
        Err(reason) => {
            return unreadable_outcome(None, reason.clone());
        },
    };
    let declared = match doc.get_text("schema_version") {
        Some(declared) => declared,
        None => {
            return unreadable_outcome(None, "the manifest declares no schema version".to_owned());
        },
    };
    if same_text(declared, supported_schema()) {
        match read_artifacts(doc) {
            Some(artifacts) => ManifestOutcome {
                status: ParseStatus::Full,
                schema_version: Some(declared.to_owned()),
                artifacts,
                changelog: owned(doc.get_text("changelog")),
            },
            None => unreadable_outcome(
                Some(declared.to_owned()),
                "the artifacts of the manifest could not be read".to_owned(),
            ),
        }
    } else {
        let reason = "the schema was version ".to_owned().concat(declared).concat(
            ", while our parser is version ",
        ).concat(supported_schema());
        let out = ManifestOutcome {
            status: ParseStatus::Partial(reason),
            schema_version: Some(declared.to_owned()),
            artifacts: Vec::new(),
            changelog: owned(doc.get_text("changelog")),
        };
        assert(out@.artifacts =~= Seq::empty());
        out
    }
}

/// Reads one manifest payload.
///
/// The payload is decoded as JSON and the result read as
/// [`read_manifest`] says; what the payload decodes to is
/// [`json_document`] of its text.
pub fn parse_manifest(payload: &str) -> (out: ManifestOutcome)
    ensures
        out@ == outcome_of(json_document(payload@)),
{
    let decoded = decode_json(payload);
    read_manifest(&decoded)
}

/// The warning that an outcome under the tag `tag` calls for: none for a
/// manifest read in full, else one that names the tag.
pub fn manifest_warning(tag: &str, outcome: &ManifestOutcome) -> (out: Option<OrandaError>)
    ensures
        match out {
            Some(warning) => warns_of(warning, tag@, outcome@.status, outcome@.schema_version)
                && warning.is_warning(),
            None => outcome@.status is Full,
        },
{
    match &outcome.status {
        ParseStatus::Full => None,
        ParseStatus::Partial(reason) => {
            let declared = match &outcome.schema_version {
                Some(declared) => declared.clone(),
                None => String::new(),
            };
            Some(
                OrandaError::CargoDistManifestPartial {
                    schema_version: declared,
                    parser_version: supported_schema().to_owned(),
                    tag: tag.to_owned(),
                    details: reason.clone(),
                },
            )
        },
        ParseStatus::Unparseable(reason) => Some(
            OrandaError::CargoDistManifestMalformed { tag: tag.to_owned(), details: reason.clone() },
        ),
    }
}


/// A manifest that declares another schema than the supported one, and is
/// otherwise any JSON document, is read in part: its status says so and
/// names both versions, it carries the declared schema and no artifacts, and
/// the warning for it names its tag.
pub proof fn law_other_schema_is_read_in_part(doc: Json, declared: Seq<char>)
    requires
        doc.text_member("schema_version"@) == Some(declared),
        declared != supported_schema_text(),
    ensures
        outcome_of(Ok(doc)).status == StatusView::Partial(mismatch_reason(declared)),
        outcome_of(Ok(doc)).artifacts.len() == 0,
        outcome_of(Ok(doc)).schema_version == Some(declared),
        forall|warning: OrandaError, tag: Seq<char>|
            warns_of(warning, tag, outcome_of(Ok(doc)).status, outcome_of(Ok(doc)).schema_version)
                ==> warning is CargoDistManifestPartial && warning.is_warning()
                && warning->CargoDistManifestPartial_tag@ == tag,
{
}

/// Only a manifest that was read in full carries artifacts.
pub proof fn law_artifacts_need_full_read(decoded: Result<Json, Seq<char>>)
    ensures
        !(outcome_of(decoded).status is Full) ==> outcome_of(decoded).artifacts.len() == 0,
{
}

} // verus!
