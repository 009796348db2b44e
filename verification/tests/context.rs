use oranda::config::ReleasesSource;
use oranda::context::{
    collect_downloads, Context, Download, FetchOutcome, ListedRelease, RawRelease,
};
use oranda::errors::{OrandaError, Severity};
use oranda::release::{Artifact, ArtifactKind, ParseStatus, Release, ReleaseSource};

fn history_entry(tag: &str, status: ParseStatus) -> Release {
    Release {
        tag: tag.to_string(),
        published: None,
        source: ReleaseSource::GitHub,
        schema_version: Some("1".to_string()),
        artifacts: vec![],
        changelog: None,
        status,
    }
}

fn fetched(tag: &str, manifest: &str) -> RawRelease {
    RawRelease {
        tag: tag.to_string(),
        published: Some("2024-01-01T00:00:00Z".to_string()),
        notes: Some(format!("notes of {}", tag)),
        manifest: manifest.to_string(),
    }
}

fn artifact(name: &str, kind: ArtifactKind) -> Artifact {
    Artifact {
        target: "x86_64-unknown-linux-gnu".to_string(),
        name: name.to_string(),
        download: name.to_string(),
        kind,
        viewable: false,
    }
}

#[test]
fn latest_release_precedence() {
    let context = Context { source_failed: false,
        releases: vec![
            history_entry("v2.0", ParseStatus::Unparseable("garbled".to_string())),
            history_entry("v1.9", ParseStatus::Full),
            history_entry("v1.8", ParseStatus::Full),
        ],
    };
    assert_eq!(context.latest_index(), Some(1));
    assert_eq!(context.latest().map(|r| r.tag.as_str()), Some("v1.9"));
}

#[test]
fn a_release_read_in_part_can_be_the_latest() {
    let context = Context { source_failed: false,
        releases: vec![
            history_entry("v3", ParseStatus::Partial("newer schema".to_string())),
            history_entry("v2", ParseStatus::Full),
        ],
    };
    assert_eq!(context.latest_index(), Some(0));
}

#[test]
fn no_latest_without_a_readable_release() {
    let empty = Context { source_failed: false, releases: vec![] };
    assert_eq!(empty.latest_index(), None);
    assert_eq!(empty.latest(), None);
    let broken = Context { source_failed: false,
        releases: vec![
            history_entry("v2", ParseStatus::Unparseable("a".to_string())),
            history_entry("v1", ParseStatus::Unparseable("b".to_string())),
        ],
    };
    assert_eq!(broken.latest_index(), None);
    assert_eq!(broken.latest(), None);
}

#[test]
fn empty_history_fallback() {
    let context = Context::new_current("1.2.3");
    assert_eq!(context.releases.len(), 1);
    assert_eq!(context.releases[0].source, ReleaseSource::CurrentWorkingTree);
    assert!(context.releases[0].source.is_current_state());
    assert!(context.releases[0].artifacts.is_empty());
    assert_eq!(context.releases[0].tag, "1.2.3");
    assert_eq!(context.releases[0].status, ParseStatus::Full);
    assert_eq!(context.latest_index(), Some(0));
}

#[test]
fn an_empty_answer_gives_the_placeholder() {
    let out = Context::from_releases("0.1.0", ReleasesSource::GitHub, &vec![]);
    assert_eq!(out.context, Context::new_current("0.1.0"));
    assert!(out.reports.is_empty());
}

#[test]
fn ordering_stability() {
    let raws = vec![
        fetched("t1", "{\"schema_version\":\"1\",\"artifacts\":[]}"),
        fetched("t2", "}{"),
        fetched("t3", "{\"schema_version\":\"9\",\"artifacts\":[]}"),
        fetched("t4", "{\"artifacts\":[]}"),
        fetched("t5", "{\"schema_version\":\"1\",\"artifacts\":[]}"),
    ];
    let out = Context::from_releases("0.1.0", ReleasesSource::GitHub, &raws);
    let tags: Vec<&str> = out.context.releases.iter().map(|r| r.tag.as_str()).collect();
    assert_eq!(tags, vec!["t1", "t2", "t3", "t4", "t5"]);
    let kinds: Vec<u8> = out
        .context
        .releases
        .iter()
        .map(|r| match r.status {
            ParseStatus::Full => 0,
            ParseStatus::Partial(_) => 1,
            ParseStatus::Unparseable(_) => 2,
        })
        .collect();
    assert_eq!(kinds, vec![0, 2, 1, 2, 0]);
    assert!(out.context.releases.iter().all(|r| r.source == ReleaseSource::GitHub));
    assert!(out
        .context
        .releases
        .iter()
        .all(|r| r.published.as_deref() == Some("2024-01-01T00:00:00Z")));
}

#[test]
fn every_flawed_manifest_is_reported_once_under_its_tag() {
    let raws = vec![
        fetched("t1", "{\"schema_version\":\"1\",\"artifacts\":[]}"),
        fetched("t2", "}{"),
        fetched("t3", "{\"schema_version\":\"9\",\"artifacts\":[]}"),
        fetched("t4", "{\"schema_version\":\"1\",\"artifacts\":[]}"),
    ];
    let out = Context::from_releases("0.1.0", ReleasesSource::Axodotdev, &raws);
    assert_eq!(out.reports.len(), 2);
    match &out.reports[0] {
        OrandaError::CargoDistManifestMalformed { tag, details } => {
            assert_eq!(tag, "t2");
            assert!(!details.is_empty());
        }
        other => panic!("unexpected: {:?}", other),
    }
    assert_eq!(
        out.reports[1],
        OrandaError::CargoDistManifestPartial {
            schema_version: "9".to_string(),
            parser_version: "1".to_string(),
            tag: "t3".to_string(),
            details: "the schema was version 9, while our parser is version 1".to_string(),
        }
    );
    assert!(out.reports.iter().all(|e| e.severity() == Severity::Warning));
    assert!(out.context.releases.iter().all(|r| r.source == ReleaseSource::FirstPartyHosted));
}

#[test]
fn partial_schema_tolerance() {
    let raws = vec![
        fetched(
            "v2.0.0",
            "{\"schema_version\":\"2\",\"artifacts\":[{\"name\":\"a.tar.gz\",\"target\":\"t\",\"kind\":\"archive\"}],\"changelog\":\"new things\"}",
        ),
        fetched(
            "v1.0.0",
            "{\"schema_version\":\"1\",\"artifacts\":[{\"name\":\"b.tar.gz\",\"target\":\"t\",\"kind\":\"archive\"}]}",
        ),
    ];
    let out = Context::from_releases("0.1.0", ReleasesSource::GitHub, &raws);
    assert_eq!(out.context.releases.len(), 2);
    let newer = &out.context.releases[0];
    assert_eq!(
        newer.status,
        ParseStatus::Partial("the schema was version 2, while our parser is version 1".to_string())
    );
    assert!(newer.artifacts.is_empty());
    assert_eq!(newer.schema_version.as_deref(), Some("2"));
    assert_eq!(newer.changelog.as_deref(), Some("new things"));
    assert_eq!(out.reports.len(), 1);
    assert!(matches!(
        &out.reports[0],
        OrandaError::CargoDistManifestPartial { tag, .. } if tag == "v2.0.0"
    ));
    let older = &out.context.releases[1];
    assert_eq!(older.status, ParseStatus::Full);
    assert_eq!(older.artifacts.len(), 1);
    assert_eq!(older.artifacts[0].name, "b.tar.gz");
    assert_eq!(out.context.latest_index(), Some(0));
}

#[test]
fn release_notes_stand_in_for_a_missing_changelog() {
    let raws = vec![
        fetched("v2", "{\"schema_version\":\"1\",\"artifacts\":[],\"changelog\":\"from manifest\"}"),
        fetched("v1", "{\"schema_version\":\"1\",\"artifacts\":[]}"),
        fetched("v0", "nonsense"),
    ];
    let out = Context::from_releases("0.1.0", ReleasesSource::GitHub, &raws);
    assert_eq!(out.context.releases[0].changelog.as_deref(), Some("from manifest"));
    assert_eq!(out.context.releases[1].changelog.as_deref(), Some("notes of v1"));
    assert_eq!(out.context.releases[2].changelog.as_deref(), Some("notes of v0"));
    assert!(out.context.releases[2].artifacts.is_empty());
}

#[test]
fn only_the_scripts_of_the_latest_release_become_viewable() {
    let mut unreadable = history_entry("v3", ParseStatus::Unparseable("x".to_string()));
    unreadable.artifacts = vec![];
    let mut latest = history_entry("v2", ParseStatus::Full);
    latest.artifacts = vec![
        artifact("install.sh", ArtifactKind::Script),
        artifact("app.tar.gz", ArtifactKind::Archive),
        artifact("setup.msi", ArtifactKind::Installer),
        artifact("install.ps1", ArtifactKind::Script),
    ];
    let mut older = history_entry("v1", ParseStatus::Full);
    older.artifacts = vec![artifact("install.sh", ArtifactKind::Script)];
    let mut context = Context { source_failed: false, releases: vec![unreadable.clone(), latest, older.clone()] };
    context.make_latest_viewable();
    assert_eq!(context.releases.len(), 3);
    assert_eq!(context.releases[0], unreadable);
    assert_eq!(context.releases[2], older);
    let shown: Vec<bool> = context.releases[1].artifacts.iter().map(|a| a.viewable).collect();
    assert_eq!(shown, vec![true, false, false, true]);
    assert_eq!(context.releases[1].tag, "v2");
    assert_eq!(context.releases[1].artifacts[1].name, "app.tar.gz");
}

#[test]
fn a_history_without_a_latest_release_stays_as_it_is() {
    let mut broken = history_entry("v1", ParseStatus::Unparseable("x".to_string()));
    broken.artifacts = vec![];
    let mut context = Context { source_failed: false, releases: vec![broken] };
    let before = context.clone();
    context.make_latest_viewable();
    assert_eq!(context, before);
    let mut empty = Context { source_failed: false, releases: vec![] };
    empty.make_latest_viewable();
    assert!(empty.releases.is_empty());
}

#[test]
fn scripts_of_one_release_become_viewable() {
    let mut release = history_entry("v1", ParseStatus::Full);
    release.artifacts =
        vec![artifact("a.zip", ArtifactKind::Other), artifact("i.sh", ArtifactKind::Script)];
    release.make_scripts_viewable();
    assert!(!release.artifacts[0].viewable);
    assert!(release.artifacts[1].viewable);
    assert_eq!(release.artifacts[1].target, "x86_64-unknown-linux-gnu");
    assert!(release.qualifies());
    assert!(!history_entry("v0", ParseStatus::Unparseable("x".to_string())).qualifies());
}

#[test]
fn only_releases_with_a_manifest_are_picked() {
    let listed = |tag: &str, assets: &[&str]| oranda::context::ListedRelease {
        tag: tag.to_string(),
        published: None,
        notes: None,
        assets: assets.iter().map(|a| a.to_string()).collect(),
    };
    let listing = vec![
        listed("v4", &["app.tar.gz", "manifest"]),
        listed("v3", &["app.tar.gz"]),
        listed("v2", &["manifest", "manifest"]),
        listed("v1", &[]),
        listed("v0", &["Manifest", "manifest.sig"]),
    ];
    assert_eq!(oranda::context::releases_with_asset(&listing, "manifest"), vec![0, 2]);
    assert_eq!(oranda::context::releases_with_asset(&listing, "app.tar.gz"), vec![0, 1]);
    assert!(oranda::context::releases_with_asset(&listing, "none").is_empty());
    assert!(oranda::context::releases_with_asset(&vec![], "manifest").is_empty());
    assert!(listing[0].has_asset("manifest"));
    assert!(!listing[4].has_asset("manifest"));
}

fn two_listed() -> Vec<ListedRelease> {
    vec![
        ListedRelease {
            tag: "v2".to_string(),
            published: Some("2024-02-02".to_string()),
            notes: Some("second".to_string()),
            assets: vec!["manifest".to_string()],
        },
        ListedRelease {
            tag: "v1".to_string(),
            published: None,
            notes: None,
            assets: vec!["manifest".to_string(), "app.zip".to_string()],
        },
    ]
}

#[test]
fn downloads_that_arrived_become_the_answer() {
    let downloads = vec![
        Download { position: 1, payload: Ok("{}".to_string()) },
        Download { position: 0, payload: Ok("payload".to_string()) },
    ];
    assert_eq!(
        collect_downloads(&two_listed(), &downloads),
        FetchOutcome::Fetched(vec![
            RawRelease {
                tag: "v1".to_string(),
                published: None,
                notes: None,
                manifest: "{}".to_string(),
            },
            RawRelease {
                tag: "v2".to_string(),
                published: Some("2024-02-02".to_string()),
                notes: Some("second".to_string()),
                manifest: "payload".to_string(),
            },
        ])
    );
    assert_eq!(collect_downloads(&two_listed(), &vec![]), FetchOutcome::Fetched(vec![]));
}

#[test]
fn a_download_that_did_not_arrive_makes_the_source_unreachable() {
    let downloads = vec![
        Download { position: 0, payload: Ok("a".to_string()) },
        Download { position: 1, payload: Err("timed out".to_string()) },
        Download { position: 0, payload: Err("later".to_string()) },
    ];
    assert_eq!(
        collect_downloads(&two_listed(), &downloads),
        FetchOutcome::Unreachable("timed out".to_string())
    );
    let stray = vec![Download { position: 2, payload: Ok("a".to_string()) }];
    assert_eq!(
        collect_downloads(&two_listed(), &stray),
        FetchOutcome::Unreachable("the release is not in the listing".to_string())
    );
    let stray = vec![Download { position: 7, payload: Err("gone".to_string()) }];
    assert_eq!(collect_downloads(&two_listed(), &stray), FetchOutcome::Unreachable("gone".to_string()));
}

#[test]
fn a_history_after_a_failed_source_is_marked() {
    let context = Context::after_failed_source("0.2.0");
    assert!(context.source_failed);
    assert_eq!(context.releases, Context::new_current("0.2.0").releases);
    assert!(!Context::new_current("0.2.0").source_failed);
    let out = Context::from_releases("0.1.0", ReleasesSource::GitHub, &vec![]);
    assert!(!out.context.source_failed);
}
