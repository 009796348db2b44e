use indexmap::IndexMap;
use oranda::config::{
    ArtifactsConfig, BuildConfig, ChangelogConfig, ComponentConfig, Config, ProjectConfig,
    ReleasesSource, StyleConfig,
};
use oranda::context::{Context, FetchOutcome, RawRelease};
use oranda::errors::{OrandaError, Severity};
use oranda::release::{ParseStatus, Release, ReleaseSource};
use oranda::repo::Repository;
use oranda::site::{
    adjoin, destination_segments, is_markdown, wants_pretty_link, ContextNeed, FundingDecision, IndexStep, NeedDecision, Page,
    PageJob, Placement, Preparation, ReleaseCheck, ReleaseRequest, Settled, Site,
};

fn plain_config() -> Config {
    Config {
        project: ProjectConfig {
            name: "demo".to_string(),
            version: Some("0.3.0".to_string()),
            repository: None,
            readme_path: "README.md".to_string(),
        },
        build: BuildConfig {
            dist_dir: "public".to_string(),
            static_dir: "static".to_string(),
            additional_pages: IndexMap::new(),
        },
        components: ComponentConfig {
            artifacts: None,
            changelog: None,
            funding: false,
            mdbook: false,
            source: None,
        },
        styles: StyleConfig { favicon: None, additional_css: vec![] },
    }
}

fn artifacts_on() -> Option<ArtifactsConfig> {
    Some(ArtifactsConfig { auto: false, cargo_dist: true, package_managers: false })
}

fn release(tag: &str, status: ParseStatus) -> Release {
    Release {
        tag: tag.to_string(),
        published: None,
        source: ReleaseSource::GitHub,
        schema_version: None,
        artifacts: vec![],
        changelog: None,
        status,
    }
}

fn full_manifest() -> String {
    "{\"schema_version\":\"1\",\"artifacts\":[]}".to_string()
}

fn raw(tag: &str, manifest: &str) -> RawRelease {
    RawRelease {
        tag: tag.to_string(),
        published: None,
        notes: None,
        manifest: manifest.to_string(),
    }
}

#[test]
fn pretty_link_rewrites_html_pages() {
    assert_eq!(Site::destination("public", "funding.html"), "public/funding/index.html");
    assert_eq!(Site::destination("public", "index.html"), "public/index.html");
    assert_eq!(Site::destination("public", "changelog.rss"), "public/changelog.rss");
}

#[test]
fn pretty_link_keeps_the_directory_of_a_page() {
    assert_eq!(
        Site::destination("public", "changelog/v1.0.0.html"),
        "public/changelog/v1.0.0/index.html"
    );
    assert_eq!(Site::destination("public", "docs/index.html"), "public/docs/index.html");
    assert_eq!(Site::destination("out/site", "artifacts.html"), "out/site/artifacts/index.html");
}

#[test]
fn pretty_link_leaves_other_extensions_alone() {
    assert_eq!(Site::destination("public", "artifacts.json"), "public/artifacts.json");
    assert_eq!(Site::destination("public", "styles/extra.css"), "public/styles/extra.css");
    assert_eq!(Site::destination("public", "LICENSE"), "public/LICENSE");
}

#[test]
fn pretty_link_decision_table() {
    assert!(wants_pretty_link(false, Some("html")));
    assert!(!wants_pretty_link(true, Some("html")));
    assert!(!wants_pretty_link(false, Some("rss")));
    assert!(!wants_pretty_link(false, Some("HTML")));
    assert!(!wants_pretty_link(false, None));
    assert!(!wants_pretty_link(true, None));
}

#[test]
fn markdown_is_told_by_extension() {
    assert!(is_markdown("docs/guide.md"));
    assert!(is_markdown("a.b.md"));
    assert!(!is_markdown("docs/guide.txt"));
    assert!(!is_markdown("md"));
    assert!(!is_markdown(".md"));
    assert!(!is_markdown("guide.markdown"));
}

#[test]
fn print_plan_lists_enabled_components_in_order() {
    let mut config = plain_config();
    config.components.artifacts = artifacts_on();
    config.components.changelog = Some(ChangelogConfig { rss_feed: false });
    config.components.funding = true;
    config.components.mdbook = true;
    assert_eq!(
        Site::print_plan(&config),
        Some("Building components: artifacts, changelog, funding, mdbook".to_string())
    );
}

#[test]
fn print_plan_is_silent_without_components() {
    assert_eq!(Site::print_plan(&plain_config()), None);
    let mut config = plain_config();
    config.components.artifacts =
        Some(ArtifactsConfig { auto: false, cargo_dist: false, package_managers: false });
    assert_eq!(Site::print_plan(&config), None);
}

#[test]
fn print_plan_with_one_component_has_no_separator() {
    let mut config = plain_config();
    config.components.funding = true;
    assert_eq!(Site::print_plan(&config), Some("Building components: funding".to_string()));
    let mut config = plain_config();
    config.components.changelog = Some(ChangelogConfig { rss_feed: true });
    config.components.mdbook = true;
    assert_eq!(
        Site::print_plan(&config),
        Some("Building components: changelog, mdbook".to_string())
    );
}

#[test]
fn additional_pages_are_split_in_configuration_order() {
    let mut files = IndexMap::new();
    files.insert("Zeta".to_string(), "docs/zeta.md".to_string());
    files.insert("Notes".to_string(), "notes.txt".to_string());
    files.insert("Alpha".to_string(), "alpha.md".to_string());
    files.insert("Logo".to_string(), "logo.png".to_string());
    let pages = Site::build_additional_pages(&files);
    assert_eq!(pages.render, vec!["docs/zeta.md".to_string(), "alpha.md".to_string()]);
    assert_eq!(pages.skipped, vec!["notes.txt".to_string(), "logo.png".to_string()]);
}

#[test]
fn additional_pages_of_an_empty_map() {
    let pages = Site::build_additional_pages(&IndexMap::new());
    assert!(pages.render.is_empty());
    assert!(pages.skipped.is_empty());
}

#[test]
fn site_without_history_has_only_the_root_page() {
    let mut config = plain_config();
    config.components.artifacts = artifacts_on();
    config.components.changelog = Some(ChangelogConfig { rss_feed: true });
    config.components.funding = true;
    let plan = Site::build_single(&config, None);
    assert_eq!(plan.pages, vec![PageJob::Index { with_artifacts: false }]);
    assert!(!plan.inline_latest);
    assert!(!plan.artifacts_json);
}

#[test]
fn site_pages_come_in_emission_order() {
    let mut config = plain_config();
    config.build.additional_pages.insert("Guide".to_string(), "guide.md".to_string());
    config.build.additional_pages.insert("Data".to_string(), "data.csv".to_string());
    config.build.additional_pages.insert("More".to_string(), "more.md".to_string());
    config.components.artifacts = artifacts_on();
    config.components.changelog = Some(ChangelogConfig { rss_feed: true });
    config.components.funding = true;
    let context = Context { source_failed: false,
        releases: vec![release("v2.0", ParseStatus::Full), release("v1.9", ParseStatus::Full)],
    };
    let plan = Site::build_single(&config, Some(&context));
    assert_eq!(
        plan.pages,
        vec![
            PageJob::Additional(0),
            PageJob::Additional(1),
            PageJob::Artifacts,
            PageJob::ChangelogIndex,
            PageJob::ChangelogFeed,
            PageJob::ChangelogRelease(0),
            PageJob::ChangelogRelease(1),
            PageJob::Funding,
            PageJob::Index { with_artifacts: true },
        ]
    );
    assert!(plan.inline_latest);
    assert!(plan.artifacts_json);
}

#[test]
fn site_with_history_but_no_components() {
    let config = plain_config();
    let context = Context { source_failed: false, releases: vec![release("v1.0", ParseStatus::Full)] };
    let plan = Site::build_single(&config, Some(&context));
    assert_eq!(plan.pages, vec![PageJob::Index { with_artifacts: false }]);
    assert!(!plan.inline_latest);
}

#[test]
fn artifacts_need_a_latest_release() {
    let mut config = plain_config();
    config.components.artifacts = artifacts_on();
    let context = Context { source_failed: false,
        releases: vec![release("v1.0", ParseStatus::Unparseable("broken".to_string()))],
    };
    let plan = Site::build_single(&config, Some(&context));
    assert_eq!(plan.pages, vec![PageJob::Index { with_artifacts: false }]);
    assert!(!plan.artifacts_json);
    let empty = Context { source_failed: false, releases: vec![] };
    let plan = Site::build_single(&config, Some(&empty));
    assert_eq!(plan.pages, vec![PageJob::Index { with_artifacts: false }]);
}

#[test]
fn every_site_has_exactly_one_root_page_at_the_end() {
    let mut config = plain_config();
    config.components.changelog = Some(ChangelogConfig { rss_feed: false });
    let context = Context::new_current("0.3.0");
    for history in [None, Some(&context)] {
        let plan = Site::build_single(&config, history);
        let roots = plan.pages.iter().filter(|job| matches!(job, PageJob::Index { .. })).count();
        assert_eq!(roots, 1);
        assert!(matches!(plan.pages.last(), Some(PageJob::Index { .. })));
    }
}

#[test]
fn changelog_of_the_placeholder_has_no_release_pages() {
    let mut config = plain_config();
    config.components.changelog = Some(ChangelogConfig { rss_feed: false });
    let context = Context::new_current("0.3.0");
    assert_eq!(Site::build_changelog_pages(&context, &config), vec![PageJob::ChangelogIndex]);
    config.components.changelog = Some(ChangelogConfig { rss_feed: true });
    assert_eq!(
        Site::build_changelog_pages(&context, &config),
        vec![PageJob::ChangelogIndex, PageJob::ChangelogFeed]
    );
}

#[test]
fn changelog_has_one_page_per_release() {
    let mut config = plain_config();
    config.components.changelog = Some(ChangelogConfig { rss_feed: false });
    let context = Context { source_failed: false,
        releases: vec![
            release("v3", ParseStatus::Unparseable("bad".to_string())),
            release("v2", ParseStatus::Partial("old".to_string())),
            release("v1", ParseStatus::Full),
        ],
    };
    assert_eq!(
        Site::build_changelog_pages(&context, &config),
        vec![
            PageJob::ChangelogIndex,
            PageJob::ChangelogRelease(0),
            PageJob::ChangelogRelease(1),
            PageJob::ChangelogRelease(2),
        ]
    );
    let empty = Context { source_failed: false, releases: vec![] };
    assert_eq!(Site::build_changelog_pages(&empty, &config), vec![PageJob::ChangelogIndex]);
}

#[test]
fn component_pages_follow_the_configuration() {
    let mut config = plain_config();
    config.components.funding = true;
    let context = Context { source_failed: false, releases: vec![release("v1", ParseStatus::Full)] };
    assert_eq!(Site::build_component_pages(&context, &config), vec![PageJob::Funding]);
    config.components.artifacts = artifacts_on();
    assert_eq!(
        Site::build_component_pages(&context, &config),
        vec![PageJob::Artifacts, PageJob::Funding]
    );
}

#[test]
fn json_only_build_renders_no_page() {
    let mut config = plain_config();
    config.components.artifacts = artifacts_on();
    config.components.changelog = Some(ChangelogConfig { rss_feed: true });
    let context = Context { source_failed: false, releases: vec![release("v1", ParseStatus::Full)] };
    let plan = Site::build_single_json_only(&config, Some(&context));
    assert!(plan.pages.is_empty());
    assert!(plan.artifacts_json);
    assert!(plan.inline_latest);
    let plan = Site::build_single_json_only(&config, None);
    assert!(plan.pages.is_empty());
    assert!(!plan.artifacts_json);
    config.components.artifacts = None;
    let plan = Site::build_single_json_only(&config, Some(&context));
    assert!(!plan.artifacts_json);
}

#[test]
fn context_is_not_needed_without_a_repository() {
    let mut config = plain_config();
    config.components.artifacts = artifacts_on();
    let decision = Site::needs_context(&config);
    assert_eq!(decision, NeedDecision { need: ContextNeed::NotNeeded, report: None });
    assert_eq!(
        ContextNeed::NotNeeded.resolve(&ReleaseCheck::Found(true)),
        Settled { needed: false, report: None }
    );
}

#[test]
fn context_is_needed_for_a_component_that_shows_releases() {
    let mut config = plain_config();
    config.project.repository = Some("https://github.com/axodotdev/oranda".to_string());
    config.components.funding = true;
    let decision = Site::needs_context(&config);
    assert_eq!(decision, NeedDecision { need: ContextNeed::Needed, report: None });
    for check in [
        ReleaseCheck::NotAsked,
        ReleaseCheck::Found(false),
        ReleaseCheck::Unreachable("down".to_string()),
    ] {
        assert_eq!(ContextNeed::Needed.resolve(&check), Settled { needed: true, report: None });
    }
}

#[test]
fn context_depends_on_the_source_otherwise() {
    let mut config = plain_config();
    config.project.repository = Some("https://github.com/axodotdev/oranda".to_string());
    config.components.mdbook = true;
    let decision = Site::needs_context(&config);
    assert_eq!(decision.report, None);
    assert_eq!(
        decision.need,
        ContextNeed::IfReleased {
            url: "https://github.com/axodotdev/oranda".to_string(),
            repository: Repository {
                owner: "axodotdev".to_string(),
                name: "oranda".to_string()
            },
        }
    );
    let need = decision.need;
    assert_eq!(need.resolve(&ReleaseCheck::Found(true)), Settled { needed: true, report: None });
    assert_eq!(need.resolve(&ReleaseCheck::Found(false)), Settled { needed: false, report: None });
    assert_eq!(need.resolve(&ReleaseCheck::NotAsked), Settled { needed: false, report: None });
}

#[test]
fn an_unreachable_release_check_is_a_warning_and_no_history() {
    let need = ContextNeed::IfReleased {
        url: "https://github.com/axodotdev/oranda".to_string(),
        repository: Repository { owner: "axodotdev".to_string(), name: "oranda".to_string() },
    };
    let settled = need.resolve(&ReleaseCheck::Unreachable("dns".to_string()));
    assert!(!settled.needed);
    assert_eq!(
        settled.report,
        Some(OrandaError::ReleasesCheckFailed {
            repo: "https://github.com/axodotdev/oranda".to_string()
        })
    );
    assert_eq!(settled.report.unwrap().severity(), Severity::Warning);
}

#[test]
fn a_component_that_shows_releases_needs_the_history_whatever_the_url() {
    let mut config = plain_config();
    config.project.repository = Some("ftp://example.com/owner/name".to_string());
    config.components.funding = true;
    config.components.artifacts = artifacts_on();
    config.components.changelog = Some(ChangelogConfig { rss_feed: true });
    config.build.additional_pages.insert("Guide".to_string(), "guide.md".to_string());
    let decision = Site::needs_context(&config);
    assert_eq!(decision, NeedDecision { need: ContextNeed::Needed, report: None });
    assert!(decision.need.resolve(&ReleaseCheck::NotAsked).needed);
    let built = Site::build_context(&config, &FetchOutcome::NotAsked);
    assert_eq!(built.context, None);
    match &built.reports[..] {
        [OrandaError::AxoProject(details)] => {
            assert!(details.contains("ftp://example.com/owner/name"));
            assert_ne!(details, "ftp://example.com/owner/name");
        }
        other => panic!("unexpected: {:?}", other),
    }
    let plan = Site::build_single(&config, built.context.as_ref());
    assert_eq!(plan.pages, vec![PageJob::Additional(0), PageJob::Index { with_artifacts: false }]);
}

#[test]
fn an_unresolved_repository_without_components_means_no_history() {
    let mut config = plain_config();
    config.project.repository = Some("ftp://example.com/owner/name".to_string());
    config.components.mdbook = true;
    let decision = Site::needs_context(&config);
    assert_eq!(decision.need, ContextNeed::NotNeeded);
    match &decision.report {
        Some(OrandaError::AxoProject(details)) => {
            assert!(details.contains("ftp://example.com/owner/name"));
        }
        other => panic!("unexpected: {:?}", other),
    }
    assert!(!decision.need.resolve(&ReleaseCheck::NotAsked).needed);
    let plan = Site::build_single(&config, None);
    assert_eq!(plan.pages, vec![PageJob::Index { with_artifacts: false }]);
}

#[test]
fn need_from_a_resolution() {
    let repository = Repository { owner: "o".to_string(), name: "n".to_string() };
    assert_eq!(
        ContextNeed::from_resolution("u", Ok(repository.clone())),
        NeedDecision {
            need: ContextNeed::IfReleased { url: "u".to_string(), repository },
            report: None
        }
    );
    assert_eq!(
        ContextNeed::from_resolution("u", Err("no".to_string())),
        NeedDecision {
            need: ContextNeed::NotNeeded,
            report: Some(OrandaError::AxoProject("no".to_string()))
        }
    );
}

#[test]
fn destination_segments_by_case() {
    let text = |s: &str| Some(s.to_string());
    assert_eq!(
        destination_segments(true, text("funding"), text(""), "funding.html"),
        vec!["".to_string(), "funding".to_string(), "index.html".to_string()]
    );
    assert_eq!(
        destination_segments(true, text("v1"), text("changelog"), "changelog/v1.html"),
        vec!["changelog".to_string(), "v1".to_string(), "index.html".to_string()]
    );
    assert_eq!(
        destination_segments(true, text("page"), None, "page.html"),
        vec!["".to_string(), "page".to_string(), "index.html".to_string()]
    );
    assert_eq!(
        destination_segments(true, None, text("dir"), "dir/.html"),
        vec!["dir/.html".to_string()]
    );
    assert_eq!(
        destination_segments(false, text("changelog"), text(""), "changelog.rss"),
        vec!["changelog.rss".to_string()]
    );
    assert_eq!(destination_segments(false, None, None, ""), vec!["".to_string()]);
}

#[test]
fn segments_are_adjoined_in_order() {
    assert_eq!(adjoin("public", &vec![]), "public");
    assert_eq!(
        adjoin("public", &vec!["".to_string(), "funding".to_string(), "index.html".to_string()]),
        "public/funding/index.html"
    );
    assert_eq!(adjoin("a", &vec!["b".to_string(), "c".to_string()]), "a/b/c");
    assert_eq!(adjoin("a", &vec!["b".to_string(), "/c".to_string()]), "/c");
}

#[test]
fn repository_urls_are_resolved_to_owner_and_name() {
    let mut config = plain_config();
    config.project.repository = Some("git@github.com:axodotdev/cargo-dist.git".to_string());
    assert_eq!(
        Site::release_request(&config),
        ReleaseRequest::GitHub(Repository {
            owner: "axodotdev".to_string(),
            name: "cargo-dist".to_string()
        })
    );
    config.project.repository = Some("https://github.com/axodotdev/oranda.git".to_string());
    config.components.source = Some(ReleasesSource::Axodotdev);
    assert_eq!(
        Site::release_request(&config),
        ReleaseRequest::FirstParty {
            package: "demo".to_string(),
            repository: Repository { owner: "axodotdev".to_string(), name: "oranda".to_string() },
        }
    );
    config.components.source = Some(ReleasesSource::GitHub);
    assert!(matches!(Site::release_request(&config), ReleaseRequest::GitHub(_)));
}

#[test]
fn release_request_without_or_with_a_bad_repository() {
    let mut config = plain_config();
    assert_eq!(Site::release_request(&config), ReleaseRequest::WorkingTree);
    config.project.repository = Some("https://gitlab.com/owner/name".to_string());
    assert!(matches!(
        Site::release_request(&config),
        ReleaseRequest::Refused(OrandaError::AxoProject(_))
    ));
}

#[test]
fn empty_history_fallback_without_a_repository() {
    let config = plain_config();
    let built = Site::build_context(&config, &FetchOutcome::NotAsked);
    assert!(built.reports.is_empty());
    let context = built.context.unwrap();
    assert!(!context.source_failed);
    assert_eq!(context.releases.len(), 1);
    let only = &context.releases[0];
    assert_eq!(only.tag, "0.3.0");
    assert_eq!(only.source, ReleaseSource::CurrentWorkingTree);
    assert!(only.artifacts.is_empty());
    assert_eq!(context.latest_index(), Some(0));
    assert_eq!(context.latest(), Some(only));
}

#[test]
fn placeholder_is_tagged_current_without_a_version() {
    let mut config = plain_config();
    config.project.version = None;
    config.project.repository = Some("https://github.com/axodotdev/oranda".to_string());
    let built = Site::build_context(&config, &FetchOutcome::Fetched(vec![]));
    let context = built.context.unwrap();
    assert_eq!(context.releases.len(), 1);
    assert_eq!(context.releases[0].tag, "current");
    assert!(!context.source_failed);
    assert!(built.reports.is_empty());
}

#[test]
fn fetch_failure_degrades_to_the_placeholder() {
    let mut config = plain_config();
    config.project.repository = Some("https://github.com/axodotdev/oranda".to_string());
    config.components.funding = true;
    let built =
        Site::build_context(&config, &FetchOutcome::Unreachable("connection refused".to_string()));
    assert_eq!(
        built.reports,
        vec![OrandaError::ReleasesCheckFailed {
            repo: "https://github.com/axodotdev/oranda".to_string()
        }]
    );
    assert_eq!(built.reports[0].severity(), Severity::Warning);
    let context = built.context.unwrap();
    assert_eq!(context, Context::after_failed_source("0.3.0"));
    let plan = Site::build_single(&config, Some(&context));
    assert_eq!(plan.pages, vec![PageJob::Funding, PageJob::Index { with_artifacts: false }]);
}

#[test]
fn fetch_failure_emits_no_artifacts_and_no_changelog_pages() {
    let mut config = plain_config();
    config.project.repository = Some("https://github.com/axodotdev/oranda".to_string());
    config.components.artifacts = artifacts_on();
    config.components.changelog = Some(ChangelogConfig { rss_feed: true });
    config.build.additional_pages.insert("Guide".to_string(), "guide.md".to_string());
    let built = Site::build_context(&config, &FetchOutcome::Unreachable("timeout".to_string()));
    assert_eq!(built.reports.len(), 1);
    assert!(matches!(
        &built.reports[0],
        OrandaError::ReleasesCheckFailed { repo } if repo == "https://github.com/axodotdev/oranda"
    ));
    let context = built.context.unwrap();
    assert!(context.source_failed);
    let plan = Site::build_single(&config, Some(&context));
    assert_eq!(
        plan.pages,
        vec![PageJob::Additional(0), PageJob::Index { with_artifacts: false }]
    );
    assert!(!plan.inline_latest);
    assert!(!plan.artifacts_json);
    let names: Vec<String> =
        plan.pages.iter().filter_map(|job| job.filename(Some(&context))).collect();
    assert_eq!(names, vec!["index.html".to_string()]);
    config.components.funding = true;
    let plan = Site::build_single(&config, Some(&context));
    assert_eq!(
        plan.pages,
        vec![PageJob::Additional(0), PageJob::Funding, PageJob::Index { with_artifacts: false }]
    );
    let plan = Site::build_single_json_only(&config, Some(&context));
    assert!(!plan.artifacts_json);
    assert_eq!(Site::build_component_pages(&context, &config), vec![PageJob::Funding]);
}

#[test]
fn the_same_placeholder_without_a_failure_keeps_its_pages() {
    let mut config = plain_config();
    config.components.artifacts = artifacts_on();
    config.components.changelog = Some(ChangelogConfig { rss_feed: false });
    let context = Context::new_current("0.3.0");
    let plan = Site::build_single(&config, Some(&context));
    assert_eq!(
        plan.pages,
        vec![
            PageJob::Artifacts,
            PageJob::ChangelogIndex,
            PageJob::Index { with_artifacts: true }
        ]
    );
}

#[test]
fn unresolved_repository_gives_no_history() {
    let mut config = plain_config();
    config.project.repository = Some("https://example.org/owner/name".to_string());
    config.components.funding = true;
    let fetched = FetchOutcome::Fetched(vec![raw("v1", &full_manifest())]);
    let built = Site::build_context(&config, &fetched);
    assert_eq!(built.context, None);
    assert_eq!(built.reports.len(), 1);
    assert!(matches!(built.reports[0], OrandaError::AxoProject(_)));
    let plan = Site::build_single(&config, built.context.as_ref());
    assert_eq!(plan.pages, vec![PageJob::Index { with_artifacts: false }]);
    assert_eq!(
        Site::unresolved_history("why".to_string()).reports,
        vec![OrandaError::AxoProject("why".to_string())]
    );
}

#[test]
fn fetched_releases_become_the_history() {
    let mut config = plain_config();
    config.project.repository = Some("https://github.com/axodotdev/oranda".to_string());
    let fetched = FetchOutcome::Fetched(vec![
        raw("v0.5.0", &full_manifest()),
        raw("v0.4.0", "{\"schema_version\":\"7\"}"),
        raw("v0.3.0", "not json"),
    ]);
    let built = Site::build_context(&config, &fetched);
    let context = built.context.unwrap();
    let tags: Vec<&str> = context.releases.iter().map(|r| r.tag.as_str()).collect();
    assert_eq!(tags, vec!["v0.5.0", "v0.4.0", "v0.3.0"]);
    assert!(context.releases.iter().all(|r| r.source == ReleaseSource::GitHub));
    assert!(!context.source_failed);
    assert_eq!(built.reports.len(), 2);
    config.components.source = Some(ReleasesSource::Axodotdev);
    let built = Site::build_context(&config, &fetched);
    assert!(built
        .context
        .unwrap()
        .releases
        .iter()
        .all(|r| r.source == ReleaseSource::FirstPartyHosted));
}

#[test]
fn source_not_asked_gives_the_placeholder() {
    let mut config = plain_config();
    config.project.repository = Some("https://github.com/axodotdev/oranda".to_string());
    let built = Site::build_context(&config, &FetchOutcome::NotAsked);
    assert_eq!(built.context, Some(Context::new_current("0.3.0")));
    assert!(built.reports.is_empty());
    let direct = Site::history_for(&config, "the url", &FetchOutcome::Unreachable("x".to_string()));
    assert_eq!(direct.reports, vec![OrandaError::ReleasesCheckFailed { repo: "the url".to_string() }]);
    assert!(direct.context.source_failed);
}

#[test]
fn funding_is_loaded_only_with_a_history() {
    let mut config = plain_config();
    let context = Context::new_current("0.3.0");
    assert!(!Site::loads_funding(&config, Some(&context)));
    config.components.funding = true;
    assert!(Site::loads_funding(&config, Some(&context)));
    assert!(!Site::loads_funding(&config, None));
}

#[test]
fn a_funding_warning_switches_funding_off() {
    let mut config = plain_config();
    config.components.funding = true;
    config.components.mdbook = true;
    let kept = Site::settle_funding(&config.components, Ok(())).unwrap();
    assert_eq!(kept, FundingDecision { components: config.components, report: None });
    let warning = OrandaError::FundingLoadFailed {
        path: ".github/FUNDING.yml".to_string(),
        details: "missing".to_string(),
    };
    let off = Site::settle_funding(&config.components, Err(warning.clone())).unwrap();
    assert!(!off.components.funding);
    assert!(off.components.mdbook);
    assert_eq!(off.report, Some(warning));
    let fatal = OrandaError::FundingConfigInvalid;
    assert_eq!(Site::settle_funding(&config.components, Err(fatal.clone())), Err(fatal));
}

#[test]
fn write_plans_every_page_and_the_placements() {
    let mut config = plain_config();
    config.components.mdbook = true;
    config.styles.favicon = Some("favicon.ico".to_string());
    config.styles.additional_css = vec!["extra.css".to_string()];
    let site = Site {
        workspace_data: None,
        pages: vec![
            Page { filename: "artifacts.html".to_string(), contents: "a".to_string() },
            Page { filename: "changelog.rss".to_string(), contents: "b".to_string() },
            Page { filename: "index.html".to_string(), contents: "c".to_string() },
        ],
    };
    let plan = site.write(Some(&config));
    assert_eq!(
        plan.destinations,
        vec![
            "public/artifacts/index.html".to_string(),
            "public/changelog.rss".to_string(),
            "public/index.html".to_string(),
        ]
    );
    assert_eq!(
        plan.after,
        vec![
            Placement::Book,
            Placement::Favicon,
            Placement::StaticFiles,
            Placement::OsScript,
            Placement::AdditionalCss,
        ]
    );
}

#[test]
fn write_with_a_bare_configuration() {
    let site = Site { workspace_data: None, pages: vec![] };
    let plan = site.write(Some(&plain_config()));
    assert!(plan.destinations.is_empty());
    assert_eq!(plan.after, vec![Placement::StaticFiles, Placement::OsScript]);
}

#[test]
fn cleaning_removes_an_existing_directory_first() {
    assert_eq!(
        Site::clean_dist_dir(true),
        vec![Preparation::RemoveDistDir, Preparation::CreateDistDir]
    );
    assert_eq!(Site::clean_dist_dir(false), vec![Preparation::CreateDistDir]);
}

#[test]
fn preparation_places_the_default_favicon_only_where_none_is_set() {
    let mut config = plain_config();
    assert_eq!(
        Site::prepare(&config, false),
        vec![Preparation::CreateDistDir, Preparation::PlaceDefaultFavicon, Preparation::PlaceCss]
    );
    config.styles.favicon = Some("f.ico".to_string());
    assert_eq!(
        Site::prepare(&config, true),
        vec![Preparation::RemoveDistDir, Preparation::CreateDistDir, Preparation::PlaceCss]
    );
}

#[test]
fn failed_preparation_is_fatal() {
    let e = Site::preparation_failure(
        Preparation::CreateDistDir,
        "public",
        "permission denied".to_string(),
    );
    assert_eq!(
        e,
        OrandaError::DistDirCreationError {
            dist_path: "public".to_string(),
            details: "permission denied".to_string()
        }
    );
    assert_eq!(e.severity(), Severity::Fatal);
    let e = Site::preparation_failure(Preparation::RemoveDistDir, "public", "busy".to_string());
    assert_eq!(e, OrandaError::Io("busy".to_string()));
    assert_eq!(e.severity(), Severity::Fatal);
}

#[test]
fn workspace_index_plan() {
    let mut config = plain_config();
    let plan = Site::build_and_write_workspace_index(&config);
    assert_eq!(
        plan.steps,
        vec![
            IndexStep::PlaceDefaultFavicon,
            IndexStep::PlaceCss,
            IndexStep::Render,
            IndexStep::Write
        ]
    );
    assert_eq!(plan.destination, "public/index.html");
    config.styles.favicon = Some("f.ico".to_string());
    config.styles.additional_css = vec!["a.css".to_string()];
    config.build.dist_dir = "out/".to_string();
    let plan = Site::build_and_write_workspace_index(&config);
    assert_eq!(
        plan.steps,
        vec![IndexStep::PlaceCss, IndexStep::Render, IndexStep::AdditionalCss, IndexStep::Write]
    );
    assert_eq!(plan.destination, "out/index.html");
}

#[test]
fn pages_are_named_by_their_component() {
    let context = Context { source_failed: false,
        releases: vec![release("v2.0.0", ParseStatus::Full), release("v1.0.0", ParseStatus::Full)],
    };
    assert_eq!(PageJob::Artifacts.filename(Some(&context)), Some("artifacts.html".to_string()));
    assert_eq!(PageJob::ChangelogIndex.filename(Some(&context)), Some("changelog.html".to_string()));
    assert_eq!(PageJob::ChangelogFeed.filename(Some(&context)), Some("changelog.rss".to_string()));
    assert_eq!(PageJob::Funding.filename(Some(&context)), Some("funding.html".to_string()));
    assert_eq!(
        PageJob::Index { with_artifacts: true }.filename(Some(&context)),
        Some("index.html".to_string())
    );
    assert_eq!(
        PageJob::ChangelogRelease(1).filename(Some(&context)),
        Some("changelog/v1.0.0.html".to_string())
    );
    assert_eq!(PageJob::ChangelogRelease(2).filename(Some(&context)), None);
    assert_eq!(PageJob::Additional(0).filename(Some(&context)), None);
    assert_eq!(PageJob::Funding.filename(None), Some("funding.html".to_string()));
    assert_eq!(
        PageJob::Index { with_artifacts: false }.filename(None),
        Some("index.html".to_string())
    );
    assert_eq!(PageJob::ChangelogRelease(0).filename(None), None);
}

#[test]
fn a_planned_site_lands_where_the_links_point() {
    let mut config = plain_config();
    config.components.changelog = Some(ChangelogConfig { rss_feed: true });
    let context = Context { source_failed: false, releases: vec![release("v1.0.0", ParseStatus::Full)] };
    let plan = Site::build_single(&config, Some(&context));
    let pages: Vec<Page> = plan
        .pages
        .iter()
        .map(|job| Page { filename: job.filename(Some(&context)).unwrap(), contents: String::new() })
        .collect();
    let site = Site { workspace_data: None, pages };
    assert_eq!(
        site.write(Some(&config)).destinations,
        vec![
            "public/changelog/index.html".to_string(),
            "public/changelog.rss".to_string(),
            "public/changelog/v1.0.0/index.html".to_string(),
            "public/index.html".to_string(),
        ]
    );
}

#[test]
fn style_sheet_override_must_name_a_file() {
    assert_eq!(Site::css_override(None, false), Ok(None));
    assert_eq!(Site::css_override(None, true), Ok(None));
    assert_eq!(Site::css_override(Some("my.css"), true), Ok(Some("my.css".to_string())));
    let refused = Site::css_override(Some("missing.css"), false);
    assert_eq!(
        refused,
        Err(OrandaError::InvalidOrandaCSSOverride { path: "missing.css".to_string() })
    );
    assert_eq!(
        refused.unwrap_err().message(),
        "Found an invalid value, `missing.css`, assigned to ORANDA_CSS environment variable."
    );
}

#[test]
fn funding_that_cannot_be_loaded_is_switched_off() {
    let mut config = plain_config();
    config.components.funding = true;
    config.components.mdbook = true;
    config.components.changelog = Some(ChangelogConfig { rss_feed: true });
    let kept = config.components.with_funding_loaded(true);
    assert_eq!(kept, config.components);
    let off = config.components.with_funding_loaded(false);
    assert!(!off.funding);
    assert!(off.mdbook);
    assert_eq!(off.changelog, Some(ChangelogConfig { rss_feed: true }));
    config.components.funding = false;
    assert!(!config.components.with_funding_loaded(true).funding);
    config.components = off;
    let context = Context::new_current("0.3.0");
    let plan = Site::build_single(&config, Some(&context));
    assert!(!plan.pages.contains(&PageJob::Funding));
}
