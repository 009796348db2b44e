use indexmap::IndexMap;
use oranda::config::{BuildConfig, ComponentConfig, Config, ProjectConfig, StyleConfig};
use oranda::site::{Page, Site};
use oranda::context::Context;
use oranda::release::{ParseStatus, Release, ReleaseSource};
use oranda::workspace::{
    index_entries, BuiltMember, IndexEntry, MemberAction, WorkspaceBuild, WorkspaceData,
    WorkspaceState,
};

fn member(slug: &str) -> WorkspaceData {
    WorkspaceData {
        slug: slug.to_string(),
        path: format!("members/{}", slug),
        config: Config {
            project: ProjectConfig {
                name: slug.to_string(),
                version: None,
                repository: None,
                readme_path: "README.md".to_string(),
            },
            build: BuildConfig {
                dist_dir: format!("public/{}", slug),
                static_dir: "static".to_string(),
                additional_pages: IndexMap::new(),
            },
            components: ComponentConfig {
                artifacts: None,
                changelog: None,
                funding: false,
                mdbook: false,
                source: None,
            },
            styles: StyleConfig { favicon: None, additional_css: vec![] },
        },
    }
}

fn run(members: usize, outcomes: &[bool]) -> Vec<MemberAction> {
    let mut build = WorkspaceBuild::start(members);
    let mut actions = vec![build.action()];
    for ok in outcomes {
        if build.is_over() {
            break;
        }
        build = build.advance(*ok);
        actions.push(build.action());
    }
    actions
}

#[test]
fn members_are_built_one_after_the_other() {
    assert_eq!(
        run(2, &[true, true, true, true, true, true]),
        vec![
            MemberAction::Enter(0),
            MemberAction::Build(0),
            MemberAction::Leave,
            MemberAction::Enter(1),
            MemberAction::Build(1),
            MemberAction::Leave,
            MemberAction::Finish,
        ]
    );
}

#[test]
fn an_empty_workspace_is_finished_at_once() {
    let build = WorkspaceBuild::start(0);
    assert_eq!(build.action(), MemberAction::Finish);
    assert!(build.is_over());
    assert_eq!(build.advance(true).state, WorkspaceState::Finished);
}

#[test]
fn a_failed_build_returns_to_the_root_before_it_aborts() {
    assert_eq!(
        run(3, &[true, false, true, true]),
        vec![
            MemberAction::Enter(0),
            MemberAction::Build(0),
            MemberAction::Leave,
            MemberAction::Abort,
        ]
    );
    assert_eq!(
        run(3, &[true, true, true, true, false, true, true]),
        vec![
            MemberAction::Enter(0),
            MemberAction::Build(0),
            MemberAction::Leave,
            MemberAction::Enter(1),
            MemberAction::Build(1),
            MemberAction::Leave,
            MemberAction::Abort,
        ]
    );
}

#[test]
fn a_directory_that_cannot_be_entered_or_left_aborts() {
    assert_eq!(run(2, &[false, true]), vec![MemberAction::Enter(0), MemberAction::Abort]);
    assert_eq!(
        run(2, &[true, true, false, true]),
        vec![
            MemberAction::Enter(0),
            MemberAction::Build(0),
            MemberAction::Leave,
            MemberAction::Abort,
        ]
    );
}

#[test]
fn a_finished_build_stays_finished() {
    let mut build = WorkspaceBuild::start(1);
    for _ in 0..3 {
        build = build.advance(true);
    }
    assert_eq!(build.state, WorkspaceState::Finished);
    assert_eq!(build.advance(false).state, WorkspaceState::Finished);
    let failed = WorkspaceBuild::start(1).advance(false);
    assert_eq!(failed.state, WorkspaceState::Failed);
    assert_eq!(failed.advance(true).state, WorkspaceState::Failed);
    assert!(failed.is_over());
}

#[test]
fn a_build_of_n_members_takes_three_steps_each() {
    for members in 0..5usize {
        let mut build = WorkspaceBuild::start(members);
        let mut steps = 0;
        while !build.is_over() {
            build = build.advance(true);
            steps += 1;
        }
        assert_eq!(steps, 3 * members);
        assert_eq!(build.state, WorkspaceState::Finished);
    }
}

#[test]
fn a_site_is_marked_with_its_member() {
    let site = Site {
        workspace_data: None,
        pages: vec![Page { filename: "index.html".to_string(), contents: "x".to_string() }],
    };
    let site = site.for_member(member("alpha"));
    assert_eq!(site.workspace_data.as_ref().map(|m| m.slug.as_str()), Some("alpha"));
    assert_eq!(site.pages.len(), 1);
    let plan = site.write(None);
    assert_eq!(plan.destinations, vec!["public/alpha/index.html".to_string()]);
}

#[test]
fn the_index_lists_every_member_with_its_latest_release() {
    let entry = |tag: &str, status: ParseStatus| Release {
        tag: tag.to_string(),
        published: None,
        source: ReleaseSource::GitHub,
        schema_version: None,
        artifacts: vec![],
        changelog: None,
        status,
    };
    let members = vec![
        BuiltMember { slug: "one".to_string(), context: None },
        BuiltMember {
            slug: "two".to_string(),
            context: Some(Context { source_failed: false,
                releases: vec![
                    entry("v2.0", ParseStatus::Unparseable("x".to_string())),
                    entry("v1.9", ParseStatus::Full),
                ],
            }),
        },
        BuiltMember { slug: "three".to_string(), context: Some(Context { source_failed: false, releases: vec![] }) },
        BuiltMember { slug: "four".to_string(), context: Some(Context::new_current("0.1.0")) },
    ];
    assert_eq!(
        index_entries(&members),
        vec![
            IndexEntry { slug: "one".to_string(), latest: None },
            IndexEntry { slug: "two".to_string(), latest: Some("v1.9".to_string()) },
            IndexEntry { slug: "three".to_string(), latest: None },
            IndexEntry { slug: "four".to_string(), latest: Some("0.1.0".to_string()) },
        ]
    );
}
