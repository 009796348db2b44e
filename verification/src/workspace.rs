//! Building the members of a workspace one after the other.
//!
//! Each member is built from inside its own directory. The caller performs
//! the steps; [`WorkspaceBuild`] decides which step comes next from how the
//! last one ended. Whatever happens to a member's build, the way back to the
//! workspace root is taken before anything else.

use crate::config::Config;
use crate::context::{is_latest, Context};
use crate::release::ReleaseView;
use crate::site::Site;
use vstd::prelude::*;

verus! {

/// One member project of a workspace.
#[derive(Debug, PartialEq, Eq)]
pub struct WorkspaceData {
    /// Path segment that identifies the member on the workspace index.
    pub slug: String,
    /// Where the member lives on disk.
    pub path: String,
    /// The member's own configuration.
    pub config: Config,
}

/// What the workspace index shows of a member that was built: its slug,
/// and the release history that was put together for it, if any was.
#[derive(Clone, Debug, PartialEq, Eq)]
pub struct BuiltMember {
    pub slug: String,
    pub context: Option<Context>,
}

/// One line of the workspace index.
#[derive(Clone, Debug, PartialEq, Eq)]
pub struct IndexEntry {
    pub slug: String,
    /// Tag of the member's latest release, where it has one.
    pub latest: Option<String>,
}

/// The tag of the latest release of an optional history.
pub open spec fn latest_tag(history: Option<Seq<ReleaseView>>, tag: Option<Seq<char>>) -> bool {
    match tag {
        Some(tag) => history matches Some(releases) && exists|i: int|
            is_latest(releases, i) && tag == #[trigger] releases[i].tag,
        None => match history {
            Some(releases) => forall|i: int| !is_latest(releases, i),
            None => true,
        },
    }
}

/// What the caller does next.
#[derive(Clone, Copy, Debug, PartialEq, Eq, Structural)]
pub enum MemberAction {
    /// Switch into the directory of this member.
    Enter(usize),
    /// Build the site of this member.
    Build(usize),
    /// Switch back to the workspace root.
    Leave,
    /// Stop: every member was built.
    Finish,
    /// Stop: a step failed, and its error is the result.
    Abort,
}

/// Where a workspace build stands.
#[derive(Clone, Copy, Debug, PartialEq, Eq, Structural)]
pub enum WorkspaceState {
    /// The directory of this member is being entered.
    Entering(usize),
    /// This member is being built, from inside its directory.
    Building(usize),
    /// The workspace root is being returned to, after this member's build
    /// succeeded or failed.
    Leaving { member: usize, failed: bool },
    /// Every member was built.
    Finished,
    /// A step failed.
    Failed,
}

/// A workspace build in progress.
#[derive(Clone, Copy, Debug, PartialEq, Eq, Structural)]
pub struct WorkspaceBuild {
    /// How many members the workspace has.
    pub members: usize,
    pub state: WorkspaceState,
}

impl WorkspaceState {
    /// The build is over.
    pub open spec fn is_final(self) -> bool {
        self is Finished || self is Failed
    }

    /// The working directory is a member's rather than the root.
    pub open spec fn inside_member(self) -> bool {
        self is Building || self is Leaving
    }

    /// The member that the state is about, for a state that is about one.
    pub open spec fn member(self) -> int {
        match self {
            WorkspaceState::Entering(i) => i as int,
            WorkspaceState::Building(i) => i as int,
            WorkspaceState::Leaving { member, .. } => member as int,
            _ => 0,
        }
    }
}

/// The state that a build of `members` members starts in.
pub open spec fn first_state(members: usize) -> WorkspaceState {
    if members == 0 {
        WorkspaceState::Finished
    } else {
        WorkspaceState::Entering(0)
    }
}

/// The state that follows `state` once its step has ended, well (`ok`) or not.
///
/// A directory that cannot be entered, or not be left again, fails the
/// build. A member's build is followed by the way back to the root whether
/// it succeeded or not; a failed one fails the build after that, a
/// successful one is followed by the next member, or by the end.
pub open spec fn next_state(members: usize, state: WorkspaceState, ok: bool) -> WorkspaceState {
    match state {
        WorkspaceState::Entering(i) => if ok {
            WorkspaceState::Building(i)
        } else {
            WorkspaceState::Failed
        },
        WorkspaceState::Building(i) => WorkspaceState::Leaving { member: i, failed: !ok },
        WorkspaceState::Leaving { member, failed } => if !ok || failed {
            WorkspaceState::Failed
        } else if member + 1 < members {
            WorkspaceState::Entering((member + 1) as usize)
        } else {
            WorkspaceState::Finished
        },
        WorkspaceState::Finished => WorkspaceState::Finished,
        WorkspaceState::Failed => WorkspaceState::Failed,
    }
}

/// The step that a state asks for.
pub open spec fn action_of(state: WorkspaceState) -> MemberAction {
    match state {
        WorkspaceState::Entering(i) => MemberAction::Enter(i),
        WorkspaceState::Building(i) => MemberAction::Build(i),
        WorkspaceState::Leaving { .. } => MemberAction::Leave,
        WorkspaceState::Finished => MemberAction::Finish,
        WorkspaceState::Failed => MemberAction::Abort,
    }
}

/// How many steps a build can still take from `state`, at most.
pub open spec fn steps_left(members: usize, state: WorkspaceState) -> int {
    match state {
        WorkspaceState::Entering(i) => 3 * (members - i),
        WorkspaceState::Building(i) => 3 * (members - i) - 1,
        WorkspaceState::Leaving { member, .. } => 3 * (members - member) - 2,
        WorkspaceState::Finished => 0,
        WorkspaceState::Failed => 0,
    }
}

impl WorkspaceBuild {
    /// The state is about a member that the workspace has.
    pub open spec fn wf(&self) -> bool {
        self.state.is_final() || self.state.member() < self.members
    }

    /// Starts the build of a workspace with `members` members.
    pub fn start(members: usize) -> (build: WorkspaceBuild)
        ensures
            build.members == members,
            build.state == first_state(members),
            build.wf(),
    {
        if members == 0 {
            WorkspaceBuild { members, state: WorkspaceState::Finished }
        } else {
            WorkspaceBuild { members, state: WorkspaceState::Entering(0) }
        }
    }

    /// The step to perform in the present state.
    pub fn action(&self) -> (action: MemberAction)
        ensures
            action == action_of(self.state),
    {
        match self.state {
            WorkspaceState::Entering(i) => MemberAction::Enter(i),
            WorkspaceState::Building(i) => MemberAction::Build(i),
            WorkspaceState::Leaving { .. } => MemberAction::Leave,
            WorkspaceState::Finished => MemberAction::Finish,
            WorkspaceState::Failed => MemberAction::Abort,
        }
    }

    /// Moves on once the present step has ended, well (`ok`) or not.
    pub fn advance(&self, ok: bool) -> (next: WorkspaceBuild)
        ensures
            next.members == self.members,
            next.state == next_state(self.members, self.state, ok),
            self.wf() ==> next.wf(),
    {
        let state = match self.state {
            WorkspaceState::Entering(i) => if ok {
                WorkspaceState::Building(i)
            } else {
                WorkspaceState::Failed
            },
            WorkspaceState::Building(i) => WorkspaceState::Leaving { member: i, failed: !ok },
            WorkspaceState::Leaving { member, failed } => if !ok || failed {
                WorkspaceState::Failed
            } else if self.members > 0 && member < self.members - 1 {
                WorkspaceState::Entering(member + 1)
            } else {
                WorkspaceState::Finished
            },
            WorkspaceState::Finished => WorkspaceState::Finished,
            WorkspaceState::Failed => WorkspaceState::Failed,
        };
        WorkspaceBuild { members: self.members, state }
    }

    /// Whether the build is over.
    pub fn is_over(&self) -> (over: bool)
        ensures
            over == self.state.is_final(),
    {
        match self.state {
            WorkspaceState::Finished => true,
            WorkspaceState::Failed => true,
            _ => false,
        }
    }
}

/// The build of a member is always followed by the way back to the
/// workspace root, whether the build succeeded or failed.
pub proof fn law_build_is_followed_by_return(members: usize, member: usize, ok: bool)
    ensures
        action_of(next_state(members, WorkspaceState::Building(member), ok))
            == MemberAction::Leave,
{
}

/// A member's directory is left only by the step that returns to the
/// workspace root: from a state inside a member, every step leads to another
/// state inside the member unless the state was the return itself.
pub proof fn law_directory_is_left_by_return_only(members: usize, state: WorkspaceState, ok: bool)
    requires
        state.inside_member(),
        !next_state(members, state, ok).inside_member(),
    ensures
        action_of(state) == MemberAction::Leave,
{
}

/// After a failed step no further member is entered or built: the build
/// returns to the root where it is inside a member, and then fails.
pub proof fn law_failure_stops_the_build(members: usize, state: WorkspaceState)
    requires
        !state.is_final(),
    ensures
        ({
            let after = next_state(members, state, false);
            after is Failed || (after is Leaving && next_state(members, after, true) is Failed
                && next_state(members, after, false) is Failed)
        }),
{
}

/// Members are built in workspace order: the step after a completed member
/// enters the member that follows it, and the build finishes after the last.
pub proof fn law_members_in_order(members: usize, member: usize)
    requires
        member < members,
    ensures
        next_state(members, WorkspaceState::Leaving { member, failed: false }, true) == (if member
            + 1 < members {
            WorkspaceState::Entering((member + 1) as usize)
        } else {
            WorkspaceState::Finished
        }),
{
}

/// Every step brings the end nearer: a build of `n` members is over after at
/// most `3 * n` steps.
pub proof fn law_build_terminates(members: usize, state: WorkspaceState, ok: bool)
    requires
        !state.is_final(),
        state.member() < members,
    ensures
        0 <= steps_left(members, next_state(members, state, ok)) < steps_left(members, state),
        steps_left(members, first_state(members)) == 3 * members,
{
}

/// The lines of the workspace index: one per member, in workspace order,
/// each with the member's slug and the tag of its latest release where its
/// history has one.
pub fn index_entries(members: &Vec<BuiltMember>) -> (entries: Vec<IndexEntry>)
    ensures
        entries@.len() == members@.len(),
        forall|i: int|
            0 <= i < members@.len() ==> {
                &&& (#[trigger] entries@[i]).slug@ == members@[i].slug@
                &&& latest_tag(
                    match members@[i].context {
                        Some(context) => Some(context@),
                        None => None,
                    },
                    match entries@[i].latest {
                        Some(tag) => Some(tag@),
                        None => None,
                    },
                )
            },
{
    let mut entries: Vec<IndexEntry> = Vec::new();
    let mut i: usize = 0;
    while i < members.len()
        invariant
            i <= members.len(),
            entries@.len() == i,
            forall|k: int|
                0 <= k < i ==> {
                    &&& (#[trigger] entries@[k]).slug@ == members@[k].slug@
                    &&& latest_tag(
                        match members@[k].context {
                            Some(context) => Some(context@),
                            None => None,
                        },
                        match entries@[k].latest {
                            Some(tag) => Some(tag@),
                            None => None,
                        },
                    )
                },
        decreases members.len() - i,
    {
        let member = &members[i];
        let latest = match &member.context {
            Some(context) => match context.latest_index() {
                Some(at) => {
                    let tag = context.releases[at].tag.clone();
                    assert(is_latest(context@, at as int) && tag@ == context@[at as int].tag);
                    assert(latest_tag(Some(context@), Some(tag@)));
                    Some(tag)
                },
                None => {
                    assert forall|k: int| !is_latest(context@, k) by {
                        if is_latest(context@, k) {
                            assert(context@[k].qualifies());
                        }
                    }
                    assert(latest_tag(Some(context@), None));
                    None
                },
            },
            None => None,
        };
        let ghost done = entries@;
        entries.push(IndexEntry { slug: member.slug.clone(), latest });
        assert forall|k: int| 0 <= k < i implies entries@[k] == done[k] by {}
        i += 1;
    }
    entries
}

impl Site {
    /// Marks a site as built for the workspace member `member`.
    pub fn for_member(self, member: WorkspaceData) -> (site: Site)
        ensures
            site.pages == self.pages,
            site.workspace_data == Some(member),
    {
        Site { workspace_data: Some(member), pages: self.pages }
    }
}

} // verus!
