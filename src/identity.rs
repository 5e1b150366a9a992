use vstd::prelude::*;
use vstd::string::StringExecFns;

use crate::feed::Action;
use crate::statement::{scoped, scoped_sql};
use crate::user::{same_text, IntervUser, UserState};

verus! {

/// The composite read of a new join: the joined project's center and name,
/// and the role the user holds in that center.
pub const RESOLVE_JOIN: &'static str = "SELECT out.center.name AS center, out.name AS name, (<-users->roled[WHERE out IS $parent.out.center].role)[0] AS role FROM ONLY $b_id;";

/// Creates the tenant identity `$b_user_id` with role `$b_role`.
pub const CREATE_IDENTITY: &'static str = "CREATE $b_user_id SET role = $b_role;";

/// Writes `$b_state` onto the join `$b_join_id`.
pub const SET_JOIN_STATE: &'static str = "UPDATE $b_join_id SET state = $b_state;";

/// Reads the latest score of the identity `$b_id` into `$q_score`.
pub const READ_SCORE: &'static str = "LET $q_score = SELECT VALUE score FROM ONLY (SELECT created, score FROM ONLY scores WHERE user IS $b_id ORDER BY created DESC LIMIT 1) LIMIT 1; ";

/// Switches to the global scope, where the joins live.
pub const GLOBAL_SCOPE: &'static str = "USE NS global DB main; ";

/// Fails the transaction, and so leaves join and project as they were, where
/// the identity has no score.
pub const SCORE_GUARD: &'static str = "IF $q_score = NONE { THROW 'no score recorded for the identity' }; ";

pub const BEGIN: &'static str = "BEGIN TRANSACTION; ";

pub const COMMIT: &'static str = "COMMIT TRANSACTION;";

/// Writes state, score and time of update onto the join of the identity `$b_id`.
pub const CLOSE_JOIN: &'static str = "UPDATE join SET state = $b_state, score = $q_score, updated = time::now() WHERE in IS $b_id; ";

/// Clears the project of the identity `$b_id`.
pub const CLEAR_PROJECT: &'static str = "UPDATE $b_id SET project = NONE; ";

/// Writes state and time of update, and nothing else, onto the join of the identity `$b_id`.
pub const TOUCH_JOIN: &'static str = "UPDATE join SET state = $b_state, updated = time::now() WHERE in IS $b_id;";

/// Where a new join points: the tenant (center and project) and the user's role there.
pub struct JoinTarget {
    pub center: String,
    pub project: String,
    pub role: String,
}

/// Only these roles are provisioned without an operator.
pub open spec fn is_self_service(role: Seq<char>) -> bool {
    role == "participant"@ || role == "guest"@
}

/// Whether a role is provisioned without an operator.
pub fn is_self_service_role(role: &str) -> (r: bool)
    ensures
        r == is_self_service(role@),
{
    same_text(role, "participant") || same_text(role, "guest")
}

/// The statement that creates the identity in the tenant of `center` and `project`.
pub open spec fn identity_sql(center: Seq<char>, project: Seq<char>) -> Seq<char> {
    scoped_sql(center, project, CREATE_IDENTITY@)
}

/// What a new join leads to: the statement creating the tenant identity, or
/// nothing for a role that is not provisioned.
pub open spec fn provisioning(t: JoinTarget) -> Option<Seq<char>> {
    if is_self_service(t.role@) {
        Some(identity_sql(t.center@, t.project@))
    } else {
        None
    }
}

/// Only a newly created join is provisioned.
pub fn provisions_on(action: Action) -> (r: bool)
    ensures
        r == (action == Action::Create),
{
    action == Action::Create
}

/// Plans the reaction to a new join: the statement creating the identity in
/// the join's tenant, or `None` for a role that is not provisioned.
pub fn plan_provisioning(target: &JoinTarget) -> (r: Option<String>)
    ensures
        match r {
            Some(s) => provisioning(*target) == Some(s@),
            None => provisioning(*target) is None,
        },
{
    if is_self_service_role(target.role.as_str()) {
        Some(scoped(target.center.as_str(), target.project.as_str(), CREATE_IDENTITY))
    } else {
        None
    }
}

/// The state written onto the join once the identity was created, or nothing
/// where the creation failed.
pub open spec fn join_state_written(created: Option<IntervUser>) -> Option<Seq<char>> {
    match created {
        Some(u) => Some(u.state.label()),
        None => None,
    }
}

/// The state to write onto the join, given the identity that was created,
/// or `None` where the creation failed.
pub fn joined_state(created: &Option<IntervUser>) -> (r: Option<String>)
    ensures
        match r {
            Some(s) => join_state_written(*created) == Some(s@),
            None => join_state_written(*created) is None,
        },
{
    match created {
        Some(u) => Some(u.state.to_label()),
        None => None,
    }
}

/// How the join follows a change of the tenant identity.
#[derive(Debug, Clone, Copy, PartialEq, Eq, Structural)]
pub enum JoinSync {
    Ignore,
    /// Record state and latest score and release the project, in one transaction.
    Close,
    /// Record state and time of update only.
    Touch,
}

/// How the join follows notification `action` about an identity now in `state`.
pub open spec fn sync_for(action: Action, state: UserState) -> JoinSync {
    if action == Action::Update {
        if state.is_terminal() {
            JoinSync::Close
        } else {
            JoinSync::Touch
        }
    } else {
        JoinSync::Ignore
    }
}

/// Decides how the join follows a notification about a tenant identity.
pub fn plan_join_sync(action: Action, state: UserState) -> (r: JoinSync)
    ensures
        r == sync_for(action, state),
{
    match action {
        Action::Update => match state {
            UserState::Completed | UserState::Exited => JoinSync::Close,
            UserState::Active | UserState::Standby => JoinSync::Touch,
        },
        _ => JoinSync::Ignore,
    }
}

/// `body` run as one transaction.
pub open spec fn transaction_sql(body: Seq<char>) -> Seq<char> {
    BEGIN@ + body + COMMIT@
}

/// The batch that closes a join: it reads the score in the tenant, then,
/// inside one transaction, fails where there is no score, and otherwise
/// updates the join and releases the project.
pub open spec fn close_sql(center: Seq<char>, project: Seq<char>) -> Seq<char> {
    scoped_sql(
        center,
        project,
        READ_SCORE@ + GLOBAL_SCOPE@ + transaction_sql(SCORE_GUARD@ + CLOSE_JOIN@ + CLEAR_PROJECT@),
    )
}

/// The single write that touches a join.
pub open spec fn touch_sql() -> Seq<char> {
    GLOBAL_SCOPE@ + TOUCH_JOIN@
}

/// The batch that closes the join of an identity of tenant `center`/`project`.
pub fn close_join_sql(center: &str, project: &str) -> (r: String)
    ensures
        r@ == close_sql(center@, project@),
{
    let body = String::from_str(READ_SCORE).concat(GLOBAL_SCOPE).concat(BEGIN).concat(
        SCORE_GUARD,
    ).concat(CLOSE_JOIN).concat(CLEAR_PROJECT).concat(COMMIT);
    scoped(center, project, body.as_str())
}

/// The write that touches the join of an identity.
pub fn touch_join_sql() -> (r: String)
    ensures
        r@ == touch_sql(),
{
    String::from_str(GLOBAL_SCOPE).concat(TOUCH_JOIN)
}

/// A join whose user holds a self-service role creates exactly one identity,
/// in the join's own tenant, with that role bound; once the identity exists the
/// join takes on its state.
pub proof fn lemma_self_service_join_is_provisioned(t: JoinTarget, created: IntervUser)
    requires
        is_self_service(t.role@),
    ensures
        provisioning(t) == Some(scoped_sql(t.center@, t.project@, CREATE_IDENTITY@)),
        join_state_written(Some(created)) == Some(created.state.label()),
{
}

/// A join with any other role creates no identity; nothing is then written
/// onto the join.
pub proof fn lemma_other_role_is_ignored(t: JoinTarget)
    requires
        !is_self_service(t.role@),
    ensures
        provisioning(t) is None,
        join_state_written(None) is None,
{
}

/// An identity that completes or exits closes its join: one batch reads the
/// latest score, then updates the join and releases the project inside a
/// single transaction, so both writes land together or not at all; the guard
/// that opens the transaction makes a missing score fail it, with no write.
pub proof fn lemma_terminal_state_closes_join(state: UserState, center: Seq<char>, project: Seq<char>)
    requires
        state.is_terminal(),
    ensures
        sync_for(Action::Update, state) == JoinSync::Close,
        close_sql(center, project) == scoped_sql(
            center,
            project,
            READ_SCORE@ + GLOBAL_SCOPE@ + transaction_sql(
                SCORE_GUARD@ + CLOSE_JOIN@ + CLEAR_PROJECT@,
            ),
        ),
{
}

/// An identity that becomes active or stands by only touches its join: a
/// single write of state and time of update.
pub proof fn lemma_progress_state_touches_join(state: UserState)
    requires
        state == UserState::Active || state == UserState::Standby,
    ensures
        sync_for(Action::Update, state) == JoinSync::Touch,
        touch_sql() == GLOBAL_SCOPE@ + TOUCH_JOIN@,
{
}

} // verus!
