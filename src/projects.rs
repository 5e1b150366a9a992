use vstd::prelude::*;
use vstd::string::StringExecFns;

use crate::feed::Action;
use crate::statement::{escape_quoted, escaped, scoped, scoped_sql};

verus! {

/// Credentials a session signs in with.
#[derive(Debug, Clone)]
pub struct Credentials {
    pub user: String,
    pub pass: String,
}

/// A top-level tenancy grouping.
#[derive(Debug, Clone)]
pub struct Center {
    pub id: Option<String>,
    pub name: String,
}

/// A tenant workspace inside a center; `center` is the center's record id and
/// `token` seeds the tenant's end-user auth scope.
#[derive(Debug, Clone)]
pub struct Project {
    pub id: Option<String>,
    pub name: String,
    pub center: String,
    pub state: String,
    pub token: String,
}

/// A project with its center resolved.
#[derive(Debug, Clone)]
pub struct ProjectWithCenter {
    pub id: Option<String>,
    pub name: String,
    pub center: Center,
    pub state: String,
    pub token: String,
}

/// The hooks through which the orchestrator tells a handler about tenants.
///
/// A handler catches and reports its own failures: none reaches the caller.
pub trait ProjectsManagerTrait {
    /// A tenant that exists when the orchestrator starts.
    fn on_init(&self, project: &str, center: &str);

    /// A tenant that was just created.
    fn on_project_create(&self, project: &str, center: &str);

    fn on_project_update(&self, project: &str);

    fn on_project_delete(&self, project: &str);
}

/// What a change notification on the projects collection asks for.
#[derive(Debug, Clone, Copy, PartialEq, Eq, Structural)]
pub enum ProjectReaction {
    /// Resolve the center, start provisioning, define the auth scope's token
    /// and call every handler's `on_project_create`.
    Provision,
    /// Call every handler's `on_project_update`.
    NotifyUpdate,
    /// Call every handler's `on_project_delete`.
    NotifyDelete,
    Ignore,
}

/// The orchestrator's reaction to a notification on the projects collection.
pub open spec fn project_reaction_for(action: Action) -> ProjectReaction {
    match action {
        Action::Create => ProjectReaction::Provision,
        Action::Update => ProjectReaction::NotifyUpdate,
        Action::Delete => ProjectReaction::NotifyDelete,
        Action::Other => ProjectReaction::Ignore,
    }
}

/// Decides the orchestrator's reaction to a notification about a project.
pub fn project_reaction(action: Action) -> (r: ProjectReaction)
    ensures
        r == project_reaction_for(action),
{
    match action {
        Action::Create => ProjectReaction::Provision,
        Action::Update => ProjectReaction::NotifyUpdate,
        Action::Delete => ProjectReaction::NotifyDelete,
        Action::Other => ProjectReaction::Ignore,
    }
}

/// Defines the token of the tenant's `user_scope`; the token stands escaped
/// between single quotes, so that any token reads back as it is.
pub open spec fn token_sql(center: Seq<char>, project: Seq<char>, token: Seq<char>) -> Seq<char> {
    scoped_sql(
        center,
        project,
        "DEFINE TOKEN user_scope ON SCOPE user TYPE HS256 VALUE '"@ + escaped(token) + "';"@,
    )
}

/// The statement that defines the token of the tenant's auth scope.
pub fn define_token_sql(center: &str, project: &str, token: &str) -> (r: String)
    ensures
        r@ == token_sql(center@, project@, token@),
{
    let body = String::from_str("DEFINE TOKEN user_scope ON SCOPE user TYPE HS256 VALUE '").concat(
        escape_quoted(token).as_str(),
    ).concat("';");
    scoped(center, project, body.as_str())
}

/// The namespace that holds the template dataset.
pub const TEMPLATE_NS: &'static str = "global";

/// The database that holds the template dataset.
pub const TEMPLATE_DB: &'static str = "interventions";

/// The scratch file the template dataset is written to.
pub const DUMP_FILE: &'static str = "dump.surql";

/// The prefix of the scratch directory of a provisioning run, named after the
/// tenant so that concurrent runs do not collide.
pub open spec fn scratch_name(center: Seq<char>, project: Seq<char>) -> Seq<char> {
    "temp-"@ + center + "_"@ + project
}

/// The prefix of the scratch directory of the tenant's provisioning run.
pub fn scratch_dir_name(center: &str, project: &str) -> (r: String)
    ensures
        r@ == scratch_name(center@, project@),
{
    String::from_str("temp-").concat(center).concat("_").concat(project)
}

/// The bytes of a sequence of chunks, in order.
pub open spec fn joined_chunks(chunks: Seq<Vec<u8>>) -> Seq<u8> {
    chunks.map_values(|c: Vec<u8>| c@).flatten()
}

/// Joins the chunks of an export into the dataset they carry, in order.
pub fn assemble_export(chunks: &Vec<Vec<u8>>) -> (r: Vec<u8>)
    ensures
        r@ == joined_chunks(chunks@),
{
    let mut out: Vec<u8> = Vec::new();
    let mut i: usize = 0;
    while i < chunks.len()
        invariant
            i <= chunks.len(),
            out@ == joined_chunks(chunks@.subrange(0, i as int)),
        decreases chunks.len() - i,
    {
        let chunk = &chunks[i];
        let mut k: usize = 0;
        let ghost before = out@;
        while k < chunk.len()
            invariant
                k <= chunk.len(),
                out@ == before + chunk@.subrange(0, k as int),
            decreases chunk.len() - k,
        {
            out.push(chunk[k]);
            k = k + 1;
            assert(out@ =~= before + chunk@.subrange(0, k as int));
        }
        proof {
            let done = chunks@.subrange(0, i as int);
            assert(chunks@.subrange(0, i + 1) =~= done.push(chunks@[i as int]));
            assert(done.push(chunks@[i as int]).map_values(|c: Vec<u8>| c@) =~= done.map_values(
                |c: Vec<u8>| c@,
            ).push(chunk@));
            done.map_values(|c: Vec<u8>| c@).lemma_flatten_push(chunk@);
            assert(chunk@.subrange(0, k as int) =~= chunk@);
        }
        i = i + 1;
    }
    assert(chunks@.subrange(0, i as int) =~= chunks@);
    out
}

/// The address of the store: the host, with the port appended where one is given.
pub open spec fn address(host: Seq<char>, port: Seq<char>) -> Seq<char> {
    if port.len() == 0 {
        host
    } else {
        host + ":"@ + port
    }
}

/// The address of the store, from host and port as configured.
pub fn connection_url(host: &str, port: &str) -> (r: String)
    ensures
        r@ == address(host@, port@),
{
    if port.is_empty() {
        host.to_owned()
    } else {
        host.to_owned().concat(":").concat(port)
    }
}

/// The live-query endpoint at an address.
pub fn ws_endpoint(address: &str) -> (r: String)
    ensures
        r@ == "ws://"@ + address@,
{
    String::from_str("ws://").concat(address)
}

/// The plain-request endpoint at an address, which export and import go through.
pub fn http_endpoint(address: &str) -> (r: String)
    ensures
        r@ == "http://"@ + address@,
{
    String::from_str("http://").concat(address)
}

} // verus!
