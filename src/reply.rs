use crate::id_text::{parse_id, parsed_id};
use crate::project::Project;
use crate::shared::SharedStore;
use crate::store::{lists, lookup};
use vstd::prelude::*;

verus! {

/// What a read route answers, before it is written out as HTTP.
#[derive(Debug, PartialEq, Eq)]
pub enum Reply {
    /// Every record, answered with 200 and a JSON array.
    Projects(Vec<Project>),
    /// One record, answered with 200 and a JSON object.
    Project(Project),
    /// No record under the identifier asked for: 404 with an empty body.
    NotFound,
    /// The identifier in the path is not an integer: 400.
    BadRequest,
}

impl Reply {
    /// The HTTP status code of this reply.
    pub open spec fn spec_status(&self) -> u16 {
        match self {
            Reply::Projects(_) => 200,
            Reply::Project(_) => 200,
            Reply::NotFound => 404,
            Reply::BadRequest => 400,
        }
    }

    /// The HTTP status code of this reply.
    pub fn status(&self) -> (r: u16)
        ensures
            r == self.spec_status(),
    {
        match self {
            Reply::Projects(_) => 200,
            Reply::Project(_) => 200,
            Reply::NotFound => 404,
            Reply::BadRequest => 400,
        }
    }
}

/// What the single-record route answers for the path segment `segment`
/// when the store holds `m`.
pub open spec fn project_outcome(m: Map<i32, Project>, segment: Seq<char>) -> Reply {
    match parsed_id(segment) {
        None => Reply::BadRequest,
        Some(id) => if m.contains_key(id) {
            Reply::Project(m[id])
        } else {
            Reply::NotFound
        },
    }
}

/// The reply of `GET /api/projects`: every record of the store.
pub fn list_reply(store: &SharedStore) -> (r: Reply)
    ensures
        r matches Reply::Projects(v) && lists(store.contents(), v@),
{
    Reply::Projects(store.list())
}

/// The reply of `GET /api/projects/{id}`, where `segment` is the text that
/// stands for `{id}`.
pub fn project_reply(store: &SharedStore, segment: &str) -> (r: Reply)
    ensures
        r == project_outcome(store.contents(), segment@),
{
    match parse_id(segment) {
        None => Reply::BadRequest,
        Some(id) => match store.get(id) {
            Some(p) => Reply::Project(p),
            None => Reply::NotFound,
        },
    }
}

/// An identifier that the store does not hold is not found: the lookup
/// gives nothing and the route answers 404.
pub proof fn absent_id_not_found(m: Map<i32, Project>, segment: Seq<char>, id: i32)
    requires
        parsed_id(segment) == Some(id),
        !m.contains_key(id),
    ensures
        lookup(m, id) is None,
        project_outcome(m, segment) == Reply::NotFound,
        project_outcome(m, segment).spec_status() == 404,
{
}

/// A path segment that is not an integer is a client error, never a success.
pub proof fn malformed_id_is_client_error(m: Map<i32, Project>, segment: Seq<char>)
    requires
        parsed_id(segment) is None,
    ensures
        project_outcome(m, segment) == Reply::BadRequest,
        400 <= project_outcome(m, segment).spec_status() < 500,
{
}

} // verus!
