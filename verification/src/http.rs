use vstd::prelude::*;

use crate::commands::{attempt_ops, created_user, CreateUser};
use crate::ids::{parse_user_id, parsed_uuid};
use crate::models::User;
use crate::repositories::{same_policy, RepoOp, UserRepository};
use crate::services::UserService;

verus! {

/// What the HTTP front end answers, as a value: the surrounding program
/// turns it into a wire response with `status` as the code. Not-found and
/// bad-request are their own shapes, distinct from the success shapes and
/// from genuine failures.
pub enum HttpResponse {
    /// The create path accepted the command and persisted the user.
    Created(User),
    /// The create path failed in storage.
    CreateFailed,
    /// The get path found the user.
    UserFound(User),
    /// The get path found no user under the id.
    UserNotFound,
    /// The get path failed in storage.
    FetchFailed,
    /// The path segment is not a UUID: a client error, answered before
    /// any storage call.
    BadRequest,
}

impl HttpResponse {
    /// The HTTP status code of this response.
    pub open spec fn status_spec(&self) -> int {
        match self {
            HttpResponse::Created(_) => 201,
            HttpResponse::CreateFailed => 500,
            HttpResponse::UserFound(_) => 200,
            HttpResponse::UserNotFound => 404,
            HttpResponse::FetchFailed => 500,
            HttpResponse::BadRequest => 400,
        }
    }

    pub fn status(&self) -> (r: u16)
        ensures
            r == self.status_spec(),
    {
        match self {
            HttpResponse::Created(_) => 201,
            HttpResponse::CreateFailed => 500,
            HttpResponse::UserFound(_) => 200,
            HttpResponse::UserNotFound => 404,
            HttpResponse::FetchFailed => 500,
            HttpResponse::BadRequest => 400,
        }
    }
}

/// The HTTP create handler: the body, already read as a create command,
/// goes to the service's write path, and the answer says whether the user
/// now stands in the store. A thin translator: no validation and no id
/// assignment happen here.
pub fn create_user<R: UserRepository>(service: &mut UserService<R>, payload: CreateUser) -> (r:
    HttpResponse)
    ensures
        same_policy(&final(service).repo, &old(service).repo),
        (r matches HttpResponse::Created(_)) <==> old(service).repo.user_writes_accepted() && old(
            service,
        ).repo.event_writes_accepted(),
        r matches HttpResponse::Created(u) ==> {
            &&& u@ == created_user(u@.id, payload@)
            &&& u@.id != 0
            &&& final(service).repo.users() == old(service).repo.users().insert(u@.id, u@)
            &&& final(service).repo.events() == old(service).repo.events().push(u@)
            &&& final(service).repo.log() == old(service).repo.log() + attempt_ops(u@, true)
        },
        !(r matches HttpResponse::Created(_)) ==> r == HttpResponse::CreateFailed,
{
    match service.handle_create_user(payload) {
        Ok(user) => HttpResponse::Created(user),
        Err(_) => HttpResponse::CreateFailed,
    }
}

/// The HTTP get handler: the path segment is parsed as a UUID; a malformed
/// segment is answered as a client error before the repository port is
/// consulted at all, and a well-formed one goes to the service's read
/// path, with absence and storage failure kept apart.
pub fn get_user_by_id<R: UserRepository>(service: &mut UserService<R>, id: &str) -> (r:
    HttpResponse)
    ensures
        parsed_uuid(id@) is None ==> r == HttpResponse::BadRequest && *final(service) == *old(
            service,
        ),
        parsed_uuid(id@) matches Some(uid) ==> {
            &&& same_policy(&final(service).repo, &old(service).repo)
            &&& final(service).repo.users() == old(service).repo.users()
            &&& final(service).repo.events() == old(service).repo.events()
            &&& final(service).repo.log() == old(service).repo.log().push(
                RepoOp::FindUser { id: uid },
            )
            &&& (r matches HttpResponse::UserFound(u) ==> old(service).repo.users().dom().contains(
                uid,
            ) && u@ == old(service).repo.users()[uid])
            &&& ((r matches HttpResponse::UserFound(_)) <==> old(service).repo.reads_accepted()
                && old(service).repo.users().dom().contains(uid))
            &&& (r == HttpResponse::UserNotFound <==> old(service).repo.reads_accepted() && !old(
                service,
            ).repo.users().dom().contains(uid))
            &&& (r == HttpResponse::FetchFailed <==> !old(service).repo.reads_accepted())
        },
{
    match parse_user_id(id) {
        None => HttpResponse::BadRequest,
        Some(uid) => {
            match service.handle_get_user_by_id(uid) {
                Ok(Some(user)) => HttpResponse::UserFound(user),
                Ok(None) => HttpResponse::UserNotFound,
                Err(_) => HttpResponse::FetchFailed,
            }
        },
    }
}

} // verus!
