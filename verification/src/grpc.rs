use vstd::prelude::*;

use crate::commands::{attempt_ops, created_user, CreateUser, CreateUserView};
use crate::ids::{format_user_id, parse_user_id, parsed_uuid, uuid_text};
use crate::repositories::{same_policy, RepoOp, UserRepository};
use crate::services::UserService;

verus! {

/// The typed create request of the RPC service: the two text fields of a
/// create command, as they arrive on the wire.
pub struct CreateUserRequest {
    pub username: String,
    pub email: String,
}

impl View for CreateUserRequest {
    type V = CreateUserView;

    open spec fn view(&self) -> CreateUserView {
        CreateUserView { username: self.username@, email: self.email@ }
    }
}

/// The empty acknowledgment the RPC create answers on success.
pub struct CreateUserResponse {

}

/// The typed get request: the id as text, which must parse as a UUID.
pub struct GetUserRequest {
    pub id: String,
}

/// The typed user the RPC get answers.
pub struct GetUserResponse {
    pub id: String,
    pub username: String,
    pub email: String,
}

/// The distinguished RPC status codes: a malformed id is a client error,
/// absence is its own status, and the two storage-failure paths keep their
/// own codes.
#[derive(PartialEq, Eq, Structural, Clone, Copy, Debug)]
pub enum RpcStatus {
    /// The id in the request is not a UUID: a client error, not a crash.
    InvalidArgument,
    /// No user stands under the id.
    NotFound,
    /// The create path failed in storage.
    AlreadyExists,
    /// The read path failed in storage.
    Internal,
}

/// The RPC front end: a thin translator between the typed wire messages
/// and the domain. It owns no business logic; ids are assigned by the
/// service alone.
pub struct GrpcUserServiceImpl<R: UserRepository> {
    pub repo: UserService<R>,
}

impl<R: UserRepository> GrpcUserServiceImpl<R> {
    pub fn new(service: UserService<R>) -> (r: Self)
        ensures
            r.repo == service,
    {
        GrpcUserServiceImpl { repo: service }
    }

    /// RPC create: convert the typed request field by field into a create
    /// command and run the synchronous write path; an empty acknowledgment
    /// once persistence succeeds.
    pub fn create_user(&mut self, request: CreateUserRequest) -> (r: Result<
        CreateUserResponse,
        RpcStatus,
    >)
        ensures
            same_policy(&final(self).repo.repo, &old(self).repo.repo),
            (r is Ok) <==> old(self).repo.repo.user_writes_accepted() && old(
                self,
            ).repo.repo.event_writes_accepted(),
            r is Ok ==> exists|id: u128|
                #![trigger created_user(id, request@)]
                {
                    &&& id != 0
                    &&& final(self).repo.repo.users() == old(self).repo.repo.users().insert(
                        id,
                        created_user(id, request@),
                    )
                    &&& final(self).repo.repo.events() == old(self).repo.repo.events().push(
                        created_user(id, request@),
                    )
                    &&& final(self).repo.repo.log() == old(self).repo.repo.log() + attempt_ops(
                        created_user(id, request@),
                        true,
                    )
                },
            !old(self).repo.repo.user_writes_accepted() ==> final(self).repo.repo.users() == old(
                self,
            ).repo.repo.users() && final(self).repo.repo.events() == old(self).repo.repo.events(),
            r matches Err(s) ==> s == RpcStatus::AlreadyExists,
    {
        let command = CreateUser::from(request);
        match self.repo.handle_create_user(command) {
            Ok(user) => {
                proof {
                    assert(created_user(user@.id, request@) == user@);
                }
                Ok(CreateUserResponse {  })
            },
            Err(_) => Err(RpcStatus::AlreadyExists),
        }
    }

    /// RPC get: the id text must parse as a UUID — a malformed id is a
    /// client error answered before the repository port is consulted. A
    /// well-formed id goes to the read path; the answer carries the user
    /// with its id written back as canonical text, or the distinguished
    /// not-found or internal status.
    pub fn get_user(&mut self, request: GetUserRequest) -> (r: Result<GetUserResponse, RpcStatus>)
        ensures
            parsed_uuid(request.id@) is None ==> r == Err::<GetUserResponse, RpcStatus>(
                RpcStatus::InvalidArgument,
            ) && *final(self) == *old(self),
            parsed_uuid(request.id@) matches Some(uid) ==> {
                &&& same_policy(&final(self).repo.repo, &old(self).repo.repo)
                &&& final(self).repo.repo.users() == old(self).repo.repo.users()
                &&& final(self).repo.repo.events() == old(self).repo.repo.events()
                &&& final(self).repo.repo.log() == old(self).repo.repo.log().push(
                    RepoOp::FindUser { id: uid },
                )
                &&& (r matches Ok(resp) ==> {
                    &&& old(self).repo.repo.users().dom().contains(uid)
                    &&& resp.username@ == old(self).repo.repo.users()[uid].username
                    &&& resp.email@ == old(self).repo.repo.users()[uid].email
                    &&& resp.id@ == uuid_text(old(self).repo.repo.users()[uid].id)
                    &&& parsed_uuid(resp.id@) == Some(old(self).repo.repo.users()[uid].id)
                })
                &&& ((r is Ok) <==> old(self).repo.repo.reads_accepted() && old(
                    self,
                ).repo.repo.users().dom().contains(uid))
                &&& (r == Err::<GetUserResponse, RpcStatus>(RpcStatus::NotFound) <==> old(
                    self,
                ).repo.repo.reads_accepted() && !old(self).repo.repo.users().dom().contains(uid))
                &&& (r == Err::<GetUserResponse, RpcStatus>(RpcStatus::Internal) <==> !old(
                    self,
                ).repo.repo.reads_accepted())
            },
    {
        match parse_user_id(request.id.as_str()) {
            None => Err(RpcStatus::InvalidArgument),
            Some(uid) => {
                match self.repo.handle_get_user_by_id(uid) {
                    Ok(Some(user)) => {
                        let id_text = format_user_id(user.id);
                        Ok(
                            GetUserResponse {
                                id: id_text,
                                username: user.username,
                                email: user.email,
                            },
                        )
                    },
                    Ok(None) => Err(RpcStatus::NotFound),
                    Err(_) => Err(RpcStatus::Internal),
                }
            },
        }
    }
}

} // verus!
