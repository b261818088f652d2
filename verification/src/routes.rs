use vstd::prelude::*;

verus! {

/// The HTTP route table: one path per operation the HTTP front end serves.
///
/// The create route takes a JSON body; the get route carries the user id as
/// a path segment named `id`.
pub enum Api {
    CreateUser,
    GetUser,
}

impl From<Api> for &'static str {
    fn from(value: Api) -> (r: &'static str) {
        match value {
            Api::CreateUser => "/users",
            Api::GetUser => "/users/{id}",
        }
    }
}

impl vstd::std_specs::convert::FromSpecImpl<Api> for &'static str {
    open spec fn obeys_from_spec() -> bool {
        true
    }

    open spec fn from_spec(v: Api) -> Self {
        match v {
            Api::CreateUser => "/users",
            Api::GetUser => "/users/{id}",
        }
    }
}

} // verus!
