use vstd::prelude::*;

verus! {

/// The two front ends an inbound request can be steered to.
#[derive(PartialEq, Eq, Structural, Clone, Copy, Debug)]
pub enum FrontEnd {
    Http,
    Rpc,
}

impl FrontEnd {
    /// The position of this front end in the steering table: HTTP first,
    /// RPC second.
    pub open spec fn index_spec(self) -> int {
        match self {
            FrontEnd::Http => 0,
            FrontEnd::Rpc => 1,
        }
    }

    pub fn index(self) -> (r: usize)
        ensures
            r == self.index_spec(),
    {
        match self {
            FrontEnd::Http => 0,
            FrontEnd::Rpc => 1,
        }
    }
}

/// The bytes of the RPC protocol marker, `application/grpc`: a declared
/// content type beginning with them marks RPC traffic.
pub open spec fn rpc_marker() -> Seq<u8> {
    seq![
        97u8,
        112u8,
        112u8,
        108u8,
        105u8,
        99u8,
        97u8,
        116u8,
        105u8,
        111u8,
        110u8,
        47u8,
        103u8,
        114u8,
        112u8,
        99u8,
    ]
}

/// Whether a declared content type carries the RPC marker: it begins with
/// `application/grpc`.
pub open spec fn has_rpc_marker_bytes(s: Seq<u8>) -> bool {
    s.len() >= rpc_marker().len() && s.take(rpc_marker().len() as int) == rpc_marker()
}

/// The content type of a request, if it declared one.
pub open spec fn opt_bytes(ct: Option<&[u8]>) -> Option<Seq<u8>> {
    match ct {
        Some(s) => Some(s@),
        None => None,
    }
}

/// The steering decision as a value: a request whose declared content type
/// begins with the RPC marker goes to the RPC front end; every other
/// request — a different content type or none at all — goes to the HTTP
/// front end.
pub open spec fn spec_selected(ct: Option<Seq<u8>>) -> FrontEnd {
    match ct {
        Some(s) => if has_rpc_marker_bytes(s) {
            FrontEnd::Rpc
        } else {
            FrontEnd::Http
        },
        None => FrontEnd::Http,
    }
}

/// One byte of the RPC marker.
fn marker_byte(i: usize) -> (r: u8)
    requires
        i < 16,
    ensures
        r == rpc_marker()[i as int],
{
    match i {
        0 => 97,
        1 => 112,
        2 => 112,
        3 => 108,
        4 => 105,
        5 => 99,
        6 => 97,
        7 => 116,
        8 => 105,
        9 => 111,
        10 => 110,
        11 => 47,
        12 => 103,
        13 => 114,
        14 => 112,
        _ => 99,
    }
}

/// Whether these content-type bytes begin with the RPC marker.
pub fn is_rpc_marker(content_type: &[u8]) -> (r: bool)
    ensures
        r == has_rpc_marker_bytes(content_type@),
{
    if content_type.len() < 16 {
        return false;
    }
    let mut i: usize = 0;
    while i < 16
        invariant
            0 <= i <= 16,
            content_type@.len() >= 16,
            forall|j: int| 0 <= j < i ==> content_type@[j] == rpc_marker()[j],
        decreases 16 - i,
    {
        if content_type[i] != marker_byte(i) {
            proof {
                assert(content_type@.take(16)[i as int] == content_type@[i as int]);
            }
            return false;
        }
        i = i + 1;
    }
    proof {
        assert(content_type@.take(16) =~= rpc_marker());
    }
    true
}

/// The steering decision: consulted once for every inbound request,
/// before any application-level parsing, and selecting exactly one front
/// end from the request's declared content type alone. It buffers nothing
/// and transforms nothing; front ends never re-inspect the marker.
pub fn select_front_end(content_type: Option<&[u8]>) -> (r: FrontEnd)
    ensures
        r == spec_selected(opt_bytes(content_type)),
{
    match content_type {
        None => FrontEnd::Http,
        Some(ct) => {
            if is_rpc_marker(ct) {
                FrontEnd::Rpc
            } else {
                FrontEnd::Http
            }
        },
    }
}

/// The steering law: a request carrying the RPC marker is steered to the
/// RPC front end and never to the HTTP front end, and a request without
/// it — another content type, or none — the other way round.
pub proof fn lemma_steering_exclusive(ct: Option<Seq<u8>>)
    ensures
        spec_selected(ct) == FrontEnd::Rpc <==> (ct matches Some(s) && has_rpc_marker_bytes(s)),
        spec_selected(ct) == FrontEnd::Http <==> !(ct matches Some(s) && has_rpc_marker_bytes(s)),
{
}

} // verus!
