use vstd::prelude::*;

verus! {

/// A connected client's identity, as issued by the session layer and
/// echoed in its request/response shapes.
#[derive(Debug, Clone, Copy, PartialEq, Eq, Hash, Structural)]
pub struct ClientID(pub u64);

} // verus!
