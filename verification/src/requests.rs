use vstd::prelude::*;

verus! {

/// Request shape for connecting a new client.
#[derive(Debug, Clone, Copy, PartialEq, Eq, Structural)]
pub struct Connect;

/// Request shape for listing the connected clients.
#[derive(Debug, Clone, Copy, PartialEq, Eq, Structural)]
pub struct ListClients;

} // verus!
