use vstd::prelude::*;

verus! {

use crate::client::ClientID;

/// Response to a connect request: the identity the server issued.
#[derive(Debug, Clone, Copy, PartialEq, Eq, Structural)]
pub struct Connect {
    pub client_id: ClientID,
}

/// Response to a client-listing request.
#[derive(Debug, Clone)]
pub struct ListClients {
    pub clients: Vec<ClientID>,
}

} // verus!
