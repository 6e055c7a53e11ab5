use vstd::prelude::*;

verus! {

use crate::board::{Board, BoardPos, PieceID};
use crate::client::ClientID;

/// A fault the server reports back to a client.
#[derive(Debug)]
pub enum Error {
    InalidMove(ClientID, PieceID, BoardPos),
}

/// A message received from a client.
pub struct MsgClient {
    pub sender: ClientID,
    pub msg: MsgServerTy,
}

/// The kinds of message the server sends.
pub enum MsgServerTy {
    Error(Error),
    Board(Board),
}

/// A message addressed to a client.
pub struct MsgServer {
    pub recipient: ClientID,
    pub msg: MsgServerTy,
}

} // verus!
