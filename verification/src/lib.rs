pub mod board;
pub mod client;
pub mod cmd;
pub mod game;
pub mod layout;
pub mod msg;
pub mod requests;
pub mod responses;
pub mod ruleset;
