//! Account authentication core: the account model, the shape checks on
//! submitted credentials, the account-creation and login flows as
//! explicit state machines, admin resolution, and the decoding of stored
//! account rows.

pub mod error;
pub mod date;
pub mod account;
pub mod creation;
pub mod login;
pub mod admin;
pub mod store;
pub mod blog;
