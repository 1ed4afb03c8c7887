//! The job that reports on a Dler Cloud account.

pub mod account;
pub mod json;
pub mod markdown;
pub mod message;
pub mod session;
pub mod wire;

pub use account::Account;
pub use json::Json;
pub use message::Message;
pub use session::{Action, Fault, Outcome, Session, State, Step};
pub use wire::{Body, Data, Response, TOKEN_EXPIRE};
