//! Records a post action (create, edit, soft-delete) as an event attributed to
//! the wallet that signed the invoking transaction.
pub mod accounts;
pub mod event;
pub mod host;
pub mod smart_contract;

pub use accounts::{AccountError, LogPost};
pub use event::PostLogged;
pub use smart_contract::{invoke_log_post, log_post};
