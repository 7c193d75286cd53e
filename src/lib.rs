//! A small persisted message board: a table of write-once messages with
//! store-assigned ids, and the request logic that maps each route onto one
//! store operation and its outcome onto a reply.
use vstd::prelude::*;

pub mod clock;
pub mod handlers;
pub mod message;
pub mod store;


pub use message::{FetchedMessage, StoreError};
pub use store::{delete_mesg, fetch_all, insert_data, MessageTable};
