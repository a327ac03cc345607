//! A visitor counter backed by SQLite.
//!
//! The library keeps one count per visitor name in a `visitors` table and
//! mirrors the counts it has written in an in-process cache. Every function
//! here is verified; the few calls into `rusqlite` stand behind contracts
//! that are stated, and trusted, in `store` and `error`.

pub mod cache;
pub mod counter;
pub mod decimal;
pub mod error;
pub mod greeting;
pub mod laws;
pub mod model;
pub mod record;
pub mod response;
pub mod store;

pub use cache::CountCache;
pub use counter::{plan_visit, settle_visit, VisitorCounter};
pub use error::{CounterError, StoreError};
pub use greeting::{failure_message, greeting, hello, index, respond};
pub use model::MAX_COUNT;
pub use record::VisitorRecord;
pub use response::{internal_server_error, ok, ContentType, Response, Status};
pub use store::{step_after_update, PersistentStore, WriteStep};
