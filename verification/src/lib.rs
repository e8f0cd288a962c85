//! Messages: what they are, what is shown of them, and what becomes of them.

pub mod chat;
pub mod column;
pub mod constants;
pub mod context;
pub mod effect;
pub mod info;
pub mod load;
pub mod lot;
pub mod message;
pub mod msgid;
pub mod param;
pub mod path;
pub mod receipts;
pub mod seen;
pub mod setup;
pub mod sql;
pub mod state;
pub mod store;
pub mod stored;
pub mod suffix;
pub mod summary;
pub mod text;
