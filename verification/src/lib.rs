//! In-process publish/subscribe broker with last-value-wins delivery,
//! together with the filtering and input-preparation rules of the API
//! that surrounds it.

pub mod auth;
pub mod bookmark;
pub mod broker;
pub mod dialogue;
pub mod generics;
pub mod puzzle;
pub mod user;

pub use broker::CindyBroker;
pub use broker::Subscription;
