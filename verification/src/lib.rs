//! The decision logic of an image-hosting backend.
//!
//! A request is handled in steps. The function named after it takes the parts of the request and
//! says what the store is to be asked; what the store, the disk or another server answers is handed
//! to the next step, until one ends in the response or in a `reply::Rejection`. The server around
//! this library only carries the steps out. Requests that need a user take a `session::Session`,
//! which only a successful authentication gives.
//!
//! `model` says what the statements do to the tables and proves what the requests achieve there;
//! `listings` does so for the lists that are read from them.

pub mod accounts;
pub mod credentials;
pub mod discord;
pub mod favorites;
pub mod gallery;
pub mod listings;
pub mod media;
pub mod model;
pub mod reply;
pub mod session;
pub mod store;
pub mod tagging;
pub mod tags;
pub mod text;
