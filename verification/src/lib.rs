//! The coordination core of a terminal podcast manager.
//!
//! - [`types`] and [`messages`]: the plain data of podcasts, episodes and
//!   the messages that the controller exchanges.
//! - [`store`]: the ordered store that holds the model, keyed by identifier,
//!   with a canonical order and a filtered order.
//! - [`merge`]: the rules that reconcile a fetched feed with the stored
//!   episodes.
//! - [`filters`] and [`sorting`]: which episodes are shown, and in which
//!   order podcasts are listed.
//! - [`main_controller`], [`episodes`] and [`downloads`]: the controller's
//!   state and its handlers.
//! - [`worker`]: the retry policy of background jobs.
//! - [`db`] and [`text`]: what is computed around storage and for display.
//!
//! Storage, network, disk and threads are the caller's business: a handler
//! takes what the outside world has answered and returns what to do next.

pub mod db;
pub mod downloads;
pub mod episodes;
pub mod filters;
pub mod main_controller;
pub mod merge;
pub mod messages;
pub mod sorting;
pub mod store;
pub mod text;
pub mod types;
pub mod worker;
