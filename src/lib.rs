//! Session state machine, navigation history, cache freshness policy and
//! payload normalisation for a terminal school-management client.
pub mod i18n;
pub mod text;
pub mod models;
pub mod clock;
pub mod history;
pub mod app;
pub mod ordering;
pub mod cache;
pub mod sync;
pub mod handlers;
pub mod api;
