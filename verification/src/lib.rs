//! A small lobby-management library for a multiplayer game service.
//!
//! The heart of the library is the lobby lifecycle state machine:
//! `Pending -> Ongoing -> Finished`, with `Cancelled` reachable from
//! `Pending` and `Ongoing`, and `Finished` and `Cancelled` terminal.
//! The four operations (create, join, status, cancel) are implemented as
//! verified fetch-check-mutate-persist sequences over a storage gateway,
//! and every client-visible outcome (success, not-found, conflict,
//! storage failure) is pinned down by a contract.

pub mod api;
pub mod errors;
pub mod game;
mod ids;
pub mod laws;
pub mod lifecycle;
pub mod service;
pub mod store;
