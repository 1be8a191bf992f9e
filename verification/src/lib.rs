//! Core of a pomodoro-style desktop timer backend: the shared application
//! state (timer status plus four theme slots), the pure resolution of the
//! currently active theme, the state-update protocol that drives it, and an
//! in-memory session store with create/get/list operations.
//!
//! Everything here is plain data and verified logic. The host process owns
//! the locks, the event transport and the durable storage engine; it calls
//! into this crate with plain values and carries out the persistence and
//! publication effects these functions return.

pub mod models;
pub mod session;
pub mod state;
