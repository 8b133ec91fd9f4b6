//! Core of a pickup-sport matchmaking service: session admission control,
//! game settlement, and a Glicko-2 based rating update engine.
//!
//! The three components are pure over plain values; persistence and transport
//! are left to the surrounding application, which feeds rows in and writes
//! rows back out.

pub mod admission;
pub mod domain;
pub mod rating;
pub mod requests;
pub mod settlement;
