//! Core logic of a desktop telemetry companion for a home-automation hub:
//! a fixed catalog of host sensors with per-sensor enablement, a collector
//! that turns metric readings into wire-ready sensor values, and a
//! registration/push protocol client with webhook-invalidation recovery.
pub mod commands;
pub mod errors;
pub mod ha_client;
pub mod numfmt;
pub mod polling;
pub mod registration;
pub mod sensors;
pub mod settings;
pub mod strutil;

use vstd::prelude::*;

verus! {

} // verus!
