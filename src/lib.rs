//! Watches the CISA Known Exploited Vulnerabilities catalog for new releases.
//!
//! - `model`: the catalog document and its entries, with their views.
//! - `json` and `document`: reading a document from JSON and writing it back.
//! - `detector`: the state machine that decides, one run at a time, whether
//!   the catalog has a new release, and what to save and whom to notify.
//! - `session`: the detector run against a model of its surroundings, and
//!   what every run does to the snapshot and the notifier.
//! - `notifier`: whether a push notification can be sent, and its text.
//!
//! The program around the library performs the file, network and
//! notification work that the detector asks for.

use vstd::prelude::*;

pub mod json;
pub mod model;
pub mod document;
pub mod detector;
pub mod session;
pub mod notifier;
