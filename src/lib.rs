//! Binds application listeners to navigation controls: decodes the weakly
//! typed payloads a native control reports, and delivers each event to the
//! bound listener at most once, refusing deliveries to released controls and
//! re-entrant deliveries to a listener whose callback is still running.

use vstd::prelude::*;

pub mod codec;
pub mod event;
pub mod laws;
pub mod navigation;
pub mod payload;
