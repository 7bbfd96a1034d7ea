//! Status text for tiling window-manager bars: snapshots of many producers
//! are gathered into ordered frames, written in the bar's line protocol, and
//! fanned out to socket clients, while click events are routed back.

pub mod text;
pub mod snapshot;
pub mod json;
pub mod scheduler;
pub mod router;
pub mod broadcast;
pub mod adapters;
pub mod hidpp;
pub mod producers;
pub mod timesheet;
pub mod battery;
pub mod socket;
pub mod date;
