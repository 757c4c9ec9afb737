//! Verified core of a world-clock applet: the timezone catalogue and
//! validation subsystem, and the list-editing state machine that maintains an
//! ordered list of validated-or-errored timezone entries.
//!
//! Widget rendering, window lifecycle, timers and the configuration store
//! itself are external collaborators: this crate only decides, for every edit
//! command, what the new entry list is and whether a snapshot may be saved.

pub mod config;
pub mod editor;
pub mod tz;
