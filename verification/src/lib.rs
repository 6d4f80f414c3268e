//! Generation of systemd unit files from a flat record of options.
//!
//! A [`options::Service`] record is checked
//! ([`options::Service::validate`]) and then rendered into the text of a
//! `.service` unit and, when a timer is asked for, of a `.timer` unit. The
//! rendered text is specified line by line, and the module [`laws`] proves
//! what holds of every rendering.

pub mod artifacts;
pub mod decimal;
pub mod directives;
pub mod kinds;
pub mod laws;
pub mod lines;
pub mod options;
pub mod render;
pub mod report;
pub mod resolve;
pub mod sections;
