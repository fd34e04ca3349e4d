//! Verified core of a minimal hardware-accelerated rendering host.
//!
//! The host opens a window, acquires a GPU device, and presents a single
//! static colored triangle. This crate holds the part of that host that is
//! pure logic: the vertex layout and the constant triangle, the choice of a
//! surface format, the surface configuration and its resize rules, the
//! per-frame plan, and the event-pump decisions. An unverified shell performs
//! the windowing and GPU calls and consults these functions for every
//! decision it takes.

pub mod pipeline;
pub mod session;
pub mod shell;
pub mod surface;
pub mod vertex;
