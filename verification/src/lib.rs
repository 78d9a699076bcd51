//! A safe, verified model of a native GUI wrapper layer.
//!
//! The library models the machinery that a windowing toolkit builds around a
//! native window system: typed handles, per-window event tables keyed by
//! message kind, two-phase control construction (describe, then materialize),
//! message/parameter marshaling, status-bar part layout, and the main and
//! modal message pumps.
//!
//! Everything the operating system decides (the handle a window receives, the
//! current DPI, which message arrives next) enters through plain-value
//! contexts; every decision the layer itself makes is verified.  State is
//! held by one owner and mutated through checked methods: there is no shared
//! interior mutability, and the single-thread discipline of a message loop is
//! explicit in the types rather than a convention.

pub mod date_time_picker;
pub mod datetime;
pub mod error;
pub mod events;
pub mod events_bn;
pub mod events_lv;
pub mod events_mc;
pub mod events_rg;
pub mod geometry;
pub mod handle;
pub mod lifecycle;
pub mod month_calendar;
pub mod msg;
pub mod radio_button;
pub mod raw_main;
pub mod raw_modal;
pub mod status_bar;
pub mod styles;
pub mod window;
pub mod wndclass;
