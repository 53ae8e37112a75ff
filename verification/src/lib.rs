//! Equation compilation subsystem: a coalescing background compiler for
//! typeset equation objects, together with the pen interaction state machine
//! that decides when compilation requests may be submitted.
//!
//! The crate is organised leaves-first: fixed-point [`geometry`] and
//! [`decimal`] rendering, the [`latex`] document assembly and pipeline
//! outcome rules, backend [`config`], the stored-object models in
//! [`stroke`], the coalescing [`compiler`] worker, the [`width_picker`]
//! widget model, and the [`pen`] interaction state machine. Everything the
//! subsystem decides is stated in contracts and verified; the hosting
//! process contributes only channels, threads, timers and the external
//! typesetting processes.

pub mod compiler;
pub mod config;
pub mod decimal;
pub mod events;
pub mod geometry;
pub mod latex;
pub mod pen;
pub mod persist;
pub mod stroke;
pub mod widget_flags;
pub mod width_picker;
