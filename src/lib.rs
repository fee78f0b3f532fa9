//! Tray reconciliation engine for the switchly desktop control surface:
//! quota labels, menu rendering, action dispatch and window lifecycle rules,
//! all stated as contracts over mathematical models.
pub mod percent;
pub mod text;
pub mod model;
pub mod label;
pub mod menu;
pub mod dispatch;
pub mod control;
pub mod lifecycle;
pub mod laws;
