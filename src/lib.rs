//! Forecast cache and refresh engine for a desktop weather application.
//!
//! The library holds the application state and the pure transition function
//! that every event goes through; the program around it performs the effects
//! (network, database, timers) and feeds their outcomes back as events.
pub mod geocode;
pub mod location;
pub mod forecast;
pub mod refresh;
pub mod state;
pub mod queue;
pub mod laws;
pub mod views;
pub mod provider;
