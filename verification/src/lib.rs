//! The logic of an OCPP 1.6 server for one charging point.
//!
//! The server follows the battery of the EV and its charging sessions, schedules the charges that
//! the user plans, stops a session once the limit on the state of charge is reached, and keeps
//! what it knows in a store. What it takes in are messages and readings of the clock; what it
//! gives out are replies, calls and writes to the store.
pub mod args;
pub mod bms;
pub mod calls;
pub mod charging_point;
pub mod charging_session;
pub mod command;
pub mod database;
pub mod dispatcher;
pub mod evse;
pub mod evse_laws;
pub mod laws;
pub mod measurements;
pub mod ocpp;
pub mod plan;
pub mod profile;
pub mod schedule;
pub mod text;
pub mod time;
pub mod wire;

pub use charging_session::{ChargingSession, ChargingSessionSnapshot, ChargingSessionState};
pub use plan::ChargingPlan;
pub use schedule::{ChargingSchedule, ChargingSchedulePeriod, ChargingScheduleState};
