//! Control logic for the servo and BLDC units of a two-board robot.
pub mod output;
pub mod pwm;
pub mod servo;
pub mod bldc;
pub mod bank;
pub mod batt;
pub mod legs;
pub mod link;
pub mod laws;
pub mod types;
pub mod wire;
