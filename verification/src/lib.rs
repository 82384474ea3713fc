//! Core logic of a temperature-controlled cooling fan: a fixed-point PID
//! controller, tachometer RPM estimation from edge timing, the PWM actuator
//! lifecycle with retry-guarded setup, control-cycle orchestration, a shared
//! status snapshot, and telemetry payload rendering.
//!
//! All temperatures, throttles and controller gains are fixed-point values in
//! thousandths of a unit (milli-degrees Celsius, milli-fractions of full
//! throttle), so the control law is exact integer arithmetic.
//!
//! Hardware access (sysfs GPIO and PWM files, the temperature sensor, OS
//! signals, the MQTT socket) lives outside this library; callers perform the
//! reads and writes and feed the observed outcomes into the state machines
//! defined here.

pub mod arith;
pub mod config;
pub mod cycle;
pub mod pid;
pub mod pwm;
pub mod render;
pub mod retry;
pub mod signals;
pub mod status;
pub mod tacho;
