//! Timing and tilt-trigger logic for a small avionics board: NMEA sentence
//! reassembly, GPS fix to PPS edge correlation, the IMU register protocol and
//! a single-shot tilt latch.
pub mod board;
pub mod civil;
pub mod correlator;
pub mod gps;
pub mod imu;
pub mod mailbox;
pub mod sentence;
pub mod tilt;
