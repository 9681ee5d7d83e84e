//! Wire codecs for a robotics telemetry and actuation link: a resynchronising decoder for
//! CRC-checked IMU telemetry frames, and the encoders and decoders of a CAN-over-Ethernet
//! motor protocol in its standard (11-bit identifier) and extended (29-bit identifier)
//! dialects, with the motor's parameter table and fault names.

pub mod bytes;
pub mod can;
pub mod crc;
pub mod faults;
pub mod imu;
pub mod link;
pub mod mit;
pub mod params;
pub mod private;
