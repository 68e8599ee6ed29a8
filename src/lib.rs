//! Quadrature encoder on an FPGA counter: mode descriptors, the meaning of HAL
//! status codes, and the lifecycle of the counter handle with the pins it owns.

pub mod encoder;
pub mod hal;
pub mod modes;

pub use encoder::{CounterInit, DigitalInput, Encoder, EncoderView, UsageReport};
pub use hal::{hal_result, HalError, HalResult};
pub use modes::{EncodingType, IndexingType};
