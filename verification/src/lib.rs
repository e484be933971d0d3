//! Protocol layer for Linux GPIO character devices: the packed value
//! bitset, line request options, the encoding of requests and the decoding
//! of kernel records, and the decisions taken while a chip is opened and
//! its lines are read.

pub mod chip;
pub mod codec;
pub mod error;
pub mod event;
pub mod legacy;
pub mod lines;
pub mod options;
pub mod transport;
pub mod values;
pub mod wire;
