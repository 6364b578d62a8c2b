//! Bitcoin wallet descriptors: generating them from extended keys and mnemonics, validating
//! an external/internal pair, planning the wallet they set up, and laying out output as a
//! table, with their contracts.

pub mod network;
pub mod text;
pub mod error;
pub mod output;
pub mod types;
pub mod keys;
pub mod descriptors;
pub mod descriptor_pair;
pub mod persister;
