//! Lighting configuration for motherboard RGB controllers and its encoding
//! into the HID packets that each supported controller chip expects.

pub mod asus_strix_x670e_f;
pub mod cli;
pub mod config;
pub mod controller;
pub mod gigabyte_trx40_aorus_master;
pub mod number;
pub mod text;
pub mod transfer;
pub mod wire;
