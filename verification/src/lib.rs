//! Reassembly of 65C816 disassembly traces.
//!
//! The lines of a trace are read into code, data and comments (`line`).
//! Labels are made for the addresses that the code and the data refer to
//! (`label`), by the rules of the memory map (`address`) and under the
//! configuration (`config`). Each line is written back as assembler source
//! with labels in place of addresses (`code`, `data`), one file for each
//! bank and one for the labels that stand nowhere in the banks (`driver`).

pub mod address;
pub mod code;
pub mod config;
pub mod data;
pub mod driver;
pub mod endian;
pub mod label;
pub mod line;
pub mod opcode;
pub mod order;
pub mod pattern;
pub mod text;
pub mod token;
