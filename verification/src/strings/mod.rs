//! Text as the records hold it: UTF-16 code units in little-endian order,
//! ended by a zero unit.

pub mod string_converter;
pub mod string_converter6;
pub mod string_converter7;
pub mod string_converter8;
