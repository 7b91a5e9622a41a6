//! Text of the seventh generation.

use crate::strings::string_converter::{decode, text_of};
use vstd::prelude::*;

verus! {

/// The text that `data` holds: UTF-16 in little-endian order up to the first
/// zero unit, with the gender signs sanitized. The code units that the
/// Chinese games keep in the private use area are decoded as they stand.
pub fn get_string(data: &[u8]) -> (text: String)
    ensures
        text@ == text_of(data@, true),
{
    decode(data, true)
}

} // verus!
