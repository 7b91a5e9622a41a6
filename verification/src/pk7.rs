//! The record of the seventh generation, in a buffer of its stored length.

use crate::pkx::{
    friendship_of, is_egg_of, is_nicknamed_of, is_shiny_of, is_valid_of, shiny_type_of, Fields,
    Pkx,
};
use crate::poke_crypto::{checksum_of, decrypted, PokeCrypto};
use crate::reader::{u16_at, u32_at, u8_at, Reader};
use crate::strings::string_converter::text_of;
use crate::strings::string_converter7;
use vstd::prelude::*;
use vstd::slice::slice_subrange;

verus! {

/// A record of the seventh generation. It is kept decrypted.
pub struct Pk7 {
    data: [u8; 0xE8],
}

/// The raw fields that the layout of the seventh generation gives for the
/// bytes of a record.
pub open spec fn pk7_fields(bytes: Seq<u8>) -> Fields {
    Fields {
        species: u16_at(bytes, 0x08),
        nickname: text_of(bytes.subrange(0x40, 0x5a), true),
        held_item: u16_at(bytes, 0x0a),
        gender: (u8_at(bytes, 0x1d) >> 1) & 3,
        nature: u8_at(bytes, 0x1c),
        ability: u8_at(bytes, 0x14) as u16,
        current_friendship: friendship_of(
            u8_at(bytes, 0x93),
            u8_at(bytes, 0xca),
            u8_at(bytes, 0xa2),
        ),
        form: u8_at(bytes, 0x1d) >> 3,
        is_egg: is_egg_of(u32_at(bytes, 0x74)),
        is_nicknamed: is_nicknamed_of(u32_at(bytes, 0x74)),
        exp: u32_at(bytes, 0x10),
        tid16: u16_at(bytes, 0x0c),
        sid16: u16_at(bytes, 0x0e),
        ot_name: text_of(bytes.subrange(0xb0, 0xca), true),
        ot_gender: u8_at(bytes, 0xdd) >> 7,
        ball: u8_at(bytes, 0xdc),
        met_level: u8_at(bytes, 0xdd) & !0x80u8,
        move1: u16_at(bytes, 0x5a),
        move2: u16_at(bytes, 0x5c),
        move3: u16_at(bytes, 0x5e),
        move4: u16_at(bytes, 0x60),
        move1_pp: u8_at(bytes, 0x62),
        move2_pp: u8_at(bytes, 0x63),
        move3_pp: u8_at(bytes, 0x64),
        move4_pp: u8_at(bytes, 0x65),
        move1_pp_ups: u8_at(bytes, 0x66),
        move2_pp_ups: u8_at(bytes, 0x67),
        move3_pp_ups: u8_at(bytes, 0x68),
        move4_pp_ups: u8_at(bytes, 0x69),
        ev_hp: u8_at(bytes, 0x1e),
        ev_atk: u8_at(bytes, 0x1f),
        ev_def: u8_at(bytes, 0x20),
        ev_spe: u8_at(bytes, 0x21),
        ev_spa: u8_at(bytes, 0x22),
        ev_spd: u8_at(bytes, 0x23),
        status_condition: u32_at(bytes, 0xe8),
        encryption_constant: u32_at(bytes, 0x00),
        sanity: u16_at(bytes, 0x04),
        valid_checksum: u16_at(bytes, 0x06) == checksum_of(bytes.subrange(8, 0xe8)),
        pid: u32_at(bytes, 0x18),
        ability_number: u8_at(bytes, 0x15),
        language: u8_at(bytes, 0xe3),
        iv32: u32_at(bytes, 0x74),
        ot_friendship: u8_at(bytes, 0xca),
        ht_friendship: u8_at(bytes, 0xa2),
        current_handler: u8_at(bytes, 0x93),
        ht_name: text_of(bytes.subrange(0x78, 0x92), true),
    }
}

impl Default for Pk7 {
    /// The record of 232 zero bytes.
    fn default() -> (pkx: Self)
        ensures
            pkx.bytes() == Seq::new(0xE8, |i: int| 0u8),
    {
        let pkx = Self { data: [0; 0xE8] };
        assert(pkx.data@ =~= Seq::new(0xE8, |i: int| 0u8));
        pkx
    }
}

impl Reader for Pk7 {
    closed spec fn bytes(&self) -> Seq<u8> {
        self.data@
    }

    fn as_slice(&self) -> (slice: &[u8]) {
        &self.data
    }
}

impl PokeCrypto for Pk7 {
    const PARTY_SIZE: usize = 0x104;

    const STORED_SIZE: usize = 0xE8;

    const BLOCK_SIZE: usize = 0x38;

    /// A record is taken to be encrypted where one of the 16-bit fields at
    /// 0xC8 and 0x58 is not zero.
    open spec fn looks_encrypted(data: Seq<u8>) -> bool {
        u16_at(data, 0xc8) != 0 || u16_at(data, 0x58) != 0
    }

    fn is_encrypted(data: &[u8]) -> (encrypted: bool) {
        data.read_u16(0xc8) != 0 || data.read_u16(0x58) != 0
    }

    fn checksum(&self) -> (sum: u16) {
        self.read_u16(0x06)
    }
}

impl Pk7 {
    /// The record that `data` holds, decrypted where it is taken to be
    /// encrypted.
    pub fn new(data: [u8; 0xE8]) -> (pkx: Self)
        ensures
            pkx.bytes() == if Self::looks_encrypted(data@) {
                decrypted(data@, 0x38)
            } else {
                data@
            },
    {
        let mut data = data;
        Self::decrypt_raw(&mut data);
        Self { data }
    }

    /// A record has 232 bytes.
    pub proof fn lemma_len(&self)
        ensures
            self.bytes().len() == 0xE8,
    {
    }

    /// The lengths of a record and of a block of the cipher.
    pub proof fn lemma_sizes()
        ensures
            Pk7::STORED_SIZE == 0xE8,
            Pk7::PARTY_SIZE == 0x104,
            Pk7::BLOCK_SIZE == 0x38,
    {
    }

    /// The record of zero bytes is not valid, so it is neither shiny nor of a
    /// shiny type.
    pub proof fn lemma_blank_not_valid()
        ensures
            ({
                let fields = pk7_fields(Seq::new(0xE8, |i: int| 0u8));
                let valid = is_valid_of(fields.sanity, fields.valid_checksum, fields.species);
                &&& !valid
                &&& !is_shiny_of(valid, fields.tid16, fields.sid16, fields.pid)
                &&& shiny_type_of(valid, fields.tid16, fields.sid16, fields.pid) is None
            }),
    {
    }
}

impl Pkx for Pk7 {
    open spec fn fields(&self) -> Fields {
        pk7_fields(self.bytes())
    }

    fn encryption_constant(&self) -> (value: u32) {
        self.read_u32(0x00)
    }

    fn sanity(&self) -> (value: u16) {
        self.read_u16(0x04)
    }

    fn species(&self) -> (value: u16) {
        self.read_u16(0x08)
    }

    fn held_item(&self) -> (value: u16) {
        self.read_u16(0x0a)
    }

    fn tid16(&self) -> (value: u16) {
        self.read_u16(0x0c)
    }

    fn sid16(&self) -> (value: u16) {
        self.read_u16(0x0e)
    }

    fn exp(&self) -> (value: u32) {
        self.read_u32(0x10)
    }

    fn ability_number(&self) -> (value: u8) {
        self.read_u8(0x15)
    }

    fn pid(&self) -> (value: u32) {
        self.read_u32(0x18)
    }

    fn nature(&self) -> (value: u8) {
        self.read_u8(0x1c)
    }

    fn ev_hp(&self) -> (value: u8) {
        self.read_u8(0x1e)
    }

    fn ev_atk(&self) -> (value: u8) {
        self.read_u8(0x1f)
    }

    fn ev_def(&self) -> (value: u8) {
        self.read_u8(0x20)
    }

    fn ev_spe(&self) -> (value: u8) {
        self.read_u8(0x21)
    }

    fn ev_spa(&self) -> (value: u8) {
        self.read_u8(0x22)
    }

    fn ev_spd(&self) -> (value: u8) {
        self.read_u8(0x23)
    }

    fn move1(&self) -> (value: u16) {
        self.read_u16(0x5a)
    }

    fn move2(&self) -> (value: u16) {
        self.read_u16(0x5c)
    }

    fn move3(&self) -> (value: u16) {
        self.read_u16(0x5e)
    }

    fn move4(&self) -> (value: u16) {
        self.read_u16(0x60)
    }

    fn move1_pp(&self) -> (value: u8) {
        self.read_u8(0x62)
    }

    fn move2_pp(&self) -> (value: u8) {
        self.read_u8(0x63)
    }

    fn move3_pp(&self) -> (value: u8) {
        self.read_u8(0x64)
    }

    fn move4_pp(&self) -> (value: u8) {
        self.read_u8(0x65)
    }

    fn move1_pp_ups(&self) -> (value: u8) {
        self.read_u8(0x66)
    }

    fn move2_pp_ups(&self) -> (value: u8) {
        self.read_u8(0x67)
    }

    fn move3_pp_ups(&self) -> (value: u8) {
        self.read_u8(0x68)
    }

    fn move4_pp_ups(&self) -> (value: u8) {
        self.read_u8(0x69)
    }

    fn iv32(&self) -> (value: u32) {
        self.read_u32(0x74)
    }

    fn current_handler(&self) -> (value: u8) {
        self.read_u8(0x93)
    }

    fn ht_friendship(&self) -> (value: u8) {
        self.read_u8(0xa2)
    }

    fn ot_friendship(&self) -> (value: u8) {
        self.read_u8(0xca)
    }

    fn ball(&self) -> (value: u8) {
        self.read_u8(0xdc)
    }

    fn language(&self) -> (value: u8) {
        self.read_u8(0xe3)
    }

    fn status_condition(&self) -> (value: u32) {
        self.read_u32(0xe8)
    }

    fn nickname(&self) -> (value: String) {
        string_converter7::get_string(slice_subrange(self.as_slice(), 0x40, 0x5a))
    }

    fn ht_name(&self) -> (value: String) {
        string_converter7::get_string(slice_subrange(self.as_slice(), 0x78, 0x92))
    }

    fn ot_name(&self) -> (value: String) {
        string_converter7::get_string(slice_subrange(self.as_slice(), 0xb0, 0xca))
    }

    fn current_friendship(&self) -> (value: u8) {
        if self.current_handler() == 0 {
            return self.ot_friendship();
        }
        self.ht_friendship()
    }

    fn form(&self) -> (value: u8) {
        self.read_u8(0x1D) >> 3
    }

    fn is_egg(&self) -> (value: bool) {
        (self.iv32() >> 30) & 1 == 1
    }

    fn is_nicknamed(&self) -> (value: bool) {
        (self.iv32() >> 31) & 1 == 1
    }

    fn ot_gender(&self) -> (value: u8) {
        self.read_u8(0xdd) >> 7
    }

    fn met_level(&self) -> (value: u8) {
        self.read_u8(0xdd) & !0x80
    }

    fn ability(&self) -> (value: u16) {
        self.read_u8(0x14) as u16
    }

    fn gender(&self) -> (value: u8) {
        let byte: u8 = self.read_u8(0x1D);
        (byte >> 1) & 3
    }

    fn valid_checksum(&self) -> (value: bool) {
        self.checksum() == self.calculate_checksum()
    }
}

} // verus!
