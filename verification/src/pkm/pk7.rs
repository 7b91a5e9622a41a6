//! The record of the seventh generation.

use crate::pkm::pkx::{blank, computed_checksum, plain_bytes, valid_fields, Fields, Pkx};
use crate::pkm::poke_crypto;
use crate::pkm::reader::Reader;
use crate::reader::{u16_at, u32_at, u8_at};
use crate::types::{
    Ability, AbilityNumber, Gender, Language, Move, Nature, Species, Stats,
};
use vstd::prelude::*;
use vstd::slice::{slice_subrange, slice_to_vec};

verus! {

/// A record of the seventh generation. It is kept decrypted.
pub struct Pk7 {
    data: Vec<u8>,
}

/// The bytes of a stored record.
pub type Pk7Bytes = [u8; 0xE8];

impl Pk7 {
    /// The lengths of a record and of a block of the cipher.
    pub proof fn lemma_sizes()
        ensures
            Pk7::STORED_SIZE == 0xE8,
            Pk7::PARTY_SIZE == 0x104,
            Pk7::BLOCK_SIZE == 0x38,
    {
    }
}

impl Default for Pk7 {
    /// The record of 232 zero bytes.
    fn default() -> (pkx: Self)
        ensures
            pkx.bytes() == blank(0xE8),
    {
        let data: Vec<u8> = vec![0; Pk7::STORED_SIZE];
        assert(data@ =~= blank(0xE8));
        Self { data }
    }
}

impl Reader for Pk7 {
    closed spec fn bytes(&self) -> Seq<u8> {
        self.data@
    }

    fn get_slice(&self) -> (slice: &[u8]) {
        self.data.as_slice()
    }
}

impl Pkx for Pk7 {
    const STORED_SIZE: usize = 0xE8;

    const PARTY_SIZE: usize = 0x104;

    const BLOCK_SIZE: usize = 0x38;

    open spec fn fields_of(data: Seq<u8>) -> Fields {
        Fields {
            encryption_constant: u32_at(data, 0x00),
            sanity: u16_at(data, 0x04),
            checksum: u16_at(data, 0x06),
            species: u16_at(data, 0x08),
            pid: u32_at(data, 0x18),
            tid: u16_at(data, 0x0C),
            sid: u16_at(data, 0x0E),
            nature: u8_at(data, 0x1C),
            ability: u8_at(data, 0x14) as u16,
            ability_number: u8_at(data, 0x15),
            language: u8_at(data, 0xE3),
            gender: (u8_at(data, 0x1D) >> 1) & 3,
            iv32: u32_at(data, 0x74),
            move1: u16_at(data, 0x5A),
            move2: u16_at(data, 0x5C),
            move3: u16_at(data, 0x5E),
            move4: u16_at(data, 0x60),
            evs: Stats {
                hp: u8_at(data, 0x1E),
                atk: u8_at(data, 0x1F),
                def: u8_at(data, 0x20),
                spe: u8_at(data, 0x21),
                spa: u8_at(data, 0x22),
                spd: u8_at(data, 0x23),
            },
            ot_friendship: u8_at(data, 0xCA),
            ht_friendship: u8_at(data, 0xA2),
            current_handler: u8_at(data, 0x93),
        }
    }

    /// A record is taken to be encrypted where one of the 16-bit fields at
    /// 0xC8 and 0x58 is not zero.
    open spec fn looks_encrypted(data: Seq<u8>) -> bool {
        u16_at(data, 0xc8) != 0 || u16_at(data, 0x58) != 0
    }

    proof fn geometry() {
    }

    proof fn blank_has_no_species() {
    }

    fn new_pkx(data: Vec<u8>) -> (pkx: Self) {
        Self { data }
    }

    fn is_encrypted(data: &[u8]) -> (encrypted: bool) {
        data.default_read_le_u16(0xc8) != 0 || data.default_read_le_u16(0x58) != 0
    }

    fn encryption_constant(&self) -> (value: u32) {
        self.default_read_le_u32(0x00)
    }

    fn sanity(&self) -> (value: u16) {
        self.default_read_le_u16(0x04)
    }

    fn checksum(&self) -> (value: u16) {
        self.default_read_le_u16(0x06)
    }

    fn species(&self) -> (value: Species) {
        Species(self.default_read_le_u16(0x08))
    }

    fn tid(&self) -> (value: u16) {
        self.default_read_le_u16(0x0C)
    }

    fn sid(&self) -> (value: u16) {
        self.default_read_le_u16(0x0E)
    }

    fn ability(&self) -> (value: Ability) {
        let ability: u8 = self.default_read_u8(0x14);
        Ability(ability as u16)
    }

    fn ability_number(&self) -> (value: AbilityNumber) {
        AbilityNumber::from_code(self.default_read_u8(0x15))
    }

    fn pid(&self) -> (value: u32) {
        self.default_read_le_u32(0x18)
    }

    fn nature(&self) -> (value: Nature) {
        Nature::from_code(self.default_read_u8(0x1C))
    }

    fn gender(&self) -> (value: Gender) {
        let byte: u8 = self.default_read_u8(0x1D);
        Gender::from_code((byte >> 1) & 3)
    }

    fn evs(&self) -> (value: Stats) {
        Stats {
            hp: self.default_read_u8(0x1E),
            atk: self.default_read_u8(0x1F),
            def: self.default_read_u8(0x20),
            spe: self.default_read_u8(0x21),
            spa: self.default_read_u8(0x22),
            spd: self.default_read_u8(0x23),
        }
    }

    fn move1(&self) -> (value: Move) {
        Move(self.default_read_le_u16(0x5A))
    }

    fn move2(&self) -> (value: Move) {
        Move(self.default_read_le_u16(0x5C))
    }

    fn move3(&self) -> (value: Move) {
        Move(self.default_read_le_u16(0x5E))
    }

    fn move4(&self) -> (value: Move) {
        Move(self.default_read_le_u16(0x60))
    }

    fn iv32(&self) -> (value: u32) {
        self.default_read_le_u32(0x74)
    }

    fn current_handler(&self) -> (value: u8) {
        self.default_read_u8(0x93)
    }

    fn ht_friendship(&self) -> (value: u8) {
        self.default_read_u8(0xA2)
    }

    fn ot_friendship(&self) -> (value: u8) {
        self.default_read_u8(0xCA)
    }

    fn language(&self) -> (value: Language) {
        Language::from_code(self.default_read_u8(0xE3))
    }

    fn calculate_checksum(&self) -> (sum: u16) {
        poke_crypto::calculate_checksum(
            slice_subrange(self.data.as_slice(), 8, Pk7::STORED_SIZE),
        )
    }
}

impl From<Pk7Bytes> for Pk7 {
    /// The record that `data` holds where it is valid, else the record of
    /// 232 zero bytes.
    fn from(data: Pk7Bytes) -> (pkm: Self)
        ensures
            ({
                let plain = plain_bytes(data@, Pk7::looks_encrypted(data@), 0x38);
                pkm.bytes() == if valid_fields(
                    Pk7::fields_of(plain),
                    computed_checksum(plain, 0xE8),
                ) {
                    plain
                } else {
                    blank(0xE8)
                }
            }),
    {
        Self::new_or_default(slice_to_vec(data.as_slice()))
    }
}

impl vstd::std_specs::convert::FromSpecImpl<Pk7Bytes> for Pk7 {
    /// What `from` gives is said of its bytes, by the contract of `from`.
    open spec fn obeys_from_spec() -> bool {
        false
    }

    open spec fn from_spec(data: Pk7Bytes) -> Self {
        arbitrary()
    }
}

} // verus!
