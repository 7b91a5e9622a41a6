//! What a record says, whatever the layout of its bytes, and how a record is
//! made from bytes that may be encrypted.

use crate::pkm::poke_crypto;
use crate::pkm::poke_crypto::{decrypted, encrypted};
use crate::pkm::reader::Reader;
use crate::pkx::{
    friendship_of, hidden_power_of, is_egg_of, is_shiny_of, is_valid_of, ivs_of,
    lemma_iv_in_range, lemma_parity_bits, lemma_psv_in_range, psv_of, shiny_type_of, tsv_of,
};
use crate::poke_crypto::checksum_of;
use crate::types::{
    Ability, AbilityNumber, Gender, HiddenPower, Language, Move, Nature, Shiny, Species, Stats,
};
use vstd::prelude::*;
use vstd::slice::slice_to_vec;

verus! {

/// The raw fields of a record, as a generation's layout gives them.
pub struct Fields {
    pub encryption_constant: u32,
    pub sanity: u16,
    pub checksum: u16,
    pub species: u16,
    pub pid: u32,
    pub tid: u16,
    pub sid: u16,
    pub nature: u8,
    pub ability: u16,
    pub ability_number: u8,
    pub language: u8,
    pub gender: u8,
    pub iv32: u32,
    pub move1: u16,
    pub move2: u16,
    pub move3: u16,
    pub move4: u16,
    pub evs: Stats,
    pub ot_friendship: u8,
    pub ht_friendship: u8,
    pub current_handler: u8,
}

/// The record of `len` zero bytes.
pub open spec fn blank(len: nat) -> Seq<u8> {
    Seq::new(len, |i: int| 0u8)
}

/// Whether `len` is one of the two lengths of a record.
pub open spec fn valid_size(len: nat, stored_size: usize, party_size: usize) -> bool {
    len == stored_size || len == party_size
}

/// The plain bytes of a buffer: decrypted where the buffer is taken to be
/// encrypted, else as they are.
pub open spec fn plain_bytes(data: Seq<u8>, looks_encrypted: bool, block_size: usize) -> Seq<u8> {
    if looks_encrypted {
        decrypted(data, block_size as int)
    } else {
        data
    }
}

/// The encrypted bytes of a buffer: as they are where the buffer is taken to
/// be encrypted, else encrypted.
pub open spec fn cipher_bytes(data: Seq<u8>, looks_encrypted: bool, block_size: usize) -> Seq<u8> {
    if looks_encrypted {
        data
    } else {
        encrypted(data, block_size as int)
    }
}

/// The checksum that plain bytes give: that of the stored region without the
/// header.
pub open spec fn computed_checksum(data: Seq<u8>, stored_size: usize) -> u16 {
    checksum_of(data.subrange(8, stored_size as int))
}

/// Whether raw fields make a valid record, given the checksum that the bytes
/// give: the sanity field is zero, the checksum in the header is the given
/// one, and there is a species.
pub open spec fn valid_fields(fields: Fields, computed: u16) -> bool {
    is_valid_of(fields.sanity, fields.checksum == computed, fields.species)
}

/// Whether the cipher can work on a buffer of `len` bytes: the keystream
/// needs whole words, the reordering four whole blocks.
pub open spec fn fits_cipher(len: nat, block_size: usize) -> bool {
    len % 2 == 0 && 8 + 4 * block_size <= len
}

/// A record of one generation, which owns its bytes.
pub trait Pkx: Sized + Reader {
    /// The length of a record as it is stored.
    const STORED_SIZE: usize;

    /// The length of a record in the party, with its battle stats.
    const PARTY_SIZE: usize;

    /// The length of each of the four blocks that the cipher reorders.
    const BLOCK_SIZE: usize;

    /// The raw fields that the layout of this generation gives for plain
    /// bytes.
    spec fn fields_of(data: Seq<u8>) -> Fields;

    /// Whether a buffer is taken to be encrypted. A plain record has zero in
    /// fields that the keystream makes nonzero.
    spec fn looks_encrypted(data: Seq<u8>) -> bool;

    /// Both lengths of a record are even and hold the header and the four
    /// blocks.
    proof fn geometry()
        ensures
            Self::STORED_SIZE % 2 == 0,
            Self::PARTY_SIZE % 2 == 0,
            8 + 4 * Self::BLOCK_SIZE <= Self::STORED_SIZE <= Self::PARTY_SIZE,
    ;

    /// The layout reads no species from a record of zero bytes.
    proof fn blank_has_no_species()
        ensures
            Self::fields_of(blank(Self::STORED_SIZE as nat)).species == 0,
    ;

    /// The record that `data` holds, decrypted where it is taken to be
    /// encrypted.
    fn new(data: Vec<u8>) -> (pkx: Self)
        requires
            Self::looks_encrypted(data@) ==> fits_cipher(data@.len(), Self::BLOCK_SIZE),
        ensures
            pkx.bytes() == plain_bytes(data@, Self::looks_encrypted(data@), Self::BLOCK_SIZE),
    {
        if Self::is_encrypted(data.as_slice()) {
            Self::new_ekx(data)
        } else {
            Self::new_pkx(data)
        }
    }

    /// The record that `data` holds, or an error where `data` has not one of
    /// the two lengths of a record.
    fn new_size_check(data: Vec<u8>) -> (result: Result<Self, &'static str>)
        ensures
            result is Ok <==> valid_size(data@.len(), Self::STORED_SIZE, Self::PARTY_SIZE),
            result matches Ok(pkx) ==> pkx.bytes() == plain_bytes(
                data@,
                Self::looks_encrypted(data@),
                Self::BLOCK_SIZE,
            ) && pkx.bytes().len() == data@.len(),
            result matches Err(message) ==> message@ == "Invalid pkx size"@,
    {
        let len: usize = data.len();
        if !(len == Self::STORED_SIZE || len == Self::PARTY_SIZE) {
            return Err("Invalid pkx size");
        }
        proof {
            Self::geometry();
        }
        let pkx = Self::new(data);
        Ok(pkx)
    }

    /// The record that the encrypted `data` holds.
    fn new_ekx(data: Vec<u8>) -> (pkx: Self)
        requires
            fits_cipher(data@.len(), Self::BLOCK_SIZE),
        ensures
            pkx.bytes() == decrypted(data@, Self::BLOCK_SIZE as int),
    {
        Self::new_pkx(Self::decrypt(data))
    }

    /// The record that `data` holds where it has one of the two lengths of a
    /// record and is valid, else the record of `STORED_SIZE` zero bytes.
    fn new_or_default(data: Vec<u8>) -> (pkm: Self)
        ensures
            ({
                let plain = plain_bytes(data@, Self::looks_encrypted(data@), Self::BLOCK_SIZE);
                pkm.bytes() == if valid_size(data@.len(), Self::STORED_SIZE, Self::PARTY_SIZE)
                    && valid_fields(
                    Self::fields_of(plain),
                    computed_checksum(plain, Self::STORED_SIZE),
                ) {
                    plain
                } else {
                    blank(Self::STORED_SIZE as nat)
                }
            }),
            valid_size(pkm.bytes().len(), Self::STORED_SIZE, Self::PARTY_SIZE),
            Self::STORED_SIZE <= pkm.bytes().len(),
    {
        let len: usize = data.len();
        proof {
            Self::geometry();
        }
        if len == Self::STORED_SIZE || len == Self::PARTY_SIZE {
            let pkm = Self::new(data);
            if pkm.is_valid() {
                return pkm;
            }
        }
        let zeros: Vec<u8> = vec![0u8; Self::STORED_SIZE];
        assert(zeros@ =~= blank(Self::STORED_SIZE as nat));
        Self::new_pkx(zeros)
    }

    /// `data`, decrypted where it is taken to be encrypted.
    fn decrypt_if_needed(data: Vec<u8>) -> (pkx: Vec<u8>)
        requires
            Self::looks_encrypted(data@) ==> fits_cipher(data@.len(), Self::BLOCK_SIZE),
        ensures
            pkx@ == plain_bytes(data@, Self::looks_encrypted(data@), Self::BLOCK_SIZE),
    {
        if Self::is_encrypted(data.as_slice()) {
            Self::decrypt(data)
        } else {
            data
        }
    }

    /// `data`, encrypted unless it is taken to be encrypted already.
    fn encrypt_if_needed(data: Vec<u8>) -> (ekx: Vec<u8>)
        requires
            !Self::looks_encrypted(data@) ==> fits_cipher(data@.len(), Self::BLOCK_SIZE),
        ensures
            ekx@ == cipher_bytes(data@, Self::looks_encrypted(data@), Self::BLOCK_SIZE),
    {
        if Self::is_encrypted(data.as_slice()) {
            data
        } else {
            Self::encrypt(data)
        }
    }

    /// Takes the cipher off `data`.
    fn decrypt(data: Vec<u8>) -> (pkx: Vec<u8>)
        requires
            fits_cipher(data@.len(), Self::BLOCK_SIZE),
        ensures
            pkx@ == decrypted(data@, Self::BLOCK_SIZE as int),
    {
        poke_crypto::decrypt(data, Self::BLOCK_SIZE)
    }

    /// Puts the cipher on `data`.
    fn encrypt(data: Vec<u8>) -> (ekx: Vec<u8>)
        requires
            fits_cipher(data@.len(), Self::BLOCK_SIZE),
        ensures
            ekx@ == encrypted(data@, Self::BLOCK_SIZE as int),
    {
        poke_crypto::encrypt(data, Self::BLOCK_SIZE)
    }

    /// The bytes of the record, encrypted.
    fn copy_encrypted(&self) -> (ekx: Vec<u8>)
        requires
            fits_cipher(self.bytes().len(), Self::BLOCK_SIZE),
        ensures
            ekx@ == encrypted(self.bytes(), Self::BLOCK_SIZE as int),
    {
        Self::encrypt(slice_to_vec(self.get_slice()))
    }

    /// The bytes of the record.
    fn copy_decrypted(&self) -> (pkx: Vec<u8>)
        ensures
            pkx@ == self.bytes(),
    {
        slice_to_vec(self.get_slice())
    }

    /// Whether the record has one of the two lengths of a record.
    fn is_valid_size(&self) -> (valid: bool)
        ensures
            valid == valid_size(self.bytes().len(), Self::STORED_SIZE, Self::PARTY_SIZE),
    {
        let len: usize = self.get_slice().len();
        len == Self::STORED_SIZE || len == Self::PARTY_SIZE
    }

    /// The record that the plain `data` holds.
    fn new_pkx(data: Vec<u8>) -> (pkx: Self)
        ensures
            pkx.bytes() == data@,
    ;

    fn is_encrypted(data: &[u8]) -> (encrypted: bool)
        ensures
            encrypted == Self::looks_encrypted(data@),
    ;

    /// The encryption constant, which is the seed of the cipher.
    fn encryption_constant(&self) -> (value: u32)
        ensures
            value == Self::fields_of(self.bytes()).encryption_constant,
    ;

    /// The sanity field, which is zero in a sound record.
    fn sanity(&self) -> (value: u16)
        ensures
            value == Self::fields_of(self.bytes()).sanity,
    ;

    /// The checksum that the record's header holds.
    fn checksum(&self) -> (value: u16)
        ensures
            value == Self::fields_of(self.bytes()).checksum,
    ;

    /// The species.
    fn species(&self) -> (value: Species)
        ensures
            value == Species(Self::fields_of(self.bytes()).species),
    ;

    /// The personality value.
    fn pid(&self) -> (value: u32)
        ensures
            value == Self::fields_of(self.bytes()).pid,
    ;

    /// The public id of the first trainer.
    fn tid(&self) -> (value: u16)
        ensures
            value == Self::fields_of(self.bytes()).tid,
    ;

    /// The secret id of the first trainer.
    fn sid(&self) -> (value: u16)
        ensures
            value == Self::fields_of(self.bytes()).sid,
    ;

    /// The nature.
    fn nature(&self) -> (value: Nature)
        ensures
            value == Nature::of_code(Self::fields_of(self.bytes()).nature),
    ;

    /// The ability.
    fn ability(&self) -> (value: Ability)
        ensures
            value == Ability(Self::fields_of(self.bytes()).ability),
    ;

    /// The ability number.
    fn ability_number(&self) -> (value: AbilityNumber)
        ensures
            value == AbilityNumber::of_code(Self::fields_of(self.bytes()).ability_number),
    ;

    /// The language.
    fn language(&self) -> (value: Language)
        ensures
            value == Language::of_code(Self::fields_of(self.bytes()).language),
    ;

    /// The gender.
    fn gender(&self) -> (value: Gender)
        ensures
            value == Gender::of_code(Self::fields_of(self.bytes()).gender),
    ;

    /// The packed word of the six individual values and two flags.
    fn iv32(&self) -> (value: u32)
        ensures
            value == Self::fields_of(self.bytes()).iv32,
    ;

    /// The first move.
    fn move1(&self) -> (value: Move)
        ensures
            value == Move(Self::fields_of(self.bytes()).move1),
    ;

    /// The second move.
    fn move2(&self) -> (value: Move)
        ensures
            value == Move(Self::fields_of(self.bytes()).move2),
    ;

    /// The third move.
    fn move3(&self) -> (value: Move)
        ensures
            value == Move(Self::fields_of(self.bytes()).move3),
    ;

    /// The fourth move.
    fn move4(&self) -> (value: Move)
        ensures
            value == Move(Self::fields_of(self.bytes()).move4),
    ;

    /// The six effort values.
    fn evs(&self) -> (value: Stats)
        ensures
            value == Self::fields_of(self.bytes()).evs,
    ;

    /// The friendship with the first trainer.
    fn ot_friendship(&self) -> (value: u8)
        ensures
            value == Self::fields_of(self.bytes()).ot_friendship,
    ;

    /// The friendship with the handler.
    fn ht_friendship(&self) -> (value: u8)
        ensures
            value == Self::fields_of(self.bytes()).ht_friendship,
    ;

    /// Who handles the creature now: 0 for the first trainer.
    fn current_handler(&self) -> (value: u8)
        ensures
            value == Self::fields_of(self.bytes()).current_handler,
    ;

    /// The checksum of the record as its bytes give it: that of the stored
    /// region without the header.
    fn calculate_checksum(&self) -> (sum: u16)
        requires
            Self::STORED_SIZE <= self.bytes().len(),
        ensures
            sum == computed_checksum(self.bytes(), Self::STORED_SIZE),
    ;

    /// The trainer shiny value.
    fn tsv(&self) -> (value: u16)
        ensures
            value == tsv_of(
                Self::fields_of(self.bytes()).tid,
                Self::fields_of(self.bytes()).sid,
            ),
    {
        (self.tid() ^ self.sid()) >> 4
    }

    /// The personality shiny value.
    fn psv(&self) -> (value: u16)
        ensures
            value == psv_of(Self::fields_of(self.bytes()).pid),
    {
        let pid: u32 = self.pid();
        proof {
            lemma_psv_in_range(pid);
        }
        let psv: u32 = ((pid >> 16) ^ (pid & 0xffff)) >> 4;
        psv as u16
    }

    /// Whether the record is valid and its two shiny values are equal.
    fn is_shiny(&self) -> (shiny: bool)
        requires
            Self::STORED_SIZE <= self.bytes().len(),
        ensures
            shiny == is_shiny_of(
                valid_fields(
                Self::fields_of(self.bytes()),
                computed_checksum(self.bytes(), Self::STORED_SIZE),
            ),
                Self::fields_of(self.bytes()).tid,
                Self::fields_of(self.bytes()).sid,
                Self::fields_of(self.bytes()).pid,
            ),
    {
        self.is_valid() && self.psv() == self.tsv()
    }

    /// The shiny type: none where the record is not valid, else the class of
    /// the shiny classification value.
    fn shiny_type(&self) -> (shiny: Option<Shiny>)
        requires
            Self::STORED_SIZE <= self.bytes().len(),
        ensures
            shiny == shiny_type_of(
                valid_fields(
                Self::fields_of(self.bytes()),
                computed_checksum(self.bytes(), Self::STORED_SIZE),
            ),
                Self::fields_of(self.bytes()).tid,
                Self::fields_of(self.bytes()).sid,
                Self::fields_of(self.bytes()).pid,
            ),
    {
        if !self.is_valid() {
            return None;
        }
        let pid: u32 = self.pid();
        proof {
            lemma_psv_in_range(pid);
        }
        let shiny_value: u16 = self.tid() ^ self.sid() ^ ((pid & 0xffff) as u16) ^ ((pid
            >> 16) as u16);

        if shiny_value == 0 {
            Some(Shiny::Square)
        } else if shiny_value < 16 {
            Some(Shiny::Star)
        } else {
            None
        }
    }

    /// The six individual values.
    fn ivs(&self) -> (value: Stats)
        ensures
            value == ivs_of(Self::fields_of(self.bytes()).iv32),
    {
        let iv32: u32 = self.iv32();
        proof {
            lemma_iv_in_range(iv32);
        }
        Stats {
            hp: (iv32 & 0x1F) as u8,
            atk: ((iv32 >> 5) & 0x1F) as u8,
            def: ((iv32 >> 10) & 0x1F) as u8,
            spe: ((iv32 >> 15) & 0x1F) as u8,
            spa: ((iv32 >> 20) & 0x1F) as u8,
            spd: ((iv32 >> 25) & 0x1F) as u8,
        }
    }

    /// The index of the type of Hidden Power, one of 0 to 15.
    fn hidden_power_num(&self) -> (index: u8)
        ensures
            index == hidden_power_of(ivs_of(Self::fields_of(self.bytes()).iv32)),
            index <= 15,
    {
        let ivs: Stats = self.ivs();
        proof {
            lemma_parity_bits(ivs.hp);
            lemma_parity_bits(ivs.atk);
            lemma_parity_bits(ivs.def);
            lemma_parity_bits(ivs.spe);
            lemma_parity_bits(ivs.spa);
            lemma_parity_bits(ivs.spd);
        }
        let sum: u8 = (ivs.hp & 1) + ((ivs.atk & 1) << 1) + ((ivs.def & 1) << 2) + ((ivs.spe & 1)
            << 3) + ((ivs.spa & 1) << 4) + ((ivs.spd & 1) << 5);
        ((sum as u16 * 15) / 63) as u8
    }

    /// The type of Hidden Power, which is never `Invalid`.
    fn hidden_power(&self) -> (value: HiddenPower)
        ensures
            value == HiddenPower::of_code(
                hidden_power_of(ivs_of(Self::fields_of(self.bytes()).iv32)),
            ),
            value != HiddenPower::Invalid,
    {
        HiddenPower::from_code(self.hidden_power_num())
    }

    /// The nature that the stats go by.
    fn minted_nature(&self) -> (value: Nature)
        ensures
            value == Nature::of_code(Self::fields_of(self.bytes()).nature),
    {
        self.nature()
    }

    /// Whether the creature is still an egg.
    fn is_egg(&self) -> (egg: bool)
        ensures
            egg == is_egg_of(Self::fields_of(self.bytes()).iv32),
    {
        (self.iv32() >> 30) & 1 == 1
    }

    /// The friendship that counts: that of the first trainer where the
    /// current handler is 0, else that of the handler.
    fn current_friendship(&self) -> (value: u8)
        ensures
            value == friendship_of(
                Self::fields_of(self.bytes()).current_handler,
                Self::fields_of(self.bytes()).ot_friendship,
                Self::fields_of(self.bytes()).ht_friendship,
            ),
    {
        if self.current_handler() == 0 {
            self.ot_friendship()
        } else {
            self.ht_friendship()
        }
    }

    /// Whether the sanity field is zero, the checksum in the header is the
    /// one that the bytes give, and the record has a species.
    fn is_valid(&self) -> (valid: bool)
        requires
            Self::STORED_SIZE <= self.bytes().len(),
        ensures
            valid == valid_fields(
                Self::fields_of(self.bytes()),
                computed_checksum(self.bytes(), Self::STORED_SIZE),
            ),
    {
        self.sanity() == 0 && self.checksum() == self.calculate_checksum()
            && !self.species().is_none()
    }
}

/// For a buffer of one of the two lengths of a record of generation `P`,
/// decryption undoes encryption and encryption undoes decryption.
pub proof fn lemma_round_trip<P: Pkx>(data: Seq<u8>)
    requires
        valid_size(data.len(), P::STORED_SIZE, P::PARTY_SIZE),
    ensures
        decrypted(encrypted(data, P::BLOCK_SIZE as int), P::BLOCK_SIZE as int) == data,
        encrypted(decrypted(data, P::BLOCK_SIZE as int), P::BLOCK_SIZE as int) == data,
{
    P::geometry();
    poke_crypto::lemma_decrypt_encrypt(data, P::BLOCK_SIZE as int);
    poke_crypto::lemma_encrypt_decrypt(data, P::BLOCK_SIZE as int);
}

/// Encrypting a buffer that is taken to be encrypted leaves it as it is, and
/// so does decrypting one that is not.
pub proof fn lemma_guards_leave_unchanged(data: Seq<u8>, block_size: usize)
    ensures
        cipher_bytes(data, true, block_size) == data,
        plain_bytes(data, false, block_size) == data,
{
}

/// The record of zero bytes, which stands in for bytes that make no valid
/// record, is not valid itself, so it is neither shiny nor of a shiny type.
pub proof fn lemma_fallback_not_valid<P: Pkx>()
    ensures
        ({
            let zeros = blank(P::STORED_SIZE as nat);
            let fields = P::fields_of(zeros);
            let valid = valid_fields(fields, computed_checksum(zeros, P::STORED_SIZE));
            &&& !valid
            &&& !is_shiny_of(valid, fields.tid, fields.sid, fields.pid)
            &&& shiny_type_of(valid, fields.tid, fields.sid, fields.pid) is None
        }),
{
    P::blank_has_no_species();
}

} // verus!
