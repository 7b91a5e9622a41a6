//! What a record says, whatever the layout of its bytes.
//!
//! A generation gives the raw fields; validity, shininess, individual values
//! and the type of Hidden Power follow from them in one way for all.

use crate::types::{
    Ability, AbilityNumber, Gender, HiddenPower, Language, Move, Nature, Shiny, Species, Stats,
};
use vstd::prelude::*;

verus! {

/// The trainer shiny value: the two trainer ids XORed, without the low four
/// bits.
pub open spec fn tsv_of(tid: u16, sid: u16) -> u16 {
    (tid ^ sid) >> 4
}

/// The personality shiny value: the two halves of the personality value
/// XORed, without the low four bits.
pub open spec fn psv_of(pid: u32) -> u16 {
    (((pid >> 16) ^ (pid & 0xffff)) >> 4) as u16
}

/// The class of a shiny classification value: 0 is square, 1 to 15 are star,
/// all above are not shiny.
pub open spec fn shiny_class(value: u16) -> Option<Shiny> {
    if value == 0 {
        Some(Shiny::Square)
    } else if value < 16 {
        Some(Shiny::Star)
    } else {
        None
    }
}

/// The shiny classification value: the two trainer ids and the two halves of
/// the personality value, all XORed.
pub open spec fn shiny_value_of(tid: u16, sid: u16, pid: u32) -> u16 {
    tid ^ sid ^ ((pid & 0xffff) as u16) ^ ((pid >> 16) as u16)
}

/// The shiny type of a record: none where the record is not valid, else the
/// class of its shiny classification value.
pub open spec fn shiny_type_of(valid: bool, tid: u16, sid: u16, pid: u32) -> Option<Shiny> {
    if valid {
        shiny_class(shiny_value_of(tid, sid, pid))
    } else {
        None
    }
}

/// Whether a record is shiny: it is valid and its two shiny values are equal.
pub open spec fn is_shiny_of(valid: bool, tid: u16, sid: u16, pid: u32) -> bool {
    valid && psv_of(pid) == tsv_of(tid, sid)
}

/// The individual value that starts at bit `shift` of the packed word: five
/// bits.
pub open spec fn iv_at(iv32: u32, shift: u32) -> u8 {
    ((iv32 >> shift) & 0x1F) as u8
}

/// The six individual values of the packed word. Speed comes before the two
/// special stats.
pub open spec fn ivs_of(iv32: u32) -> Stats {
    Stats {
        hp: iv_at(iv32, 0),
        atk: iv_at(iv32, 5),
        def: iv_at(iv32, 10),
        spe: iv_at(iv32, 15),
        spa: iv_at(iv32, 20),
        spd: iv_at(iv32, 25),
    }
}

/// The sum that the lowest bits of the six individual values give, with the
/// weights 1, 2, 4, 8, 16 and 32 in the order hp, attack, defense, speed,
/// special attack, special defense.
pub open spec fn parity_sum(ivs: Stats) -> int {
    (ivs.hp % 2) + 2 * (ivs.atk % 2) + 4 * (ivs.def % 2) + 8 * (ivs.spe % 2) + 16 * (ivs.spa % 2)
        + 32 * (ivs.spd % 2)
}

/// The index of the type of Hidden Power, one of 0 to 15.
pub open spec fn hidden_power_of(ivs: Stats) -> u8 {
    (parity_sum(ivs) * 15 / 63) as u8
}

/// Whether the egg flag of the packed word of individual values is set: its
/// bit 30.
pub open spec fn is_egg_of(iv32: u32) -> bool {
    (iv32 >> 30) & 1 == 1
}

/// Whether the nickname flag of the packed word of individual values is set:
/// its bit 31.
pub open spec fn is_nicknamed_of(iv32: u32) -> bool {
    (iv32 >> 31) & 1 == 1
}

/// The friendship that counts: that of the first trainer where the current
/// handler is 0, else that of the handler.
pub open spec fn friendship_of(current_handler: u8, ot_friendship: u8, ht_friendship: u8) -> u8 {
    if current_handler == 0 {
        ot_friendship
    } else {
        ht_friendship
    }
}

/// Whether a record is valid: its sanity field is zero, its checksum is the
/// one that its bytes give, and it has a species.
pub open spec fn is_valid_of(sanity: u16, valid_checksum: bool, species: u16) -> bool {
    sanity == 0 && valid_checksum && species != 0
}

/// Each five-bit field of a packed word is one of 0 to 31.
pub proof fn lemma_iv_in_range(iv32: u32)
    ensures
        (iv32 >> 0) & 0x1F == iv32 & 0x1F,
        (iv32 & 0x1F) < 32,
        ((iv32 >> 5) & 0x1F) < 32,
        ((iv32 >> 10) & 0x1F) < 32,
        ((iv32 >> 15) & 0x1F) < 32,
        ((iv32 >> 20) & 0x1F) < 32,
        ((iv32 >> 25) & 0x1F) < 32,
{
    assert((iv32 >> 0) & 0x1F == iv32 & 0x1F && (iv32 & 0x1F) < 32 && ((iv32 >> 5) & 0x1F) < 32
        && ((iv32 >> 10) & 0x1F) < 32 && ((iv32 >> 15) & 0x1F) < 32 && ((iv32 >> 20) & 0x1F) < 32
        && ((iv32 >> 25) & 0x1F) < 32) by (bit_vector);
}

/// Each of the six individual values is one of 0 to 31.
pub proof fn lemma_ivs_in_range(iv32: u32)
    ensures
        ivs_of(iv32).hp <= 31,
        ivs_of(iv32).atk <= 31,
        ivs_of(iv32).def <= 31,
        ivs_of(iv32).spe <= 31,
        ivs_of(iv32).spa <= 31,
        ivs_of(iv32).spd <= 31,
{
    lemma_iv_in_range(iv32);
}

/// Each half of a personality value has sixteen bits, and a personality
/// shiny value has twelve.
pub proof fn lemma_psv_in_range(pid: u32)
    ensures
        (pid & 0xffff) < 0x1_0000,
        (pid >> 16) < 0x1_0000,
        (((pid >> 16) ^ (pid & 0xffff)) >> 4) < 0x1000,
{
    assert((pid & 0xffff) < 0x1_0000 && (pid >> 16) < 0x1_0000 && (((pid >> 16) ^ (pid & 0xffff))
        >> 4) < 0x1000) by (bit_vector);
}

/// A record is of a shiny type just where it is shiny: the two shiny values
/// are equal just where the shiny classification value is below 16.
pub proof fn lemma_shiny_type_iff_shiny(valid: bool, tid: u16, sid: u16, pid: u32)
    ensures
        shiny_type_of(valid, tid, sid, pid) is Some <==> is_shiny_of(valid, tid, sid, pid),
{
    let low = (pid & 0xffff) as u16;
    let high = (pid >> 16) as u16;
    lemma_psv_in_range(pid);
    assert(psv_of(pid) == (high ^ low) >> 4) by (bit_vector)
        requires
            low == (pid & 0xffff) as u16,
            high == (pid >> 16) as u16,
            psv_of(pid) == (((pid >> 16) ^ (pid & 0xffff)) >> 4) as u16,
    ;
    assert(((tid ^ sid) >> 4 == (high ^ low) >> 4) <==> (tid ^ sid ^ low ^ high) < 16)
        by (bit_vector);
}

/// The lowest bit of a byte, moved up by `k` places, is its parity times the
/// `k`th power of two.
pub proof fn lemma_parity_bits(v: u8)
    ensures
        (v & 1) == v % 2,
        ((v & 1) << 1) == 2 * (v % 2),
        ((v & 1) << 2) == 4 * (v % 2),
        ((v & 1) << 3) == 8 * (v % 2),
        ((v & 1) << 4) == 16 * (v % 2),
        ((v & 1) << 5) == 32 * (v % 2),
{
    assert((v & 1) == v % 2 && ((v & 1) << 1) == 2 * (v % 2) && ((v & 1) << 2) == 4 * (v % 2) && (
    (v & 1) << 3) == 8 * (v % 2) && ((v & 1) << 4) == 16 * (v % 2) && ((v & 1) << 5) == 32 * (v
        % 2)) by (bit_vector);
}

/// The index of the type of Hidden Power is 0 where all six individual
/// values are even, and 15 where all six are odd.
pub proof fn lemma_hidden_power_bounds(ivs: Stats)
    ensures
        hidden_power_of(ivs) <= 15,
        ivs.hp % 2 == 0 && ivs.atk % 2 == 0 && ivs.def % 2 == 0 && ivs.spe % 2 == 0 && ivs.spa % 2
            == 0 && ivs.spd % 2 == 0 ==> hidden_power_of(ivs) == 0,
        ivs.hp % 2 == 1 && ivs.atk % 2 == 1 && ivs.def % 2 == 1 && ivs.spe % 2 == 1 && ivs.spa % 2
            == 1 && ivs.spd % 2 == 1 ==> hidden_power_of(ivs) == 15,
{
}

/// A record that is not valid is neither shiny nor of a shiny type, and a
/// record without a species is not valid.
pub proof fn lemma_invalid_not_shiny(
    sanity: u16,
    valid_checksum: bool,
    species: u16,
    tid: u16,
    sid: u16,
    pid: u32,
)
    requires
        sanity != 0 || !valid_checksum || species == 0,
    ensures
        !is_valid_of(sanity, valid_checksum, species),
        !is_shiny_of(is_valid_of(sanity, valid_checksum, species), tid, sid, pid),
        shiny_type_of(is_valid_of(sanity, valid_checksum, species), tid, sid, pid) is None,
{
}

/// The raw fields of a record, as a generation's layout gives them.
pub struct Fields {
    pub species: u16,
    pub nickname: Seq<char>,
    pub held_item: u16,
    pub gender: u8,
    pub nature: u8,
    pub ability: u16,
    pub current_friendship: u8,
    pub form: u8,
    pub is_egg: bool,
    pub is_nicknamed: bool,
    pub exp: u32,
    pub tid16: u16,
    pub sid16: u16,
    pub ot_name: Seq<char>,
    pub ot_gender: u8,
    pub ball: u8,
    pub met_level: u8,
    pub move1: u16,
    pub move2: u16,
    pub move3: u16,
    pub move4: u16,
    pub move1_pp: u8,
    pub move2_pp: u8,
    pub move3_pp: u8,
    pub move4_pp: u8,
    pub move1_pp_ups: u8,
    pub move2_pp_ups: u8,
    pub move3_pp_ups: u8,
    pub move4_pp_ups: u8,
    pub ev_hp: u8,
    pub ev_atk: u8,
    pub ev_def: u8,
    pub ev_spe: u8,
    pub ev_spa: u8,
    pub ev_spd: u8,
    pub status_condition: u32,
    pub encryption_constant: u32,
    pub sanity: u16,
    pub valid_checksum: bool,
    pub pid: u32,
    pub ability_number: u8,
    pub language: u8,
    pub iv32: u32,
    pub ot_friendship: u8,
    pub ht_friendship: u8,
    pub current_handler: u8,
    pub ht_name: Seq<char>,
}

/// A record of any generation.
pub trait Pkx: Sized {
    /// The raw fields of the record.
    spec fn fields(&self) -> Fields;

    /// The code of the species.
    fn species(&self) -> (value: u16)
        ensures
            value == self.fields().species,
    ;

    /// The nickname, as text.
    fn nickname(&self) -> (value: String)
        ensures
            value@ == self.fields().nickname,
    ;

    /// The code of the held item.
    fn held_item(&self) -> (value: u16)
        ensures
            value == self.fields().held_item,
    ;

    /// The code of the gender.
    fn gender(&self) -> (value: u8)
        ensures
            value == self.fields().gender,
    ;

    /// The code of the nature.
    fn nature(&self) -> (value: u8)
        ensures
            value == self.fields().nature,
    ;

    /// The code of the ability.
    fn ability(&self) -> (value: u16)
        ensures
            value == self.fields().ability,
    ;

    /// The friendship that counts: that of the first trainer where the
    /// current handler is 0, else that of the handler.
    fn current_friendship(&self) -> (value: u8)
        ensures
            value == self.fields().current_friendship,
    ;

    /// The number of the form.
    fn form(&self) -> (value: u8)
        ensures
            value == self.fields().form,
    ;

    /// Whether the creature is still an egg.
    fn is_egg(&self) -> (value: bool)
        ensures
            value == self.fields().is_egg,
    ;

    /// Whether the creature has a nickname.
    fn is_nicknamed(&self) -> (value: bool)
        ensures
            value == self.fields().is_nicknamed,
    ;

    /// The experience points.
    fn exp(&self) -> (value: u32)
        ensures
            value == self.fields().exp,
    ;

    /// The public id of the first trainer.
    fn tid16(&self) -> (value: u16)
        ensures
            value == self.fields().tid16,
    ;

    /// The secret id of the first trainer.
    fn sid16(&self) -> (value: u16)
        ensures
            value == self.fields().sid16,
    ;

    /// The name of the first trainer, as text.
    fn ot_name(&self) -> (value: String)
        ensures
            value@ == self.fields().ot_name,
    ;

    /// The code of the gender of the first trainer.
    fn ot_gender(&self) -> (value: u8)
        ensures
            value == self.fields().ot_gender,
    ;

    /// The code of the ball that the creature was caught in.
    fn ball(&self) -> (value: u8)
        ensures
            value == self.fields().ball,
    ;

    /// The level at which the creature was met.
    fn met_level(&self) -> (value: u8)
        ensures
            value == self.fields().met_level,
    ;

    /// The code of the first move.
    fn move1(&self) -> (value: u16)
        ensures
            value == self.fields().move1,
    ;

    /// The code of the second move.
    fn move2(&self) -> (value: u16)
        ensures
            value == self.fields().move2,
    ;

    /// The code of the third move.
    fn move3(&self) -> (value: u16)
        ensures
            value == self.fields().move3,
    ;

    /// The code of the fourth move.
    fn move4(&self) -> (value: u16)
        ensures
            value == self.fields().move4,
    ;

    /// The power points left of the first move.
    fn move1_pp(&self) -> (value: u8)
        ensures
            value == self.fields().move1_pp,
    ;

    /// The power points left of the second move.
    fn move2_pp(&self) -> (value: u8)
        ensures
            value == self.fields().move2_pp,
    ;

    /// The power points left of the third move.
    fn move3_pp(&self) -> (value: u8)
        ensures
            value == self.fields().move3_pp,
    ;

    /// The power points left of the fourth move.
    fn move4_pp(&self) -> (value: u8)
        ensures
            value == self.fields().move4_pp,
    ;

    /// The number of times the power points of the first move were raised.
    fn move1_pp_ups(&self) -> (value: u8)
        ensures
            value == self.fields().move1_pp_ups,
    ;

    /// The number of times the power points of the second move were raised.
    fn move2_pp_ups(&self) -> (value: u8)
        ensures
            value == self.fields().move2_pp_ups,
    ;

    /// The number of times the power points of the third move were raised.
    fn move3_pp_ups(&self) -> (value: u8)
        ensures
            value == self.fields().move3_pp_ups,
    ;

    /// The number of times the power points of the fourth move were raised.
    fn move4_pp_ups(&self) -> (value: u8)
        ensures
            value == self.fields().move4_pp_ups,
    ;

    /// The effort value for hp.
    fn ev_hp(&self) -> (value: u8)
        ensures
            value == self.fields().ev_hp,
    ;

    /// The effort value for attack.
    fn ev_atk(&self) -> (value: u8)
        ensures
            value == self.fields().ev_atk,
    ;

    /// The effort value for defense.
    fn ev_def(&self) -> (value: u8)
        ensures
            value == self.fields().ev_def,
    ;

    /// The effort value for speed.
    fn ev_spe(&self) -> (value: u8)
        ensures
            value == self.fields().ev_spe,
    ;

    /// The effort value for special attack.
    fn ev_spa(&self) -> (value: u8)
        ensures
            value == self.fields().ev_spa,
    ;

    /// The effort value for special defense.
    fn ev_spd(&self) -> (value: u8)
        ensures
            value == self.fields().ev_spd,
    ;

    /// The status condition, which only a record of party length holds.
    fn status_condition(&self) -> (value: u32)
        ensures
            value == self.fields().status_condition,
    ;

    /// The encryption constant, which is the seed of the cipher.
    fn encryption_constant(&self) -> (value: u32)
        ensures
            value == self.fields().encryption_constant,
    ;

    /// The sanity field, which is zero in a sound record.
    fn sanity(&self) -> (value: u16)
        ensures
            value == self.fields().sanity,
    ;

    /// Whether the checksum in the header is the one that the bytes give.
    fn valid_checksum(&self) -> (value: bool)
        ensures
            value == self.fields().valid_checksum,
    ;

    /// The personality value.
    fn pid(&self) -> (value: u32)
        ensures
            value == self.fields().pid,
    ;

    /// The code of the ability number.
    fn ability_number(&self) -> (value: u8)
        ensures
            value == self.fields().ability_number,
    ;

    /// The code of the language.
    fn language(&self) -> (value: u8)
        ensures
            value == self.fields().language,
    ;

    /// The packed word of the six individual values and two flags.
    fn iv32(&self) -> (value: u32)
        ensures
            value == self.fields().iv32,
    ;

    /// The friendship with the first trainer.
    fn ot_friendship(&self) -> (value: u8)
        ensures
            value == self.fields().ot_friendship,
    ;

    /// The friendship with the handler.
    fn ht_friendship(&self) -> (value: u8)
        ensures
            value == self.fields().ht_friendship,
    ;

    /// Who handles the creature now: 0 for the first trainer.
    fn current_handler(&self) -> (value: u8)
        ensures
            value == self.fields().current_handler,
    ;

    /// The name of the handler, as text.
    fn ht_name(&self) -> (value: String)
        ensures
            value@ == self.fields().ht_name,
    ;

    /// The code of the nature that the stats go by.
    fn stat_nature(&self) -> (value: u8)
        ensures
            value == self.fields().nature,
    {
        self.nature()
    }

    /// The individual value for hp.
    fn iv_hp(&self) -> (value: u8)
        ensures
            value == ivs_of(self.fields().iv32).hp,
    {
        let iv32: u32 = self.iv32();
        proof {
            lemma_iv_in_range(iv32);
        }
        (iv32 & 0x1F) as u8
    }

    /// The individual value for attack.
    fn iv_atk(&self) -> (value: u8)
        ensures
            value == ivs_of(self.fields().iv32).atk,
    {
        let iv32: u32 = self.iv32();
        proof {
            lemma_iv_in_range(iv32);
        }
        ((iv32 >> 5) & 0x1F) as u8
    }

    /// The individual value for defense.
    fn iv_def(&self) -> (value: u8)
        ensures
            value == ivs_of(self.fields().iv32).def,
    {
        let iv32: u32 = self.iv32();
        proof {
            lemma_iv_in_range(iv32);
        }
        ((iv32 >> 10) & 0x1F) as u8
    }

    /// The individual value for speed.
    fn iv_spe(&self) -> (value: u8)
        ensures
            value == ivs_of(self.fields().iv32).spe,
    {
        let iv32: u32 = self.iv32();
        proof {
            lemma_iv_in_range(iv32);
        }
        ((iv32 >> 15) & 0x1F) as u8
    }

    /// The individual value for special attack.
    fn iv_spa(&self) -> (value: u8)
        ensures
            value == ivs_of(self.fields().iv32).spa,
    {
        let iv32: u32 = self.iv32();
        proof {
            lemma_iv_in_range(iv32);
        }
        ((iv32 >> 20) & 0x1F) as u8
    }

    /// The individual value for special defense.
    fn iv_spd(&self) -> (value: u8)
        ensures
            value == ivs_of(self.fields().iv32).spd,
    {
        let iv32: u32 = self.iv32();
        proof {
            lemma_iv_in_range(iv32);
        }
        ((iv32 >> 25) & 0x1F) as u8
    }

    /// The trainer shiny value.
    fn tsv(&self) -> (value: u16)
        ensures
            value == tsv_of(self.fields().tid16, self.fields().sid16),
    {
        (self.tid16() ^ self.sid16()) >> 4
    }

    /// The personality shiny value.
    fn psv(&self) -> (value: u16)
        ensures
            value == psv_of(self.fields().pid),
    {
        let pid: u32 = self.pid();
        proof {
            lemma_psv_in_range(pid);
        }
        let psv: u32 = ((pid >> 16) ^ (pid & 0xffff)) >> 4;
        psv as u16
    }

    /// Whether the record is valid and its two shiny values are equal.
    fn is_shiny(&self) -> (shiny: bool)
        ensures
            shiny == is_shiny_of(
                is_valid_of(
                    self.fields().sanity,
                    self.fields().valid_checksum,
                    self.fields().species,
                ),
                self.fields().tid16,
                self.fields().sid16,
                self.fields().pid,
            ),
    {
        self.is_valid() && self.psv() == self.tsv()
    }

    /// The shiny type: none where the record is not valid, else the class of
    /// the shiny classification value.
    fn shiny_type(&self) -> (shiny: Option<Shiny>)
        ensures
            shiny == shiny_type_of(
                is_valid_of(
                    self.fields().sanity,
                    self.fields().valid_checksum,
                    self.fields().species,
                ),
                self.fields().tid16,
                self.fields().sid16,
                self.fields().pid,
            ),
    {
        if !self.is_valid() {
            return None;
        }
        let pid: u32 = self.pid();
        proof {
            lemma_psv_in_range(pid);
        }
        let shiny_value: u16 = self.tid16() ^ self.sid16() ^ ((pid & 0xffff) as u16) ^ ((pid
            >> 16) as u16);

        if shiny_value == 0 {
            Some(Shiny::Square)
        } else if shiny_value < 16 {
            Some(Shiny::Star)
        } else {
            None
        }
    }

    /// The index of the type of Hidden Power, one of 0 to 15.
    fn hidden_power(&self) -> (index: u8)
        ensures
            index == hidden_power_of(ivs_of(self.fields().iv32)),
            index <= 15,
    {
        let hp: u8 = self.iv_hp();
        let atk: u8 = self.iv_atk();
        let def: u8 = self.iv_def();
        let spe: u8 = self.iv_spe();
        let spa: u8 = self.iv_spa();
        let spd: u8 = self.iv_spd();
        proof {
            lemma_parity_bits(hp);
            lemma_parity_bits(atk);
            lemma_parity_bits(def);
            lemma_parity_bits(spe);
            lemma_parity_bits(spa);
            lemma_parity_bits(spd);
        }
        let sum: u8 = (hp & 1) + ((atk & 1) << 1) + ((def & 1) << 2) + ((spe & 1) << 3) + ((spa
            & 1) << 4) + ((spd & 1) << 5);
        ((sum as u16 * 15) / 63) as u8
    }

    /// The species.
    fn species_t(&self) -> (value: Species)
        ensures
            value == Species(self.fields().species),
    {
        Species(self.species())
    }

    /// The first move.
    fn move1_t(&self) -> (value: Move)
        ensures
            value == Move(self.fields().move1),
    {
        Move(self.move1())
    }

    /// The second move.
    fn move2_t(&self) -> (value: Move)
        ensures
            value == Move(self.fields().move2),
    {
        Move(self.move2())
    }

    /// The third move.
    fn move3_t(&self) -> (value: Move)
        ensures
            value == Move(self.fields().move3),
    {
        Move(self.move3())
    }

    /// The fourth move.
    fn move4_t(&self) -> (value: Move)
        ensures
            value == Move(self.fields().move4),
    {
        Move(self.move4())
    }

    /// The gender of the first trainer.
    fn ot_gender_t(&self) -> (value: Gender)
        ensures
            value == Gender::of_code(self.fields().ot_gender),
    {
        Gender::from_code(self.ot_gender())
    }

    /// The gender.
    fn gender_t(&self) -> (value: Gender)
        ensures
            value == Gender::of_code(self.fields().gender),
    {
        Gender::from_code(self.gender())
    }

    /// The nature.
    fn nature_t(&self) -> (value: Nature)
        ensures
            value == Nature::of_code(self.fields().nature),
    {
        Nature::from_code(self.nature())
    }

    /// The nature that the stats go by.
    fn stat_nature_t(&self) -> (value: Nature)
        ensures
            value == Nature::of_code(self.fields().nature),
    {
        self.nature_t()
    }

    /// The ability.
    fn ability_t(&self) -> (value: Ability)
        ensures
            value == Ability(self.fields().ability),
    {
        Ability(self.ability())
    }

    /// The ability number.
    fn ability_number_t(&self) -> (value: AbilityNumber)
        ensures
            value == AbilityNumber::of_code(self.fields().ability_number),
    {
        AbilityNumber::from_code(self.ability_number())
    }

    /// The language.
    fn language_t(&self) -> (value: Language)
        ensures
            value == Language::of_code(self.fields().language),
    {
        Language::from_code(self.language())
    }

    /// The type of Hidden Power, which is never `Invalid`.
    fn hidden_power_t(&self) -> (value: HiddenPower)
        ensures
            value == HiddenPower::of_code(hidden_power_of(ivs_of(self.fields().iv32))),
            value != HiddenPower::Invalid,
    {
        HiddenPower::from_code(self.hidden_power())
    }

    /// Whether the sanity field is zero, the checksum is the one that the
    /// bytes give, and the record has a species.
    fn is_valid(&self) -> (valid: bool)
        ensures
            valid == is_valid_of(
                self.fields().sanity,
                self.fields().valid_checksum,
                self.fields().species,
            ),
    {
        self.sanity() == 0 && self.valid_checksum() && !self.species_t().is_none()
    }
}

} // verus!
