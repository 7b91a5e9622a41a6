//! The cipher that protects a record, worked in place on a byte slice.
//!
//! A record starts with eight bytes that are never transformed: a 32-bit
//! seed, a 16-bit sanity field and a 16-bit checksum. What follows is XORed
//! with a keystream that a linear congruential generator derives from the
//! seed, and its first four blocks are reordered by a permutation that the
//! seed selects. Here the reordering is done by up to three exchanges of two
//! blocks.

use crate::pkm::poke_crypto::{
    block_of, block_source, lemma_block_start, lemma_decrypt_encrypt, lemma_encrypt_decrypt,
    shuffle, shuffled_from,
};
use crate::reader::{le_u16, u16_at, u16_from_le, u32_at, Reader};
use vstd::prelude::*;

verus! {

/// For each shuffle index, the block that each of the blocks 0, 1 and 2 is
/// exchanged with, in this order.
pub const BLOCK_SWAP_DST: [usize; 96] = [
    0, 1, 2,
    0, 1, 3,
    0, 2, 2,
    0, 3, 3,
    0, 2, 3,
    0, 3, 2,
    1, 1, 2,
    1, 1, 3,
    2, 2, 2,
    3, 3, 3,
    2, 2, 3,
    3, 3, 2,
    1, 2, 2,
    1, 3, 3,
    2, 1, 2,
    3, 1, 3,
    2, 3, 2,
    3, 2, 3,
    1, 2, 3,
    1, 3, 2,
    2, 1, 3,
    3, 1, 2,
    2, 3, 3,
    3, 2, 2,
    // the shuffle indices 24 to 31 repeat 0 to 7
    0, 1, 2,
    0, 1, 3,
    0, 2, 2,
    0, 3, 3,
    0, 2, 3,
    0, 3, 2,
    1, 1, 2,
    1, 1, 3,
];

/// For each shuffle index, the shuffle index whose permutation undoes it.
pub const BLOCK_POSITION_INVERT: [usize; 32] = [
    0, 1, 2, 4, 3, 5, 6, 7, 12, 18, 13, 19, 8, 10, 14, 20, 16, 22, 9, 11, 15, 21, 17, 23,
    0, 1, 2, 4, 3, 5, 6, 7,
];

/// The state of the generator that follows `seed`.
pub open spec fn next_seed(seed: u32) -> u32 {
    ((0x41C6_4E6D * (seed as int) + 0x6073) % 0x1_0000_0000) as u32
}

/// The state of the generator after `steps` advances from `seed`.
pub open spec fn seed_after(seed: u32, steps: nat) -> u32
    decreases steps,
{
    if steps == 0 {
        seed
    } else {
        next_seed(seed_after(seed, (steps - 1) as nat))
    }
}

/// The keystream byte for the byte at `index`, which is 8 or more. The
/// generator advances once for each 16-bit word; bits 16 to 23 of its state
/// go to the word's low byte and bits 24 to 31 to its high byte.
pub open spec fn key_byte(seed: u32, index: int) -> u8 {
    let state = seed_after(seed, ((index - 8) / 2 + 1) as nat);
    if index % 2 == 0 {
        (state / 0x1_0000 % 0x100) as u8
    } else {
        (state / 0x100_0000) as u8
    }
}

/// `data` with the keystream of `seed` XORed onto every byte after the
/// header.
pub open spec fn crypt(data: Seq<u8>, seed: u32) -> Seq<u8> {
    Seq::new(
        data.len(),
        |i: int|
            if i < 8 {
                data[i]
            } else {
                data[i] ^ key_byte(seed, i)
            },
    )
}

/// The seed of a record: its first four bytes.
pub open spec fn seed_of(data: Seq<u8>) -> u32 {
    u32_at(data, 0)
}

/// The shuffle index that a seed selects: its bits 13 to 17.
pub open spec fn shuffle_index(seed: u32) -> usize {
    ((seed >> 13) & 31) as usize
}

/// The block that block `block`, one of 0 to 2, is exchanged with under
/// shuffle index `sv`.
pub open spec fn swap_target(sv: int, block: int) -> int {
    BLOCK_SWAP_DST[sv * 3 + block] as int
}

/// `data` with the blocks `a` and `b` exchanged.
pub open spec fn swap_blocks(data: Seq<u8>, a: int, b: int, block_size: int) -> Seq<u8> {
    Seq::new(
        data.len(),
        |i: int|
            if 8 + block_size * a <= i < 8 + block_size * a + block_size {
                data[i - block_size * a + block_size * b]
            } else if 8 + block_size * b <= i < 8 + block_size * b + block_size {
                data[i - block_size * b + block_size * a]
            } else {
                data[i]
            },
    )
}

/// `data` after the first `count` exchanges of shuffle index `sv`.
pub open spec fn swaps_done(data: Seq<u8>, sv: int, block_size: int, count: nat) -> Seq<u8>
    decreases count,
{
    if count == 0 {
        data
    } else {
        swap_blocks(
            swaps_done(data, sv, block_size, (count - 1) as nat),
            count - 1,
            swap_target(sv, count - 1),
            block_size,
        )
    }
}

/// `data` with its four blocks reordered under shuffle index `sv`, by the
/// three exchanges that the index selects.
pub open spec fn swap_shuffle(data: Seq<u8>, sv: int, block_size: int) -> Seq<u8> {
    swaps_done(data, sv, block_size, 3)
}

/// A record as it is after decryption: the keystream taken off, the blocks
/// put in their plain order.
pub open spec fn decrypted(data: Seq<u8>, block_size: int) -> Seq<u8> {
    let seed = seed_of(data);
    swap_shuffle(crypt(data, seed), shuffle_index(seed) as int, block_size)
}

/// A record as it is after encryption: the blocks put in the order that the
/// seed selects, the keystream put on.
pub open spec fn encrypted(data: Seq<u8>, block_size: int) -> Seq<u8> {
    let seed = seed_of(data);
    crypt(
        swap_shuffle(data, BLOCK_POSITION_INVERT[shuffle_index(seed) as int] as int, block_size),
        seed,
    )
}

/// The sum of the first `words` 16-bit little-endian words of `data`.
pub open spec fn word_sum(data: Seq<u8>, words: nat) -> int
    decreases words,
{
    if words == 0 {
        0
    } else {
        word_sum(data, (words - 1) as nat) + le_u16(data[2 * words - 2], data[2 * words - 1])
    }
}

/// The checksum of `data`: the sum of its 16-bit little-endian words, modulo
/// 65536. A last byte without a partner does not count.
pub open spec fn checksum_of(data: Seq<u8>) -> u16 {
    (word_sum(data, data.len() / 2) % 0x1_0000) as u16
}

/// Advances the generator by one step.
pub fn advance(seed: u32) -> (next: u32)
    ensures
        next == next_seed(seed),
{
    let product: u32 = 0x41c64e6du32.wrapping_mul(seed);
    let next: u32 = product.wrapping_add(0x6073);
    proof {
        let full: int = 0x41C6_4E6D * (seed as int);
        assert(product == full % 0x1_0000_0000);
        vstd::arithmetic::div_mod::lemma_add_mod_noop(full, 0x6073, 0x1_0000_0000);
        vstd::arithmetic::div_mod::lemma_small_mod(0x6073, 0x1_0000_0000);
        assert(next == (product + 0x6073) % 0x1_0000_0000);
    }
    next
}

/// The two keystream bytes that a state of the generator gives: for the low
/// byte of a word, and for its high byte.
pub fn key_pair(state: u32) -> (pair: (u8, u8))
    ensures
        pair.0 == (state / 0x1_0000 % 0x100) as u8,
        pair.1 == (state / 0x100_0000) as u8,
{
    let low: u8 = #[verifier::truncate]
    ((state >> 16) as u8);
    let high: u8 = #[verifier::truncate]
    ((state >> 24) as u8);
    assert(((state >> 16) as u8) == (state / 0x1_0000 % 0x100) as u8) by (bit_vector);
    assert(((state >> 24) as u8) == (state / 0x100_0000) as u8) by (bit_vector);
    (low, high)
}

/// A shuffle index is one of 0 to 31.
pub proof fn lemma_shuffle_index_in_range(seed: u32)
    ensures
        shuffle_index(seed) < 32,
{
    assert(((seed >> 13) & 31) < 32) by (bit_vector);
}

/// The shuffle index that `seed` selects.
pub fn shuffle_index_of(seed: u32) -> (sv: usize)
    ensures
        sv == shuffle_index(seed),
        sv < 32,
{
    let sv: u32 = (seed >> 13) & 31;
    proof {
        lemma_shuffle_index_in_range(seed);
    }
    sv as usize
}

/// The two keystream bytes of the word that the generator's step number
/// `step` belongs to, counted from 0.
pub proof fn lemma_key_bytes_of_step(seed: u32, step: nat)
    ensures
        key_byte(seed, 8 + 2 * (step as int)) == (seed_after(seed, step + 1) / 0x1_0000
            % 0x100) as u8,
        key_byte(seed, 9 + 2 * (step as int)) == (seed_after(seed, step + 1) / 0x100_0000)
            as u8,
{
    assert((8 + 2 * step - 8) / 2 + 1 == step + 1);
    assert((9 + 2 * step - 8) / 2 + 1 == step + 1);
}

/// XORs the keystream of `seed` onto every byte of `out` after the header.
pub fn crypt_pkm(out: &mut [u8], seed: u32)
    requires
        old(out)@.len() % 2 == 0 || old(out)@.len() <= 8,
    ensures
        final(out)@ == crypt(old(out)@, seed),
        final(out)@.len() == old(out)@.len(),
{
    let n: usize = out.len();
    let mut state: u32 = seed;
    let mut i: usize = 8;
    let ghost mut step: nat = 0;
    while i < n
        invariant
            out@.len() == n,
            n == old(out)@.len(),
            n % 2 == 0 || n <= 8,
            i == 8 + 2 * step,
            i <= n || n < 8,
            state == seed_after(seed, step),
            forall|j: int| 8 <= j < i ==> out@[j] == old(out)@[j] ^ key_byte(seed, j),
            forall|j: int| 0 <= j < 8 && j < n ==> out@[j] == old(out)@[j],
            forall|j: int| i <= j < n ==> out@[j] == old(out)@[j],
        decreases n - i,
    {
        state = advance(state);
        let (low, high) = key_pair(state);
        proof {
            lemma_key_bytes_of_step(seed, step);
            step = step + 1;
        }
        out[i] = out[i] ^ low;
        out[i + 1] = out[i + 1] ^ high;
        i += 2;
    }
    assert(out@ =~= crypt(old(out)@, seed));
}

/// `data` with the first `count` bytes of the blocks `a` and `b` exchanged.
pub open spec fn swap_started(
    data: Seq<u8>,
    a: int,
    b: int,
    block_size: int,
    count: int,
) -> Seq<u8> {
    Seq::new(
        data.len(),
        |i: int|
            if 8 + block_size * a <= i < 8 + block_size * a + count {
                data[i - block_size * a + block_size * b]
            } else if 8 + block_size * b <= i < 8 + block_size * b + count {
                data[i - block_size * b + block_size * a]
            } else {
                data[i]
            },
    )
}

/// Reorders the four blocks of `data` under shuffle index `sv`, by up to
/// three exchanges of two blocks.
pub fn shuffle_array(data: &mut [u8], sv: usize, block_size: usize)
    requires
        sv < 32,
        8 + 4 * block_size <= old(data)@.len(),
    ensures
        final(data)@ == swap_shuffle(old(data)@, sv as int, block_size as int),
        final(data)@.len() == old(data)@.len(),
{
    let n: usize = data.len();
    let mut block: usize = 0;
    while block < 3
        invariant
            block <= 3,
            sv < 32,
            n == data@.len(),
            n == old(data)@.len(),
            8 + 4 * block_size <= n,
            data@ == swaps_done(old(data)@, sv as int, block_size as int, block as nat),
        decreases 3 - block,
    {
        let src_block: usize = block;
        let dst_block: usize = BLOCK_SWAP_DST[(sv * 3) + block];
        let ghost before = data@;
        proof {
            lemma_row_agrees(sv as int);
            lemma_block_start(block_size as int, src_block as int);
            lemma_block_start(block_size as int, dst_block as int);
        }
        if src_block != dst_block {
            let mut i: usize = 0;
            while i < block_size
                invariant
                    i <= block_size,
                    n == data@.len(),
                    n == before.len(),
                    8 + 4 * block_size <= n,
                    src_block < dst_block < 4,
                    8 + block_size * src_block + block_size <= 8 + block_size * dst_block,
                    8 + block_size * dst_block + block_size <= n,
                    data@ == swap_started(
                        before,
                        src_block as int,
                        dst_block as int,
                        block_size as int,
                        i as int,
                    ),
                decreases block_size - i,
            {
                assert(src_block * block_size == block_size * src_block) by (nonlinear_arith);
                assert(dst_block * block_size == block_size * dst_block) by (nonlinear_arith);
                let x: usize = 8 + (src_block * block_size) + i;
                let y: usize = 8 + (dst_block * block_size) + i;
                let byte: u8 = data[x];
                data[x] = data[y];
                data[y] = byte;
                i += 1;
                assert(data@ =~= swap_started(
                    before,
                    src_block as int,
                    dst_block as int,
                    block_size as int,
                    i as int,
                ));
            }
        }
        proof {
            assert(swap_started(
                before,
                src_block as int,
                dst_block as int,
                block_size as int,
                block_size as int,
            ) =~= swap_blocks(before, src_block as int, dst_block as int, block_size as int));
            assert(before =~= swap_blocks(
                before,
                src_block as int,
                src_block as int,
                block_size as int,
            ));
        }
        block += 1;
    }
}

/// Takes the cipher off a record.
pub fn decrypt(ekx: &mut [u8], block_size: usize)
    requires
        old(ekx)@.len() % 2 == 0,
        8 + 4 * block_size <= old(ekx)@.len(),
    ensures
        final(ekx)@ == decrypted(old(ekx)@, block_size as int),
{
    let seed: u32 = ekx.read_u32(0);
    let sv: usize = shuffle_index_of(seed);
    crypt_pkm(ekx, seed);
    shuffle_array(ekx, sv, block_size);
}

/// Puts the cipher on a record.
pub fn encrypt(pkx: &mut [u8], block_size: usize)
    requires
        old(pkx)@.len() % 2 == 0,
        8 + 4 * block_size <= old(pkx)@.len(),
    ensures
        final(pkx)@ == encrypted(old(pkx)@, block_size as int),
{
    let seed: u32 = pkx.read_u32(0);
    let sv: usize = shuffle_index_of(seed);
    proof {
        crate::pkm::poke_crypto::lemma_row_inverts(sv as int);
    }
    shuffle_array(pkx, BLOCK_POSITION_INVERT[sv], block_size);
    crypt_pkm(pkx, seed);
}

/// The sum of the 16-bit little-endian words of `pkx`, modulo 65536.
pub fn calculate_checksum(pkx: &[u8]) -> (checksum: u16)
    ensures
        checksum == checksum_of(pkx@),
{
    let n: usize = pkx.len();
    let mut checksum: u16 = 0;
    let mut i: usize = 0;
    while i + 1 < n
        invariant
            n == pkx@.len(),
            i % 2 == 0,
            i <= n,
            checksum == (word_sum(pkx@, (i / 2) as nat) % 0x1_0000) as u16,
        decreases n - i,
    {
        let chunk: u16 = u16_from_le(pkx[i], pkx[i + 1]);
        assert(word_sum(pkx@, (i / 2 + 1) as nat) == word_sum(pkx@, (i / 2) as nat) + chunk);
        checksum = checksum.wrapping_add(chunk);
        i += 2;
    }
    assert(i / 2 == n / 2);
    checksum
}

/// The block at `pos` after the blocks `a` and `b` have changed places.
pub open spec fn transposed(a: int, b: int, pos: int) -> int {
    if pos == a {
        b
    } else if pos == b {
        a
    } else {
        pos
    }
}

/// The block that position `pos` holds after the three exchanges of shuffle
/// index `sv`.
pub open spec fn swapped_source(sv: int, pos: int) -> int {
    transposed(
        0,
        swap_target(sv, 0),
        transposed(1, swap_target(sv, 1), transposed(2, swap_target(sv, 2), pos)),
    )
}

/// Whether the exchanges of shuffle index `sv` stay within the four blocks
/// and give the order that the table of block positions has for `sv`.
pub open spec fn row_agrees(sv: int) -> bool {
    &&& 0 <= swap_target(sv, 0) < 4
    &&& 1 <= swap_target(sv, 1) < 4
    &&& 2 <= swap_target(sv, 2) < 4
    &&& swapped_source(sv, 0) == block_source(sv, 0)
    &&& swapped_source(sv, 1) == block_source(sv, 1)
    &&& swapped_source(sv, 2) == block_source(sv, 2)
    &&& swapped_source(sv, 3) == block_source(sv, 3)
}

/// Whether `row_agrees` holds of the first `rows` shuffle indices.
pub open spec fn rows_agree(rows: nat) -> bool
    decreases rows,
{
    rows == 0 || (row_agrees(rows - 1) && rows_agree((rows - 1) as nat))
}

proof fn lemma_rows_agree_below(rows: nat, sv: int)
    requires
        rows_agree(rows),
        0 <= sv < rows,
    ensures
        row_agrees(sv),
    decreases rows,
{
    if sv < rows - 1 {
        lemma_rows_agree_below((rows - 1) as nat, sv);
    }
}

/// For every shuffle index the three exchanges give the order that the table
/// of block positions gives.
pub proof fn lemma_row_agrees(sv: int)
    requires
        0 <= sv < 32,
    ensures
        row_agrees(sv),
{
    assert(rows_agree(32)) by {
        reveal_with_fuel(rows_agree, 33);
    }
    lemma_rows_agree_below(32, sv);
}

/// Where a byte of `data` is after the blocks `a` and `b` have changed
/// places.
proof fn lemma_swap_blocks_at(data: Seq<u8>, a: int, b: int, block_size: int, index: int)
    requires
        0 <= a < 4,
        0 <= b < 4,
        0 <= block_size,
        8 + 4 * block_size <= data.len(),
        0 <= index < data.len(),
    ensures
        swap_blocks(data, a, b, block_size).len() == data.len(),
        !(8 <= index < 8 + 4 * block_size) ==> swap_blocks(data, a, b, block_size)[index]
            == data[index],
        8 <= index < 8 + 4 * block_size ==> {
            let block = block_of(index, block_size);
            let from = index - block_size * block + block_size * transposed(a, b, block);
            &&& 8 <= from < 8 + 4 * block_size
            &&& block_of(from, block_size) == transposed(a, b, block)
            &&& from - block_size * transposed(a, b, block) == index - block_size * block
            &&& swap_blocks(data, a, b, block_size)[index] == data[from]
        },
{
    lemma_block_start(block_size, a);
    lemma_block_start(block_size, b);
    if 8 <= index < 8 + 4 * block_size {
        let block = block_of(index, block_size);
        lemma_block_start(block_size, block);
    }
}

/// The three exchanges reorder a record as the table of block positions
/// does.
pub proof fn lemma_swap_shuffle_is_shuffle(data: Seq<u8>, sv: int, block_size: int)
    requires
        0 <= sv < 32,
        0 <= block_size,
        8 + 4 * block_size <= data.len(),
    ensures
        swap_shuffle(data, sv, block_size) == shuffle(data, sv, block_size),
{
    lemma_row_agrees(sv);
    reveal_with_fuel(swaps_done, 4);
    let t0 = swap_target(sv, 0);
    let t1 = swap_target(sv, 1);
    let t2 = swap_target(sv, 2);
    let d1 = swap_blocks(data, 0, t0, block_size);
    let d2 = swap_blocks(d1, 1, t1, block_size);
    let d3 = swap_blocks(d2, 2, t2, block_size);
    assert(d3 == swap_shuffle(data, sv, block_size));
    assert forall|i: int| 0 <= i < data.len() implies d3[i] == shuffle(
        data,
        sv,
        block_size,
    )[i] by {
        lemma_swap_blocks_at(d2, 2, t2, block_size, i);
        if 8 <= i < 8 + 4 * block_size {
            let b3 = block_of(i, block_size);
            let i2 = i - block_size * b3 + block_size * transposed(2, t2, b3);
            lemma_swap_blocks_at(d1, 1, t1, block_size, i2);
            let b2 = block_of(i2, block_size);
            let i1 = i2 - block_size * b2 + block_size * transposed(1, t1, b2);
            lemma_swap_blocks_at(data, 0, t0, block_size, i1);
            let b1 = block_of(i1, block_size);
            let i0 = i1 - block_size * b1 + block_size * transposed(0, t0, b1);
            assert(transposed(0, t0, b1) == swapped_source(sv, b3));
            assert(i0 == shuffled_from(i, sv, block_size));
        } else {
            lemma_swap_blocks_at(d1, 1, t1, block_size, i);
            lemma_swap_blocks_at(data, 0, t0, block_size, i);
        }
    }
    assert(d3 =~= shuffle(data, sv, block_size));
}

/// The cipher with three exchanges and the cipher with the table of block
/// positions give the same bytes.
pub proof fn lemma_schemes_agree(data: Seq<u8>, block_size: int)
    requires
        0 <= block_size,
        8 + 4 * block_size <= data.len(),
    ensures
        decrypted(data, block_size) == crate::pkm::poke_crypto::decrypted(data, block_size),
        encrypted(data, block_size) == crate::pkm::poke_crypto::encrypted(data, block_size),
{
    let seed = seed_of(data);
    let sv = shuffle_index(seed) as int;
    lemma_shuffle_index_in_range(seed);
    crate::pkm::poke_crypto::lemma_row_inverts(sv);
    lemma_swap_shuffle_is_shuffle(crypt(data, seed), sv, block_size);
    lemma_swap_shuffle_is_shuffle(data, BLOCK_POSITION_INVERT[sv] as int, block_size);
}

/// The cipher leaves the length and the header of a record as they are.
pub proof fn lemma_cipher_keeps_header(data: Seq<u8>, block_size: int)
    requires
        0 <= block_size,
        8 + 4 * block_size <= data.len(),
    ensures
        decrypted(data, block_size).len() == data.len(),
        encrypted(data, block_size).len() == data.len(),
        forall|i: int|
            0 <= i < 8 ==> decrypted(data, block_size)[i] == data[i] && encrypted(
                data,
                block_size,
            )[i] == data[i],
{
    lemma_schemes_agree(data, block_size);
    crate::pkm::poke_crypto::lemma_cipher_keeps_header(data, block_size);
}

/// Decryption undoes encryption.
pub proof fn lemma_decrypt_undoes_encrypt(data: Seq<u8>, block_size: int)
    requires
        0 <= block_size,
        8 + 4 * block_size <= data.len(),
    ensures
        decrypted(encrypted(data, block_size), block_size) == data,
{
    lemma_schemes_agree(data, block_size);
    let ekx = crate::pkm::poke_crypto::encrypted(data, block_size);
    assert(ekx.len() == data.len());
    lemma_schemes_agree(ekx, block_size);
    lemma_decrypt_encrypt(data, block_size);
}

/// Encryption undoes decryption.
pub proof fn lemma_encrypt_undoes_decrypt(data: Seq<u8>, block_size: int)
    requires
        0 <= block_size,
        8 + 4 * block_size <= data.len(),
    ensures
        encrypted(decrypted(data, block_size), block_size) == data,
{
    lemma_schemes_agree(data, block_size);
    let pkx = crate::pkm::poke_crypto::decrypted(data, block_size);
    assert(pkx.len() == data.len());
    lemma_schemes_agree(pkx, block_size);
    lemma_encrypt_decrypt(data, block_size);
}

/// The geometry of one generation's records and its cipher, worked in place.
pub trait PokeCrypto: Reader {
    /// The length of a record in the party, with its battle stats.
    const PARTY_SIZE: usize;

    /// The length of a record as it is stored.
    const STORED_SIZE: usize;

    /// The length of each of the four blocks that the cipher reorders.
    const BLOCK_SIZE: usize;

    /// Whether a buffer is taken to be encrypted. A plain record has zero in
    /// fields that the keystream makes nonzero.
    spec fn looks_encrypted(data: Seq<u8>) -> bool;

    fn is_encrypted(data: &[u8]) -> (encrypted: bool)
        ensures
            encrypted == Self::looks_encrypted(data@),
    ;

    /// The checksum that the record's header holds.
    fn checksum(&self) -> (sum: u16)
        ensures
            sum == u16_at(self.bytes(), 6),
    ;

    /// Encrypts `data` unless it is taken to be encrypted already.
    fn encrypt_raw(data: &mut [u8])
        requires
            !Self::looks_encrypted(old(data)@) ==> old(data)@.len() % 2 == 0 && 8 + 4
                * Self::BLOCK_SIZE <= old(data)@.len(),
        ensures
            final(data)@ == if Self::looks_encrypted(old(data)@) {
                old(data)@
            } else {
                encrypted(old(data)@, Self::BLOCK_SIZE as int)
            },
    {
        if !Self::is_encrypted(data) {
            encrypt(data, Self::BLOCK_SIZE)
        }
    }

    /// Decrypts `data` if it is taken to be encrypted.
    fn decrypt_raw(data: &mut [u8])
        requires
            Self::looks_encrypted(old(data)@) ==> old(data)@.len() % 2 == 0 && 8 + 4
                * Self::BLOCK_SIZE <= old(data)@.len(),
        ensures
            final(data)@ == if Self::looks_encrypted(old(data)@) {
                decrypted(old(data)@, Self::BLOCK_SIZE as int)
            } else {
                old(data)@
            },
    {
        if Self::is_encrypted(data) {
            decrypt(data, Self::BLOCK_SIZE)
        }
    }

    /// The checksum of the record as its bytes give it: that of the stored
    /// region without the header.
    fn calculate_checksum(&self) -> (sum: u16)
        requires
            8 <= Self::STORED_SIZE <= self.bytes().len(),
        ensures
            sum == checksum_of(self.bytes().subrange(8, Self::STORED_SIZE as int)),
    {
        let data = self.as_slice();
        calculate_checksum(&data[8..Self::STORED_SIZE])
    }
}

} // verus!
