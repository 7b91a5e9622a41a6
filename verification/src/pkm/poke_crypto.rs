//! The cipher that protects a record, from one owned buffer to another.
//!
//! The keystream is that of [`crate::poke_crypto`]. The four blocks after the
//! header are reordered by a table that gives, for each shuffle index, the
//! block that each position takes its bytes from.

use crate::poke_crypto::{
    advance, checksum_of, crypt, key_byte, key_pair, lemma_key_bytes_of_step,
    lemma_shuffle_index_in_range, seed_after, seed_of, shuffle_index, shuffle_index_of, word_sum,
    BLOCK_POSITION_INVERT,
};
use crate::pkm::reader::Reader;
use crate::reader::u16_from_le;
use vstd::prelude::*;
use vstd::slice::slice_to_vec;

verus! {

/// For each shuffle index, the four blocks that the positions 0 to 3 take
/// their bytes from.
pub const BLOCK_POSITION: [usize; 128] = [
    0, 1, 2, 3,
    0, 1, 3, 2,
    0, 2, 1, 3,
    0, 3, 1, 2,
    0, 2, 3, 1,
    0, 3, 2, 1,
    1, 0, 2, 3,
    1, 0, 3, 2,
    2, 0, 1, 3,
    3, 0, 1, 2,
    2, 0, 3, 1,
    3, 0, 2, 1,
    1, 2, 0, 3,
    1, 3, 0, 2,
    2, 1, 0, 3,
    3, 1, 0, 2,
    2, 3, 0, 1,
    3, 2, 0, 1,
    1, 2, 3, 0,
    1, 3, 2, 0,
    2, 1, 3, 0,
    3, 1, 2, 0,
    2, 3, 1, 0,
    3, 2, 1, 0,
    // the shuffle indices 24 to 31 repeat 0 to 7
    0, 1, 2, 3,
    0, 1, 3, 2,
    0, 2, 1, 3,
    0, 3, 1, 2,
    0, 2, 3, 1,
    0, 3, 2, 1,
    1, 0, 2, 3,
    1, 0, 3, 2,
];

/// The block that position `block` takes its bytes from under shuffle index
/// `sv`.
pub open spec fn block_source(sv: int, block: int) -> int {
    BLOCK_POSITION[sv * 4 + block] as int
}

/// The block that the byte at `index` lies in, for an index within the four
/// blocks.
pub open spec fn block_of(index: int, block_size: int) -> int {
    if index < 8 + block_size {
        0
    } else if index < 8 + 2 * block_size {
        1
    } else if index < 8 + 3 * block_size {
        2
    } else {
        3
    }
}

/// The index that the byte at `index` of a shuffled record comes from. A byte
/// within the four blocks comes from the same place within the source block;
/// the header and what follows the blocks stay.
pub open spec fn shuffled_from(index: int, sv: int, block_size: int) -> int {
    if 8 <= index < 8 + 4 * block_size {
        let block = block_of(index, block_size);
        let within = index - (8 + block_size * block);
        8 + block_size * block_source(sv, block) + within
    } else {
        index
    }
}

/// `data` with its four blocks reordered under shuffle index `sv`.
pub open spec fn shuffle(data: Seq<u8>, sv: int, block_size: int) -> Seq<u8> {
    Seq::new(data.len(), |i: int| data[shuffled_from(i, sv, block_size)])
}

/// A record as it is after decryption: the keystream taken off, the blocks
/// put in their plain order.
pub open spec fn decrypted(data: Seq<u8>, block_size: int) -> Seq<u8> {
    let seed = seed_of(data);
    shuffle(crypt(data, seed), shuffle_index(seed) as int, block_size)
}

/// A record as it is after encryption: the blocks put in the order that the
/// seed selects, the keystream put on.
pub open spec fn encrypted(data: Seq<u8>, block_size: int) -> Seq<u8> {
    let seed = seed_of(data);
    crypt(
        shuffle(data, BLOCK_POSITION_INVERT[shuffle_index(seed) as int] as int, block_size),
        seed,
    )
}

/// Whether row `sv` of the table names each of the four blocks, and the row
/// that `BLOCK_POSITION_INVERT` gives for it undoes it.
pub open spec fn row_inverts(sv: int) -> bool {
    let inv = BLOCK_POSITION_INVERT[sv] as int;
    &&& 0 <= inv < 32
    &&& 0 <= block_source(sv, 0) < 4
    &&& 0 <= block_source(sv, 1) < 4
    &&& 0 <= block_source(sv, 2) < 4
    &&& 0 <= block_source(sv, 3) < 4
    &&& block_source(sv, block_source(inv, 0)) == 0
    &&& block_source(sv, block_source(inv, 1)) == 1
    &&& block_source(sv, block_source(inv, 2)) == 2
    &&& block_source(sv, block_source(inv, 3)) == 3
    &&& block_source(inv, block_source(sv, 0)) == 0
    &&& block_source(inv, block_source(sv, 1)) == 1
    &&& block_source(inv, block_source(sv, 2)) == 2
    &&& block_source(inv, block_source(sv, 3)) == 3
}

/// Whether `row_inverts` holds of the first `rows` rows.
pub open spec fn rows_invert(rows: nat) -> bool
    decreases rows,
{
    rows == 0 || (row_inverts(rows - 1) && rows_invert((rows - 1) as nat))
}

proof fn lemma_rows_invert_below(rows: nat, sv: int)
    requires
        rows_invert(rows),
        0 <= sv < rows,
    ensures
        row_inverts(sv),
    decreases rows,
{
    if sv < rows - 1 {
        lemma_rows_invert_below((rows - 1) as nat, sv);
    }
}

/// Every row of the table is a permutation of the four blocks, and
/// `BLOCK_POSITION_INVERT` names for each row one that undoes it.
pub proof fn lemma_row_inverts(sv: int)
    requires
        0 <= sv < 32,
    ensures
        row_inverts(sv),
{
    assert(rows_invert(32)) by {
        reveal_with_fuel(rows_invert, 33);
    }
    lemma_rows_invert_below(32, sv);
}

/// A row of the table names blocks 0 to 3 only.
pub proof fn lemma_block_source_in_range(sv: int, block: int)
    requires
        0 <= sv < 32,
        0 <= block < 4,
    ensures
        0 <= block_source(sv, block) < 4,
{
    lemma_row_inverts(sv);
}

/// The product of a block size and a block number, without multiplication.
pub proof fn lemma_block_start(block_size: int, block: int)
    requires
        0 <= block <= 4,
    ensures
        block_size * block == if block == 0 {
            0
        } else if block == 1 {
            block_size
        } else if block == 2 {
            2 * block_size
        } else if block == 3 {
            3 * block_size
        } else {
            4 * block_size
        },
{
    if block == 0 {
        assert(block_size * block == 0) by (nonlinear_arith)
            requires
                block == 0,
        ;
    } else if block == 1 {
        assert(block_size * block == block_size) by (nonlinear_arith)
            requires
                block == 1,
        ;
    } else if block == 2 {
        assert(block_size * block == 2 * block_size) by (nonlinear_arith)
            requires
                block == 2,
        ;
    } else if block == 3 {
        assert(block_size * block == 3 * block_size) by (nonlinear_arith)
            requires
                block == 3,
        ;
    } else {
        assert(block_size * block == 4 * block_size) by (nonlinear_arith)
            requires
                block == 4,
        ;
    }
}

/// XORs the keystream of `seed` onto every byte of `data` after the header.
pub fn crypt_pkm(data: Vec<u8>, seed: u32) -> (out: Vec<u8>)
    requires
        data@.len() % 2 == 0 || data@.len() <= 8,
    ensures
        out@ == crypt(data@, seed),
        out@.len() == data@.len(),
{
    let mut out = data;
    let n: usize = out.len();
    let mut state: u32 = seed;
    let mut i: usize = 8;
    let ghost mut step: nat = 0;
    while i < n
        invariant
            out@.len() == n,
            n == data@.len(),
            n % 2 == 0 || n <= 8,
            i == 8 + 2 * step,
            i <= n || n < 8,
            state == seed_after(seed, step),
            forall|j: int| 8 <= j < i ==> out@[j] == data@[j] ^ key_byte(seed, j),
            forall|j: int| 0 <= j < 8 && j < n ==> out@[j] == data@[j],
            forall|j: int| i <= j < n ==> out@[j] == data@[j],
        decreases n - i,
    {
        state = advance(state);
        let (low, high) = key_pair(state);
        proof {
            lemma_key_bytes_of_step(seed, step);
            step = step + 1;
        }
        out[i] = out[i] ^ low;
        out[i + 1] = out[i + 1] ^ high;
        i += 2;
    }
    assert(out@ =~= crypt(data@, seed));
    out
}

/// Reorders the four blocks of `data` under shuffle index `sv`.
pub fn shuffle_array(data: &[u8], sv: usize, block_size: usize) -> (result: Vec<u8>)
    requires
        sv < 32,
        8 + 4 * block_size <= data@.len(),
    ensures
        result@ == shuffle(data@, sv as int, block_size as int),
        result@.len() == data@.len(),
{
    let n: usize = data.len();
    let mut result: Vec<u8> = slice_to_vec(data);
    let mut block: usize = 0;
    while block < 4
        invariant
            block <= 4,
            sv < 32,
            n == data@.len(),
            8 + 4 * block_size <= data@.len(),
            result@.len() == data@.len(),
            forall|j: int|
                0 <= j < data@.len() && j < 8 + block_size * block ==> result@[j] == shuffle(
                    data@,
                    sv as int,
                    block_size as int,
                )[j],
            forall|j: int| 8 + block_size * block <= j < data@.len() ==> result@[j] == data@[j],
        decreases 4 - block,
    {
        let offset: usize = BLOCK_POSITION[(sv * 4) + block];
        proof {
            lemma_block_source_in_range(sv as int, block as int);
            lemma_block_start(block_size as int, block as int);
            lemma_block_start(block_size as int, block + 1);
            lemma_block_start(block_size as int, offset as int);
        }
        let source_start: usize = 8 + (block_size * offset);
        let dest_start: usize = 8 + (block_size * block);
        let mut i: usize = 0;
        while i < block_size
            invariant
                i <= block_size,
                n == data@.len(),
                block < 4,
                offset < 4,
                sv < 32,
                offset == block_source(sv as int, block as int),
                8 + 4 * block_size <= data@.len(),
                source_start == 8 + block_size * offset,
                dest_start == 8 + block_size * block,
                source_start + block_size <= data@.len(),
                dest_start + block_size <= data@.len(),
                block_of(dest_start as int, block_size as int) == block || block_size == 0,
                block_of(dest_start + block_size - 1, block_size as int) == block || block_size
                    == 0,
                result@.len() == data@.len(),
                forall|j: int|
                    0 <= j < dest_start + i ==> result@[j] == shuffle(
                        data@,
                        sv as int,
                        block_size as int,
                    )[j],
                forall|j: int| dest_start + i <= j < data@.len() ==> result@[j] == data@[j],
            decreases block_size - i,
        {
            assert(block_of(dest_start + i, block_size as int) == block);
            assert(shuffled_from(dest_start + i, sv as int, block_size as int) == source_start
                + i);
            result[dest_start + i] = data[source_start + i];
            i += 1;
        }
        block += 1;
    }
    proof {
        lemma_block_start(block_size as int, 4);
        assert(result@ =~= shuffle(data@, sv as int, block_size as int));
    }
    result
}

/// Takes the cipher off a record.
pub fn decrypt(ekx: Vec<u8>, block_size: usize) -> (pkx: Vec<u8>)
    requires
        ekx@.len() % 2 == 0,
        8 + 4 * block_size <= ekx@.len(),
    ensures
        pkx@ == decrypted(ekx@, block_size as int),
{
    let seed: u32 = ekx.default_read_le_u32(0);
    let sv: usize = shuffle_index_of(seed);
    let pkx: Vec<u8> = crypt_pkm(ekx, seed);
    shuffle_array(pkx.as_slice(), sv, block_size)
}

/// Puts the cipher on a record.
pub fn encrypt(pkx: Vec<u8>, block_size: usize) -> (ekx: Vec<u8>)
    requires
        pkx@.len() % 2 == 0,
        8 + 4 * block_size <= pkx@.len(),
    ensures
        ekx@ == encrypted(pkx@, block_size as int),
{
    let seed: u32 = pkx.default_read_le_u32(0);
    let sv: usize = shuffle_index_of(seed);
    proof {
        lemma_row_inverts(sv as int);
    }
    let shuffled: Vec<u8> = shuffle_array(pkx.as_slice(), BLOCK_POSITION_INVERT[sv], block_size);
    crypt_pkm(shuffled, seed)
}

/// The sum of the 16-bit little-endian words of `pkx`, modulo 65536.
pub fn calculate_checksum(pkx: &[u8]) -> (checksum: u16)
    ensures
        checksum == checksum_of(pkx@),
{
    let n: usize = pkx.len();
    let mut checksum: u16 = 0;
    let mut i: usize = 0;
    while i + 1 < n
        invariant
            n == pkx@.len(),
            i % 2 == 0,
            i <= n,
            checksum == (word_sum(pkx@, (i / 2) as nat) % 0x1_0000) as u16,
        decreases n - i,
    {
        let chunk: u16 = u16_from_le(pkx[i], pkx[i + 1]);
        assert(word_sum(pkx@, (i / 2 + 1) as nat) == word_sum(pkx@, (i / 2) as nat) + chunk);
        checksum = checksum.wrapping_add(chunk);
        i += 2;
    }
    assert(i / 2 == n / 2);
    checksum
}

/// XOR with the same byte twice gives the first byte back.
pub proof fn lemma_xor_twice(byte: u8, key: u8)
    ensures
        (byte ^ key) ^ key == byte,
{
    assert((byte ^ key) ^ key == byte) by (bit_vector);
}

/// The keystream leaves the length and the header of a record as they are,
/// and so its seed.
pub proof fn lemma_crypt_keeps_header(data: Seq<u8>, seed: u32)
    ensures
        crypt(data, seed).len() == data.len(),
        forall|i: int| 0 <= i < 8 && i < data.len() ==> crypt(data, seed)[i] == data[i],
        seed_of(crypt(data, seed)) == seed_of(data),
{
}

/// The keystream of one seed, put on twice, is taken off again.
pub proof fn lemma_crypt_twice(data: Seq<u8>, seed: u32)
    ensures
        crypt(crypt(data, seed), seed) == data,
{
    assert forall|i: int| 0 <= i < data.len() implies crypt(crypt(data, seed), seed)[i]
        == data[i] by {
        if i >= 8 {
            lemma_xor_twice(data[i], key_byte(seed, i));
        }
    }
    assert(crypt(crypt(data, seed), seed) =~= data);
}

/// The reordering leaves the length and the header of a record as they are,
/// and so its seed.
pub proof fn lemma_shuffle_keeps_header(data: Seq<u8>, sv: int, block_size: int)
    requires
        0 <= block_size,
    ensures
        shuffle(data, sv, block_size).len() == data.len(),
        forall|i: int|
            0 <= i < 8 && i < data.len() ==> shuffle(data, sv, block_size)[i] == data[i],
        seed_of(shuffle(data, sv, block_size)) == seed_of(data),
{
}

/// Where the rows `first` and `second` undo one another, a byte that is
/// traced back through `second` and through `first` is found where it is.
proof fn lemma_shuffled_from_twice(index: int, first: int, second: int, block_size: int)
    requires
        0 <= block_size,
        8 <= index < 8 + 4 * block_size,
        0 <= block_source(second, block_of(index, block_size)) < 4,
        block_source(first, block_source(second, block_of(index, block_size))) == block_of(
            index,
            block_size,
        ),
    ensures
        8 <= shuffled_from(index, second, block_size) < 8 + 4 * block_size,
        shuffled_from(shuffled_from(index, second, block_size), first, block_size) == index,
{
    let block = block_of(index, block_size);
    let source = block_source(second, block);
    lemma_block_start(block_size, block);
    lemma_block_start(block_size, source);
    let middle = shuffled_from(index, second, block_size);
    assert(block_of(middle, block_size) == source);
}

/// Reordering under a shuffle index and under the index that
/// `BLOCK_POSITION_INVERT` gives for it, in either order, gives the record
/// back.
pub proof fn lemma_shuffle_undone(data: Seq<u8>, sv: int, block_size: int)
    requires
        0 <= sv < 32,
        0 <= block_size,
        8 + 4 * block_size <= data.len(),
    ensures
        shuffle(
            shuffle(data, BLOCK_POSITION_INVERT[sv] as int, block_size),
            sv,
            block_size,
        ) == data,
        shuffle(
            shuffle(data, sv, block_size),
            BLOCK_POSITION_INVERT[sv] as int,
            block_size,
        ) == data,
{
    let inv = BLOCK_POSITION_INVERT[sv] as int;
    lemma_row_inverts(sv);
    lemma_row_inverts(inv);
    let there = shuffle(shuffle(data, inv, block_size), sv, block_size);
    let back = shuffle(shuffle(data, sv, block_size), inv, block_size);
    assert forall|i: int| 0 <= i < data.len() implies there[i] == data[i] && back[i]
        == data[i] by {
        if 8 <= i < 8 + 4 * block_size {
            lemma_shuffled_from_twice(i, inv, sv, block_size);
            lemma_shuffled_from_twice(i, sv, inv, block_size);
        }
    }
    assert(there =~= data);
    assert(back =~= data);
}

/// The cipher leaves the length and the header of a record as they are.
pub proof fn lemma_cipher_keeps_header(data: Seq<u8>, block_size: int)
    requires
        0 <= block_size,
    ensures
        decrypted(data, block_size).len() == data.len(),
        encrypted(data, block_size).len() == data.len(),
        forall|i: int|
            0 <= i < 8 && i < data.len() ==> decrypted(data, block_size)[i] == data[i]
                && encrypted(data, block_size)[i] == data[i],
{
}

/// Decryption undoes encryption.
pub proof fn lemma_decrypt_encrypt(data: Seq<u8>, block_size: int)
    requires
        0 <= block_size,
        8 + 4 * block_size <= data.len(),
    ensures
        decrypted(encrypted(data, block_size), block_size) == data,
{
    let seed = seed_of(data);
    let sv = shuffle_index(seed) as int;
    assert(0 <= sv < 32) by {
        lemma_shuffle_index_in_range(seed);
    }
    let inv = BLOCK_POSITION_INVERT[sv] as int;
    let shuffled = shuffle(data, inv, block_size);
    lemma_shuffle_keeps_header(data, inv, block_size);
    lemma_crypt_keeps_header(shuffled, seed);
    lemma_crypt_twice(shuffled, seed);
    lemma_shuffle_undone(data, sv, block_size);
}

/// Encryption undoes decryption.
pub proof fn lemma_encrypt_decrypt(data: Seq<u8>, block_size: int)
    requires
        0 <= block_size,
        8 + 4 * block_size <= data.len(),
    ensures
        encrypted(decrypted(data, block_size), block_size) == data,
{
    let seed = seed_of(data);
    let sv = shuffle_index(seed) as int;
    assert(0 <= sv < 32) by {
        lemma_shuffle_index_in_range(seed);
    }
    let plain = crypt(data, seed);
    lemma_crypt_keeps_header(data, seed);
    lemma_shuffle_keeps_header(plain, sv, block_size);
    lemma_shuffle_undone(plain, sv, block_size);
    lemma_crypt_twice(data, seed);
}

} // verus!
