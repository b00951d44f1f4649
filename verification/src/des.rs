//! The DES block cipher, as far as the VNC password check needs it: one block
//! is encrypted under one key.

use vstd::prelude::*;
use crate::wire::{be16_bytes, be32, be32_bytes, be64, be64_bytes};

verus! {

/// The initial permutation of a block.
pub const IP: [u8; 64] = [
    58, 50, 42, 34, 26, 18, 10, 2,
    60, 52, 44, 36, 28, 20, 12, 4,
    62, 54, 46, 38, 30, 22, 14, 6,
    64, 56, 48, 40, 32, 24, 16, 8,
    57, 49, 41, 33, 25, 17, 9, 1,
    59, 51, 43, 35, 27, 19, 11, 3,
    61, 53, 45, 37, 29, 21, 13, 5,
    63, 55, 47, 39, 31, 23, 15, 7,
];

/// The final permutation of a block, which undoes the initial one.
pub const FP: [u8; 64] = [
    40, 8, 48, 16, 56, 24, 64, 32,
    39, 7, 47, 15, 55, 23, 63, 31,
    38, 6, 46, 14, 54, 22, 62, 30,
    37, 5, 45, 13, 53, 21, 61, 29,
    36, 4, 44, 12, 52, 20, 60, 28,
    35, 3, 43, 11, 51, 19, 59, 27,
    34, 2, 42, 10, 50, 18, 58, 26,
    33, 1, 41, 9, 49, 17, 57, 25,
];

/// The expansion of a half block from 32 to 48 bits.
pub const EXPANSION: [u8; 48] = [
    32, 1, 2, 3, 4, 5,
    4, 5, 6, 7, 8, 9,
    8, 9, 10, 11, 12, 13,
    12, 13, 14, 15, 16, 17,
    16, 17, 18, 19, 20, 21,
    20, 21, 22, 23, 24, 25,
    24, 25, 26, 27, 28, 29,
    28, 29, 30, 31, 32, 1,
];

/// The permutation at the end of a round.
pub const ROUND: [u8; 32] = [
    16, 7, 20, 21, 29, 12, 28, 17,
    1, 15, 23, 26, 5, 18, 31, 10,
    2, 8, 24, 14, 32, 27, 3, 9,
    19, 13, 30, 6, 22, 11, 4, 25,
];

/// The choice of 56 key bits out of 64.
pub const PC1: [u8; 56] = [
    57, 49, 41, 33, 25, 17, 9,
    1, 58, 50, 42, 34, 26, 18,
    10, 2, 59, 51, 43, 35, 27,
    19, 11, 3, 60, 52, 44, 36,
    63, 55, 47, 39, 31, 23, 15,
    7, 62, 54, 46, 38, 30, 22,
    14, 6, 61, 53, 45, 37, 29,
    21, 13, 5, 28, 20, 12, 4,
];

/// The choice of the 48 bits of a round key.
pub const PC2: [u8; 48] = [
    14, 17, 11, 24, 1, 5,
    3, 28, 15, 6, 21, 10,
    23, 19, 12, 4, 26, 8,
    16, 7, 27, 20, 13, 2,
    41, 52, 31, 37, 47, 55,
    30, 40, 51, 45, 33, 48,
    44, 49, 39, 56, 34, 53,
    46, 42, 50, 36, 29, 32,
];

/// By how many bits the key halves turn before each round.
pub const SHIFTS: [u8; 16] = [
    1, 1, 2, 2, 2, 2, 2, 2, 1, 2, 2, 2, 2, 2, 2, 1,
];

/// The eight substitution boxes, one after the other, four rows of sixteen
/// values each.
pub const SBOX: [u8; 512] = [
    14, 4, 13, 1, 2, 15, 11, 8, 3, 10, 6, 12, 5, 9, 0, 7,
    0, 15, 7, 4, 14, 2, 13, 1, 10, 6, 12, 11, 9, 5, 3, 8,
    4, 1, 14, 8, 13, 6, 2, 11, 15, 12, 9, 7, 3, 10, 5, 0,
    15, 12, 8, 2, 4, 9, 1, 7, 5, 11, 3, 14, 10, 0, 6, 13,
    15, 1, 8, 14, 6, 11, 3, 4, 9, 7, 2, 13, 12, 0, 5, 10,
    3, 13, 4, 7, 15, 2, 8, 14, 12, 0, 1, 10, 6, 9, 11, 5,
    0, 14, 7, 11, 10, 4, 13, 1, 5, 8, 12, 6, 9, 3, 2, 15,
    13, 8, 10, 1, 3, 15, 4, 2, 11, 6, 7, 12, 0, 5, 14, 9,
    10, 0, 9, 14, 6, 3, 15, 5, 1, 13, 12, 7, 11, 4, 2, 8,
    13, 7, 0, 9, 3, 4, 6, 10, 2, 8, 5, 14, 12, 11, 15, 1,
    13, 6, 4, 9, 8, 15, 3, 0, 11, 1, 2, 12, 5, 10, 14, 7,
    1, 10, 13, 0, 6, 9, 8, 7, 4, 15, 14, 3, 11, 5, 2, 12,
    7, 13, 14, 3, 0, 6, 9, 10, 1, 2, 8, 5, 11, 12, 4, 15,
    13, 8, 11, 5, 6, 15, 0, 3, 4, 7, 2, 12, 1, 10, 14, 9,
    10, 6, 9, 0, 12, 11, 7, 13, 15, 1, 3, 14, 5, 2, 8, 4,
    3, 15, 0, 6, 10, 1, 13, 8, 9, 4, 5, 11, 12, 7, 2, 14,
    2, 12, 4, 1, 7, 10, 11, 6, 8, 5, 3, 15, 13, 0, 14, 9,
    14, 11, 2, 12, 4, 7, 13, 1, 5, 0, 15, 10, 3, 9, 8, 6,
    4, 2, 1, 11, 10, 13, 7, 8, 15, 9, 12, 5, 6, 3, 0, 14,
    11, 8, 12, 7, 1, 14, 2, 13, 6, 15, 0, 9, 10, 4, 5, 3,
    12, 1, 10, 15, 9, 2, 6, 8, 0, 13, 3, 4, 14, 7, 5, 11,
    10, 15, 4, 2, 7, 12, 9, 5, 6, 1, 13, 14, 0, 11, 3, 8,
    9, 14, 15, 5, 2, 8, 12, 3, 7, 0, 4, 10, 1, 13, 11, 6,
    4, 3, 2, 12, 9, 5, 15, 10, 11, 14, 1, 7, 6, 0, 8, 13,
    4, 11, 2, 14, 15, 0, 8, 13, 3, 12, 9, 7, 5, 10, 6, 1,
    13, 0, 11, 7, 4, 9, 1, 10, 14, 3, 5, 12, 2, 15, 8, 6,
    1, 4, 11, 13, 12, 3, 7, 14, 10, 15, 6, 8, 0, 5, 9, 2,
    6, 11, 13, 8, 1, 4, 10, 7, 9, 5, 0, 15, 14, 2, 3, 12,
    13, 2, 8, 4, 6, 15, 11, 1, 10, 9, 3, 14, 5, 0, 12, 7,
    1, 15, 13, 8, 10, 3, 7, 4, 12, 5, 6, 11, 0, 14, 9, 2,
    7, 11, 4, 1, 9, 12, 14, 2, 0, 6, 10, 13, 15, 3, 5, 8,
    2, 1, 14, 7, 4, 10, 8, 13, 15, 12, 9, 0, 3, 5, 6, 11,
];

/// Bit `from` of the `width` bits of `input`, counted from the most
/// significant, which is bit 1.
pub open spec fn pick_bit(input: u64, from: u8, width: u8) -> u64 {
    if 1 <= from && from <= width && width <= 64 {
        (input >> ((width - from) as u64)) & 1
    } else {
        0
    }
}

/// The bits of `input` that the first `n` entries of `table` name, in that
/// order.
pub open spec fn permuted(input: u64, table: Seq<u8>, width: u8, n: nat) -> u64
    decreases n,
{
    if n == 0 {
        0
    } else {
        (permuted(input, table, width, (n - 1) as nat) << 1) | pick_bit(
            input,
            table[n - 1],
            width,
        )
    }
}

fn permute(input: u64, table: &[u8], width: u8) -> (r: u64)
    ensures
        r == permuted(input, table@, width, table@.len()),
{
    let mut out: u64 = 0;
    let mut i: usize = 0;
    while i < table.len()
        invariant
            i <= table@.len(),
            out == permuted(input, table@, width, i as nat),
        decreases table@.len() - i,
    {
        let from = table[i];
        let bit: u64 = if 1 <= from && from <= width && width <= 64 {
            (input >> ((width - from) as u64)) & 1
        } else {
            0
        };
        out = (out << 1) | bit;
        i += 1;
    }
    out
}

/// A key half of 28 bits, turned left by `n` bits.
pub open spec fn turned(half: u64, n: u8) -> u64 {
    if n <= 28 {
        ((half << (n as u64)) | (half >> ((28 - n) as u64))) & 0xfff_ffff
    } else {
        half
    }
}

fn turn(half: u64, n: u8) -> (r: u64)
    ensures
        r == turned(half, n),
{
    if n <= 28 {
        ((half << (n as u64)) | (half >> ((28 - n) as u64))) & 0xfff_ffff
    } else {
        half
    }
}

/// The two halves of the key as they stand after `n` rounds.
pub open spec fn halves(key: u64, n: nat) -> (u64, u64)
    decreases n,
{
    if n == 0 {
        (permuted(key, PC1@, 64, 56) >> 28, permuted(key, PC1@, 64, 56) & 0xfff_ffff)
    } else if n <= 16 {
        (
            turned(halves(key, (n - 1) as nat).0, SHIFTS@[n - 1]),
            turned(halves(key, (n - 1) as nat).1, SHIFTS@[n - 1]),
        )
    } else {
        halves(key, (n - 1) as nat)
    }
}

/// The key of round `i`, counted from 0.
pub open spec fn round_key(key: u64, i: nat) -> u64 {
    permuted((halves(key, i + 1).0 << 28) | halves(key, i + 1).1, PC2@, 56, 48)
}

/// What substitution box `i` gives for its six bits of `x`.
pub open spec fn substituted(x: u64, i: nat) -> u64 {
    let six = (x >> ((42 - 6 * i) as u64)) & 0x3f;
    let row = ((six >> 5) << 1) | (six & 1);
    let column = (six >> 1) & 0xf;
    if i < 8 && row < 4 && column < 16 {
        SBOX@[i * 64 + row * 16 + column] as u64
    } else {
        0
    }
}

/// What the first `n` substitution boxes give for `x`, four bits each.
pub open spec fn boxes(x: u64, n: nat) -> u64
    decreases n,
{
    if n == 0 {
        0
    } else {
        (boxes(x, (n - 1) as nat) << 4) | substituted(x, (n - 1) as nat)
    }
}

/// The round function: the half block is expanded, mixed with the round key,
/// substituted and permuted.
pub open spec fn feistel(half: u64, key: u64) -> u64 {
    permuted(boxes(permuted(half, EXPANSION@, 32, 48) ^ key, 8), ROUND@, 32, 32)
}

fn substitute(x: u64, i: usize) -> (r: u64)
    requires
        i < 8,
    ensures
        r == substituted(x, i as nat),
{
    let six = (x >> ((42 - 6 * i) as u64)) & 0x3f;
    let row = ((six >> 5) << 1) | (six & 1);
    let column = (six >> 1) & 0xf;
    if row < 4 && column < 16 {
        SBOX[i * 64 + (row as usize) * 16 + (column as usize)] as u64
    } else {
        0
    }
}

fn round(half: u64, key: u64) -> (r: u64)
    ensures
        r == feistel(half, key),
{
    let x = permute(half, EXPANSION.as_slice(), 32) ^ key;
    let mut out: u64 = 0;
    let mut i: usize = 0;
    while i < 8
        invariant
            i <= 8,
            out == boxes(x, i as nat),
        decreases 8 - i,
    {
        out = (out << 4) | substitute(x, i);
        i += 1;
    }
    permute(out, ROUND.as_slice(), 32)
}

/// The two halves of a block after `n` rounds under `key`.
pub open spec fn rounds(left: u64, right: u64, key: u64, n: nat) -> (u64, u64)
    decreases n,
{
    if n == 0 {
        (left, right)
    } else {
        (
            rounds(left, right, key, (n - 1) as nat).1,
            rounds(left, right, key, (n - 1) as nat).0 ^ feistel(
                rounds(left, right, key, (n - 1) as nat).1,
                round_key(key, (n - 1) as nat),
            ),
        )
    }
}

/// The block `block` encrypted under `key`: the initial permutation, sixteen
/// rounds, the two halves changed over, and the final permutation.
#[verifier::opaque]
pub open spec fn encrypted(key: u64, block: u64) -> u64 {
    let start = permuted(block, IP@, 64, 64);
    let end = rounds(start >> 32, start & 0xffff_ffff, key, 16);
    permuted((end.1 << 32) | end.0, FP@, 64, 64)
}

/// Encrypts one block under one key.
pub fn encrypt_block(key: u64, block: u64) -> (r: u64)
    ensures
        r == encrypted(key, block),
{
    reveal(encrypted);
    let chosen = permute(key, PC1.as_slice(), 64);
    let mut c: u64 = chosen >> 28;
    let mut d: u64 = chosen & 0xfff_ffff;
    let start = permute(block, IP.as_slice(), 64);
    let mut left: u64 = start >> 32;
    let mut right: u64 = start & 0xffff_ffff;
    let mut i: usize = 0;
    while i < 16
        invariant
            i <= 16,
            (c, d) == halves(key, i as nat),
            (left, right) == rounds(start >> 32, start & 0xffff_ffff, key, i as nat),
        decreases 16 - i,
    {
        c = turn(c, SHIFTS[i]);
        d = turn(d, SHIFTS[i]);
        let k = permute((c << 28) | d, PC2.as_slice(), 56);
        assert(k == round_key(key, i as nat));
        let mixed = left ^ round(right, k);
        left = right;
        right = mixed;
        i += 1;
    }
    permute((right << 32) | left, FP.as_slice(), 64)
}

/// `b` with its bits in the opposite order.
pub open spec fn reversed(b: u8) -> u8 {
    (b % 2 * 128 + b / 2 % 2 * 64 + b / 4 % 2 * 32 + b / 8 % 2 * 16 + b / 16 % 2 * 8 + b / 32 % 2
        * 4 + b / 64 % 2 * 2 + b / 128) as u8
}

fn reverse(b: u8) -> (r: u8)
    ensures
        r == reversed(b),
{
    b % 2 * 128 + b / 2 % 2 * 64 + b / 4 % 2 * 32 + b / 8 % 2 * 16 + b / 16 % 2 * 8 + b / 32 % 2
        * 4 + b / 64 % 2 * 2 + b / 128
}

/// Byte `i` of the key that a password stands for: byte `i` of the password
/// with its bits in the opposite order, and zero behind the password's end.
pub open spec fn key_byte(password: Seq<u8>, i: int) -> u8 {
    if i < password.len() {
        reversed(password[i])
    } else {
        0
    }
}

/// The eight bytes of the key that a password stands for. Only the first
/// eight bytes of a password count.
pub open spec fn password_key(password: Seq<u8>) -> Seq<u8> {
    Seq::new(8, |i: int| key_byte(password, i))
}

/// The key that a password stands for.
pub fn key_of(password: &[u8]) -> (key: Vec<u8>)
    ensures
        key@ == password_key(password@),
{
    let mut key: Vec<u8> = Vec::new();
    let mut i: usize = 0;
    while i < 8
        invariant
            i <= 8,
            key@ == password_key(password@).take(i as int),
        decreases 8 - i,
    {
        let b: u8 = if i < password.len() {
            reverse(password[i])
        } else {
            0
        };
        key.push(b);
        assert(key@ =~= password_key(password@).take(i + 1));
        i += 1;
    }
    assert(password_key(password@).take(8) =~= password_key(password@));
    key
}

/// The answer to a challenge of 16 bytes under a key of 8 bytes: each half
/// of the challenge is encrypted as one block.
pub open spec fn response(challenge: Seq<u8>, key: Seq<u8>) -> Seq<u8> {
    be64_bytes(encrypted(be64(key) as u64, be64(challenge) as u64)) + be64_bytes(
        encrypted(be64(key) as u64, be64(challenge.skip(8)) as u64),
    )
}

fn load(bytes: &[u8], at: usize) -> (v: u64)
    requires
        at + 8 <= bytes@.len(),
    ensures
        v == be64(bytes@.skip(at as int)),
{
    let mut v: u64 = 0;
    let a: u64 = (bytes[at] as u64) * 0x100 + bytes[at + 1] as u64;
    let b: u64 = (bytes[at + 2] as u64) * 0x100 + bytes[at + 3] as u64;
    let c: u64 = (bytes[at + 4] as u64) * 0x100 + bytes[at + 5] as u64;
    let d: u64 = (bytes[at + 6] as u64) * 0x100 + bytes[at + 7] as u64;
    proof {
        let s = bytes@.skip(at as int);
        assert(s.skip(2)[0] == s[2] && s.skip(2)[1] == s[3]);
        assert(s.skip(4)[0] == s[4] && s.skip(4)[1] == s[5]);
        assert(s.skip(4).skip(2)[0] == s[6] && s.skip(4).skip(2)[1] == s[7]);
        assert(be32(s) == a * 0x1_0000 + b);
        assert(be32(s.skip(4)) == c * 0x1_0000 + d);
    }
    (a * 0x1_0000 + b) * 0x1_0000_0000 + (c * 0x1_0000 + d)
}

fn store16(v: u16, out: &mut Vec<u8>)
    ensures
        final(out)@ == old(out)@ + be16_bytes(v),
{
    out.push((v / 0x100) as u8);
    out.push((v % 0x100) as u8);
    assert(out@ =~= old(out)@ + be16_bytes(v));
}

fn store32(v: u32, out: &mut Vec<u8>)
    ensures
        final(out)@ == old(out)@ + be32_bytes(v),
{
    store16((v / 0x1_0000) as u16, out);
    store16((v % 0x1_0000) as u16, out);
    assert(out@ =~= old(out)@ + be32_bytes(v));
}

fn store(v: u64, out: &mut Vec<u8>)
    ensures
        final(out)@ == old(out)@ + be64_bytes(v),
{
    store32((v / 0x1_0000_0000) as u32, out);
    store32((v % 0x1_0000_0000) as u32, out);
    assert(out@ =~= old(out)@ + be64_bytes(v));
}

/// Answers a challenge of 16 bytes under a key of 8 bytes.
pub fn encrypt(challenge: &[u8], key: &[u8]) -> (r: Vec<u8>)
    requires
        challenge@.len() == 16,
        key@.len() == 8,
    ensures
        r@ == response(challenge@, key@),
        r@.len() == 16,
{
    let k = load(key, 0);
    assert(key@.skip(0) =~= key@);
    assert(challenge@.skip(0) =~= challenge@);
    let mut out: Vec<u8> = Vec::new();
    store(encrypt_block(k, load(challenge, 0)), &mut out);
    store(encrypt_block(k, load(challenge, 8)), &mut out);
    out
}

} // verus!
