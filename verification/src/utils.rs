//! Base64, for handing bytes to a presentation layer that takes text.

use vstd::prelude::*;

verus! {

/// The 64 characters that stand for six bits each: `A` to `Z`, `a` to `z`,
/// `0` to `9`, `+` and `/`.
pub const BASIS_64: [u8; 64] = [
    65, 66, 67, 68, 69, 70, 71, 72, 73, 74, 75, 76, 77, 78, 79, 80,
    81, 82, 83, 84, 85, 86, 87, 88, 89, 90, 97, 98, 99, 100, 101, 102,
    103, 104, 105, 106, 107, 108, 109, 110, 111, 112, 113, 114, 115, 116, 117, 118,
    119, 120, 121, 122, 48, 49, 50, 51, 52, 53, 54, 55, 56, 57, 43, 47,
];

/// The character that fills the last group.
pub const PAD: u8 = 61;

/// The character for the six bits `v`.
pub open spec fn digit(v: int) -> u8 {
    BASIS_64@[v]
}

/// The four characters for three bytes.
pub open spec fn group(a: u8, b: u8, c: u8) -> Seq<u8> {
    seq![
        digit(a as int / 4),
        digit(a % 4 * 16 + b / 16),
        digit(b % 16 * 4 + c / 64),
        digit(c as int % 64),
    ]
}

/// The four characters for a last group of one or two bytes.
pub open spec fn last_group(rest: Seq<u8>) -> Seq<u8> {
    if rest.len() == 1 {
        seq![digit(rest[0] as int / 4), digit(rest[0] % 4 * 16), PAD, PAD]
    } else {
        seq![
            digit(rest[0] as int / 4),
            digit(rest[0] % 4 * 16 + rest[1] / 16),
            digit(rest[1] % 16 * 4),
            PAD,
        ]
    }
}

/// The Base64 text for `input`: four characters for every three bytes, the
/// last group filled with `=`.
pub open spec fn base64(input: Seq<u8>) -> Seq<u8>
    decreases input.len(),
{
    if input.len() == 0 {
        Seq::empty()
    } else if input.len() < 3 {
        last_group(input)
    } else {
        group(input[0], input[1], input[2]) + base64(input.skip(3))
    }
}

/// The length of the Base64 text is four thirds of the input's, rounded up
/// to whole groups.
pub proof fn lemma_base64_len(input: Seq<u8>)
    ensures
        base64(input).len() == (input.len() + 2) / 3 * 4,
    decreases input.len(),
{
    if input.len() >= 3 {
        lemma_base64_len(input.skip(3));
    }
}

/// Encodes `input` as Base64.
pub fn base64_encode(input: &[u8]) -> (out: Vec<u8>)
    ensures
        out@ == base64(input@),
{
    let len = input.len();
    let mut out: Vec<u8> = Vec::new();
    let mut i: usize = 0;
    assert(input@.skip(0) =~= input@);
    while len - i >= 3
        invariant
            i <= len,
            len == input@.len(),
            base64(input@) == out@ + base64(input@.skip(i as int)),
        decreases len - i,
    {
        let a = input[i];
        let b = input[i + 1];
        let c = input[i + 2];
        let ghost before = out@;
        let ghost rest = input@.skip(i as int);
        out.push(BASIS_64[(a / 4) as usize]);
        out.push(BASIS_64[(a % 4 * 16 + b / 16) as usize]);
        out.push(BASIS_64[(b % 16 * 4 + c / 64) as usize]);
        out.push(BASIS_64[(c % 64) as usize]);
        proof {
            assert(rest.skip(3) =~= input@.skip(i + 3));
            assert(out@ =~= before + group(rest[0], rest[1], rest[2]));
            assert(before + (group(rest[0], rest[1], rest[2]) + base64(rest.skip(3))) =~= out@
                + base64(rest.skip(3)));
        }
        i += 3;
    }
    if i < len {
        let ghost before = out@;
        let ghost rest = input@.skip(i as int);
        let a = input[i];
        out.push(BASIS_64[(a / 4) as usize]);
        if i == len - 1 {
            out.push(BASIS_64[(a % 4 * 16) as usize]);
            out.push(PAD);
        } else {
            let b = input[i + 1];
            out.push(BASIS_64[(a % 4 * 16 + b / 16) as usize]);
            out.push(BASIS_64[(b % 16 * 4) as usize]);
        }
        out.push(PAD);
        assert(out@ =~= before + last_group(rest));
    } else {
        assert(out@ + Seq::<u8>::empty() =~= out@);
    }
    out
}

} // verus!
