//! Hashing and encoding: the SHA-256 digest (through the `sha2` crate), its
//! lowercase hex rendering (through the `hex` crate), and verified decimal
//! formatting used to build the canonical commitment message.

use sha2::{Digest, Sha256};
use vstd::prelude::*;

verus! {

/// The SHA-256 digest of a byte sequence. Its value is fixed by the SHA-256
/// standard and depends on the input bytes alone.
pub uninterp spec fn sha256_of(data: Seq<u8>) -> Seq<u8>;

/// Relies on sha2::Sha256::digest: the SHA-256 digest of the input, a
/// function of the input bytes alone, always 32 bytes long.
#[verifier::external_body]
pub fn sha256_digest(data: &[u8]) -> (digest: Vec<u8>)
    ensures
        digest@ == sha256_of(data@),
        digest@.len() == 32,
{
    Sha256::digest(data).to_vec()
}

/// The lowercase hex character for a nibble.
pub open spec fn hex_digit(v: u8) -> char
    recommends
        v < 16,
{
    if v == 0 {
        '0'
    } else if v == 1 {
        '1'
    } else if v == 2 {
        '2'
    } else if v == 3 {
        '3'
    } else if v == 4 {
        '4'
    } else if v == 5 {
        '5'
    } else if v == 6 {
        '6'
    } else if v == 7 {
        '7'
    } else if v == 8 {
        '8'
    } else if v == 9 {
        '9'
    } else if v == 10 {
        'a'
    } else if v == 11 {
        'b'
    } else if v == 12 {
        'c'
    } else if v == 13 {
        'd'
    } else if v == 14 {
        'e'
    } else {
        'f'
    }
}

/// Lowercase hex encoding: two characters per byte, high nibble first.
pub open spec fn hex_of(data: Seq<u8>) -> Seq<char>
    decreases data.len(),
{
    if data.len() == 0 {
        Seq::empty()
    } else {
        seq![hex_digit(data.first() / 16), hex_digit(data.first() % 16)] + hex_of(
            data.drop_first(),
        )
    }
}

/// Relies on hex::encode: the lowercase hex rendering of the bytes, two
/// digits per byte, high nibble first.
#[verifier::external_body]
pub fn hex_encode(data: &Vec<u8>) -> (s: String)
    ensures
        s@ == hex_of(data@),
{
    hex::encode(data)
}

/// The decimal digit characters.
pub open spec fn digit_char(d: int) -> char
    recommends
        0 <= d < 10,
{
    if d == 0 {
        '0'
    } else if d == 1 {
        '1'
    } else if d == 2 {
        '2'
    } else if d == 3 {
        '3'
    } else if d == 4 {
        '4'
    } else if d == 5 {
        '5'
    } else if d == 6 {
        '6'
    } else if d == 7 {
        '7'
    } else if d == 8 {
        '8'
    } else {
        '9'
    }
}

/// The decimal rendering of a natural number, without leading zeroes
/// (a single zero stands for the number zero).
pub open spec fn dec_chars(n: nat) -> Seq<char>
    decreases n,
{
    if n < 10 {
        seq![digit_char(n as int)]
    } else {
        dec_chars(n / 10).push(digit_char((n % 10) as int))
    }
}

/// The one-character string for a decimal digit.
fn digit_str(d: u8) -> (s: &'static str)
    requires
        d < 10,
    ensures
        s@ == seq![digit_char(d as int)],
{
    let s: &'static str = match d {
        0 => "0",
        1 => "1",
        2 => "2",
        3 => "3",
        4 => "4",
        5 => "5",
        6 => "6",
        7 => "7",
        8 => "8",
        _ => "9",
    };
    proof {
        reveal_strlit("0");
        reveal_strlit("1");
        reveal_strlit("2");
        reveal_strlit("3");
        reveal_strlit("4");
        reveal_strlit("5");
        reveal_strlit("6");
        reveal_strlit("7");
        reveal_strlit("8");
        reveal_strlit("9");
        assert(s@ =~= seq![digit_char(d as int)]);
    }
    s
}

/// Append the decimal rendering of `n` to `out`.
pub fn append_decimal(out: &mut String, n: u128)
    ensures
        final(out)@ == old(out)@ + dec_chars(n as nat),
    decreases n,
{
    if n >= 10 {
        proof {
            vstd::arithmetic::div_mod::lemma_div_is_strictly_smaller(n as int, 10);
        }
        append_decimal(out, n / 10);
    }
    let d: u8 = (n % 10) as u8;
    out.append(digit_str(d));
    proof {
        if n >= 10 {
            assert(old(out)@ + dec_chars((n / 10) as nat) + seq![digit_char((n % 10) as int)]
                =~= old(out)@ + dec_chars(n as nat));
        } else {
            assert(old(out)@ + dec_chars(n as nat) =~= old(out)@ + seq![
                digit_char(n as int),
            ]);
        }
    }
}

/// The comma-joined decimal renderings of a list of numbers.
pub open spec fn numbers_chars(numbers: Seq<u16>) -> Seq<char>
    decreases numbers.len(),
{
    if numbers.len() == 0 {
        Seq::empty()
    } else if numbers.len() == 1 {
        dec_chars(numbers[0] as nat)
    } else {
        numbers_chars(numbers.drop_last()) + seq![','] + dec_chars(numbers.last() as nat)
    }
}

/// Append the comma-joined decimal renderings of `numbers` to `out`.
pub fn append_numbers(out: &mut String, numbers: &[u16])
    ensures
        final(out)@ == old(out)@ + numbers_chars(numbers@),
{
    let ghost all: Seq<u16> = numbers@;
    let n = numbers.len();
    assert(numbers@.subrange(0, 0) =~= Seq::<u16>::empty());
    for i in 0..n
        invariant
            n == all.len(),
            numbers@ == all,
            out@ == old(out)@ + numbers_chars(all.subrange(0, i as int)),
    {
        if i > 0 {
            out.append(",");
            proof {
                reveal_strlit(",");
                assert(","@ =~= seq![',']);
            }
        }
        append_decimal(out, numbers[i] as u128);
        proof {
            let prefix = all.subrange(0, i as int);
            let next = all.subrange(0, i + 1);
            assert(next.drop_last() =~= prefix);
            assert(next.last() == all[i as int]);
            assert(out@ =~= old(out)@ + numbers_chars(next));
        }
    }
    assert(all.subrange(0, n as int) =~= all);
}

/// The canonical commitment message: the bet amount, the comma-joined
/// numbers, and the seed, separated by pipes.
pub open spec fn commit_message(amount: u128, numbers: Seq<u16>, seed: Seq<char>) -> Seq<char> {
    dec_chars(amount as nat) + seq!['|'] + numbers_chars(numbers) + seq!['|'] + seed
}

/// The commitment digest: the lowercase hex SHA-256 of the UTF-8 bytes of
/// the canonical commitment message.
pub open spec fn commitment_digest(amount: u128, numbers: Seq<u16>, seed: Seq<char>) -> Seq<
    char,
> {
    hex_of(sha256_of(vstd::utf8::encode_utf8(commit_message(amount, numbers, seed))))
}

/// Commit-reveal binding: the commitment digest is a function of the bet
/// amount, the numbers and the seed alone, so recomputing it from equal
/// inputs always reproduces the same hash.
pub proof fn lemma_commitment_digest_deterministic(
    amount1: u128,
    numbers1: Seq<u16>,
    seed1: Seq<char>,
    amount2: u128,
    numbers2: Seq<u16>,
    seed2: Seq<char>,
)
    requires
        amount1 == amount2,
        numbers1 == numbers2,
        seed1 == seed2,
    ensures
        commitment_digest(amount1, numbers1, seed1) == commitment_digest(
            amount2,
            numbers2,
            seed2,
        ),
{
}

/// Build the canonical commitment message for the given inputs.
pub fn build_commit_message(amount: u128, numbers: &[u16], seed: &str) -> (msg: String)
    ensures
        msg@ == commit_message(amount, numbers@, seed@),
{
    let mut msg = String::new();
    append_decimal(&mut msg, amount);
    msg.append("|");
    append_numbers(&mut msg, numbers);
    msg.append("|");
    msg.append(seed);
    proof {
        reveal_strlit("|");
        assert("|"@ =~= seq!['|']);
        assert(msg@ =~= commit_message(amount, numbers@, seed@));
    }
    msg
}

/// Compute the commitment digest for the given inputs: SHA-256 over the
/// canonical message, rendered as lowercase hex.
pub fn compute_commitment_digest(amount: u128, numbers: &[u16], seed: &str) -> (hash: String)
    ensures
        hash@ == commitment_digest(amount, numbers@, seed@),
{
    let msg = build_commit_message(amount, numbers, seed);
    let digest = sha256_digest(msg.as_str().as_bytes());
    hex_encode(&digest)
}

/// Compare two strings character by character.
pub fn str_eq(a: &str, b: &str) -> (r: bool)
    ensures
        r == (a@ == b@),
{
    let alen = a.unicode_len();
    let blen = b.unicode_len();
    if alen != blen {
        proof {
            assert(a@.len() != b@.len());
        }
        return false;
    }
    for i in 0..alen
        invariant
            alen == a@.len(),
            alen == b@.len(),
            forall|j: int| 0 <= j < i ==> a@[j] == b@[j],
    {
        if a.get_char(i) != b.get_char(i) {
            return false;
        }
    }
    proof {
        assert(a@ =~= b@);
    }
    true
}

/// Whether a character is an ASCII hex digit.
pub open spec fn is_hex_char(c: char) -> bool {
    (48 <= c as u32 && c as u32 <= 57) || (97 <= c as u32 && c as u32 <= 102) || (65 <= c as u32
        && c as u32 <= 70)
}

/// Whether a string of characters is a well-formed 64-digit hex hash.
pub open spec fn is_hex64(s: Seq<char>) -> bool {
    s.len() == 64 && forall|i: int| 0 <= i < s.len() ==> is_hex_char(#[trigger] s[i])
}

/// Check that `s` is exactly 64 ASCII hex digits.
pub fn check_hex64(s: &str) -> (r: bool)
    ensures
        r == is_hex64(s@),
{
    let len = s.unicode_len();
    if len != 64 {
        return false;
    }
    for i in 0..64usize
        invariant
            s@.len() == 64,
            forall|j: int| 0 <= j < i ==> is_hex_char(#[trigger] s@[j]),
    {
        let c = s.get_char(i);
        let u = c as u32;
        let ok = (48 <= u && u <= 57) || (97 <= u && u <= 102) || (65 <= u && u <= 70);
        if !ok {
            return false;
        }
    }
    true
}

} // verus!
