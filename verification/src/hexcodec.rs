//! Lowercase hexadecimal encoding and decoding, fully verified.
//!
//! The wire forms of this wallet (anchor payloads, transaction ids, signed
//! transactions, private keys) are all carried as hex text, so the codec is
//! part of the protocol logic and is proved rather than trusted.

use crate::errors::WalletError;
use crate::text::push_char;
use vstd::prelude::*;
use vstd::string::StrSliceExecFns;

verus! {

/// The lowercase hexadecimal digit of a value below 16.
pub open spec fn hex_digit(n: u8) -> char {
    if n == 0 {
        '0'
    } else if n == 1 {
        '1'
    } else if n == 2 {
        '2'
    } else if n == 3 {
        '3'
    } else if n == 4 {
        '4'
    } else if n == 5 {
        '5'
    } else if n == 6 {
        '6'
    } else if n == 7 {
        '7'
    } else if n == 8 {
        '8'
    } else if n == 9 {
        '9'
    } else if n == 10 {
        'a'
    } else if n == 11 {
        'b'
    } else if n == 12 {
        'c'
    } else if n == 13 {
        'd'
    } else if n == 14 {
        'e'
    } else {
        'f'
    }
}

/// The numeric value of a hexadecimal digit, upper or lower case.
pub open spec fn hex_val(c: char) -> Option<u8> {
    if '0' <= c && c <= '9' {
        Some((c as u8 - '0' as u8) as u8)
    } else if 'a' <= c && c <= 'f' {
        Some((c as u8 - 'a' as u8 + 10) as u8)
    } else if 'A' <= c && c <= 'F' {
        Some((c as u8 - 'A' as u8 + 10) as u8)
    } else {
        None
    }
}

/// The lowercase hex text of a byte sequence: two digits per byte, high
/// nibble first.
pub open spec fn hex_of(b: Seq<u8>) -> Seq<char>
    decreases b.len(),
{
    if b.len() == 0 {
        Seq::<char>::empty()
    } else {
        seq![hex_digit(b.first() / 16), hex_digit((b.first() % 16) as u8)] + hex_of(
            b.drop_first(),
        )
    }
}

/// The bytes a hex text denotes, or `None` when a character is not a hex
/// digit or the length is odd.
pub open spec fn hex_decode(s: Seq<char>) -> Option<Seq<u8>>
    decreases s.len(),
{
    if s.len() == 0 {
        Some(Seq::<u8>::empty())
    } else if s.len() == 1 {
        None
    } else {
        match (hex_val(s[0]), hex_val(s[1])) {
            (Some(h), Some(l)) => match hex_decode(s.skip(2)) {
                Some(rest) => Some(seq![(h * 16 + l) as u8] + rest),
                None => None,
            },
            _ => None,
        }
    }
}

/// The hex text of a byte sequence is twice as long.
pub proof fn lemma_hex_of_len(b: Seq<u8>)
    ensures
        hex_of(b).len() == 2 * b.len(),
    decreases b.len(),
{
    if b.len() > 0 {
        lemma_hex_of_len(b.drop_first());
    }
}

/// Decoding only succeeds on even-length text.
pub proof fn lemma_hex_decode_even(s: Seq<char>)
    ensures
        hex_decode(s) is Some ==> s.len() % 2 == 0,
    decreases s.len(),
{
    if s.len() >= 2 {
        lemma_hex_decode_even(s.skip(2));
    }
}

/// Decoding inverts encoding: the hex text of any byte sequence decodes back
/// to exactly that sequence.
pub proof fn lemma_hex_round_trip(b: Seq<u8>)
    ensures
        hex_decode(hex_of(b)) == Some(b),
    decreases b.len(),
{
    if b.len() == 0 {
        assert(hex_of(b).len() == 0);
    } else {
        lemma_hex_round_trip(b.drop_first());
        lemma_hex_of_len(b.drop_first());
        let s = hex_of(b);
        let x = b.first();
        assert(s[0] == hex_digit(x / 16));
        assert(s[1] == hex_digit((x % 16) as u8));
        assert(hex_val(hex_digit(x / 16)) == Some((x / 16) as u8));
        assert(hex_val(hex_digit((x % 16) as u8)) == Some((x % 16) as u8));
        assert(s.skip(2) =~= hex_of(b.drop_first()));
        assert((x / 16) * 16 + (x % 16) == x) by (nonlinear_arith);
        assert(seq![x] + b.drop_first() =~= b);
    }
}

/// The lowercase hex digit of a value below 16.
fn hex_digit_char(n: u8) -> (c: char)
    requires
        n < 16,
    ensures
        c == hex_digit(n),
{
    match n {
        0 => '0',
        1 => '1',
        2 => '2',
        3 => '3',
        4 => '4',
        5 => '5',
        6 => '6',
        7 => '7',
        8 => '8',
        9 => '9',
        10 => 'a',
        11 => 'b',
        12 => 'c',
        13 => 'd',
        14 => 'e',
        _ => 'f',
    }
}

/// The numeric value of one hex character, or `None` when it is not a digit.
fn hex_val_char(c: char) -> (r: Option<u8>)
    ensures
        r == hex_val(c),
{
    if '0' <= c && c <= '9' {
        Some(c as u8 - '0' as u8)
    } else if 'a' <= c && c <= 'f' {
        Some(c as u8 - 'a' as u8 + 10)
    } else if 'A' <= c && c <= 'F' {
        Some(c as u8 - 'A' as u8 + 10)
    } else {
        None
    }
}

/// Encodes bytes as lowercase hex text.
pub fn encode_hex(data: &[u8]) -> (r: String)
    ensures
        r@ == hex_of(data@),
{
    let mut r = String::new();
    let mut i: usize = 0;
    proof {
        assert(data@.skip(0) =~= data@);
    }
    while i < data.len()
        invariant
            i <= data@.len(),
            hex_of(data@) == r@ + hex_of(data@.skip(i as int)),
        decreases data@.len() - i,
    {
        let x = data[i];
        proof {
            assert(data@.skip(i as int).first() == x);
            assert(data@.skip(i as int).drop_first() =~= data@.skip(i + 1));
        }
        push_char(&mut r, hex_digit_char(x / 16));
        push_char(&mut r, hex_digit_char(x % 16));
        i = i + 1;
        assert(hex_of(data@) =~= r@ + hex_of(data@.skip(i as int)));
    }
    assert(hex_of(data@) =~= r@);
    r
}

/// Decodes hex text into bytes, rejecting odd lengths and non-hex characters.
pub fn decode_hex(s: &str) -> (r: Result<Vec<u8>, WalletError>)
    ensures
        match r {
            Ok(v) => hex_decode(s@) == Some(v@),
            Err(e) => hex_decode(s@) is None && e == WalletError::InvalidHex,
        },
{
    let n = s.unicode_len();
    if n % 2 != 0 {
        proof {
            lemma_hex_decode_even(s@);
        }
        return Err(WalletError::InvalidHex);
    }
    let mut v: Vec<u8> = Vec::new();
    let mut i: usize = 0;
    proof {
        assert(s@.skip(0) =~= s@);
    }
    while i < n
        invariant
            i <= n,
            i % 2 == 0,
            n % 2 == 0,
            n == s@.len(),
            hex_decode(s@) == opt_prefix(v@, hex_decode(s@.skip(i as int))),
        decreases n - i,
    {
        let c1 = s.get_char(i);
        let c2 = s.get_char(i + 1);
        proof {
            assert(s@.skip(i as int)[0] == s@[i as int]);
            assert(s@.skip(i as int)[1] == s@[i as int + 1]);
            assert(s@.skip(i as int).skip(2) =~= s@.skip(i as int + 2));
        }
        let h = match hex_val_char(c1) {
            Some(h) => h,
            None => {
                return Err(WalletError::InvalidHex);
            },
        };
        let l = match hex_val_char(c2) {
            Some(l) => l,
            None => {
                return Err(WalletError::InvalidHex);
            },
        };
        v.push(h * 16 + l);
        i = i + 2;
        proof {
            match hex_decode(s@.skip(i as int)) {
                Some(rest) => {
                    assert(v@ + rest =~= v@.drop_last() + (seq![(h * 16 + l) as u8] + rest));
                },
                None => {},
            }
        }
    }
    assert(s@.skip(n as int) =~= Seq::<char>::empty());
    Ok(v)
}

/// `rest` with `pre` prepended when it decodes, `None` otherwise.
pub open spec fn opt_prefix(pre: Seq<u8>, rest: Option<Seq<u8>>) -> Option<Seq<u8>> {
    match rest {
        Some(r) => Some(pre + r),
        None => None,
    }
}

} // verus!
