//! The identity-anchor binary payload carried in a zero-value output.
//!
//! Wire form: `52 44 44 01 || command || 00 || identifier`, at most 80 bytes,
//! transported as lowercase hex text. Neither field may be empty after
//! trimming nor contain the separator byte.

use crate::errors::WalletError;
use crate::hexcodec::{decode_hex, encode_hex, hex_decode, hex_of, lemma_hex_round_trip};
use crate::text::{text_from_bytes, trim, trim_chars};
use vstd::prelude::*;
use vstd::string::StrSliceExecFns;
use vstd::utf8::{decode_utf8, encode_utf8, valid_utf8};

verus! {

/// Maximum payload size the network relays in a standard data-carrier output.
pub const ANCHOR_MAX_BYTES: usize = 80;

/// Protocol marker and version: `R`, `D`, `D`, 0x01.
pub open spec fn anchor_prefix() -> Seq<u8> {
    seq![0x52u8, 0x44u8, 0x44u8, 0x01u8]
}

/// The anchor payload bytes for the given command and identifier text, or
/// the error the encoder must report: a field empty after trimming, a field
/// containing the separator byte, or a payload over the size limit.
pub open spec fn encode_anchor(command: Seq<char>, identifier: Seq<char>) -> Result<
    Seq<u8>,
    WalletError,
> {
    let cb = encode_utf8(trim_chars(command));
    let ib = encode_utf8(trim_chars(identifier));
    if cb.len() == 0 {
        Err(WalletError::EmptyField)
    } else if ib.len() == 0 {
        Err(WalletError::EmptyField)
    } else if cb.contains(0u8) {
        Err(WalletError::IllegalSeparatorByte)
    } else if ib.contains(0u8) {
        Err(WalletError::IllegalSeparatorByte)
    } else if 4 + cb.len() + 1 + ib.len() > 80 {
        Err(WalletError::PayloadTooLarge)
    } else {
        Ok(anchor_prefix() + cb + seq![0u8] + ib)
    }
}

/// `k` is the position of the one and only separator byte in `body`.
pub open spec fn lone_zero_at(body: Seq<u8>, k: int) -> bool {
    &&& 0 <= k < body.len()
    &&& body[k] == 0
    &&& forall|j: int| 0 <= j < body.len() && j != k ==> body[j] != 0
}

/// Splits anchor payload bytes back into command and identifier bytes,
/// validating the 4-byte prefix and the single separator.
pub open spec fn decode_anchor(payload: Seq<u8>) -> Result<(Seq<u8>, Seq<u8>), WalletError> {
    if payload.len() < 4 || payload.take(4) != anchor_prefix() {
        Err(WalletError::MalformedPayload)
    } else {
        let body = payload.skip(4);
        if exists|k: int| lone_zero_at(body, k) {
            let k = choose|k: int| lone_zero_at(body, k);
            if k == 0 || k == body.len() - 1 {
                Err(WalletError::EmptyField)
            } else {
                Ok((body.take(k), body.skip(k + 1)))
            }
        } else {
            Err(WalletError::MalformedPayload)
        }
    }
}

/// The command and identifier text recovered from an anchor hex string, or
/// the error the decoder must report.
pub open spec fn decode_anchor_hex(s: Seq<char>) -> Result<(Seq<char>, Seq<char>), WalletError> {
    match hex_decode(s) {
        None => Err(WalletError::InvalidHex),
        Some(payload) => match decode_anchor(payload) {
            Err(e) => Err(e),
            Ok((cb, ib)) => if valid_utf8(cb) && valid_utf8(ib) {
                Ok((decode_utf8(cb), decode_utf8(ib)))
            } else {
                Err(WalletError::InvalidUtf8)
            },
        },
    }
}

/// Size bound: whenever the trimmed fields are well formed, encoding fails
/// with `PayloadTooLarge` exactly when prefix, fields and separator exceed
/// 80 bytes; at exactly 80 bytes it succeeds.
pub proof fn lemma_anchor_size_bound(command: Seq<char>, identifier: Seq<char>)
    ensures
        ({
            let cb = encode_utf8(trim_chars(command));
            let ib = encode_utf8(trim_chars(identifier));
            (cb.len() > 0 && ib.len() > 0 && !cb.contains(0u8) && !ib.contains(0u8)) ==> {
                &&& (4 + cb.len() + 1 + ib.len() > 80 <==> encode_anchor(command, identifier)
                    == Err::<Seq<u8>, WalletError>(WalletError::PayloadTooLarge))
                &&& (4 + cb.len() + 1 + ib.len() <= 80 ==> (encode_anchor(command, identifier)
                    matches Ok(p) && p.len() == 5 + cb.len() + ib.len()))
            }
        }),
{
}

/// Round trip: decoding the hex text of an encoded anchor recovers exactly
/// the trimmed command and identifier.
pub proof fn lemma_anchor_round_trip(command: Seq<char>, identifier: Seq<char>)
    ensures
        encode_anchor(command, identifier) matches Ok(p) ==> decode_anchor_hex(hex_of(p)) == Ok::<
            (Seq<char>, Seq<char>),
            WalletError,
        >((trim_chars(command), trim_chars(identifier))),
{
    broadcast use vstd::utf8::encode_utf8_valid_utf8;
    broadcast use vstd::utf8::encode_utf8_decode_utf8;

    if encode_anchor(command, identifier) is Ok {
        let cb = encode_utf8(trim_chars(command));
        let ib = encode_utf8(trim_chars(identifier));
        let p = anchor_prefix() + cb + seq![0u8] + ib;
        lemma_hex_round_trip(p);
        assert(p.take(4) =~= anchor_prefix());
        let body = p.skip(4);
        assert(body =~= cb + seq![0u8] + ib);
        let k = cb.len() as int;
        assert(body[k] == 0u8);
        assert(forall|j: int| 0 <= j < k ==> body[j] == cb[j]);
        assert(forall|j: int| k < j < body.len() ==> body[j] == ib[j - k - 1]);
        assert(forall|j: int| 0 <= j < cb.len() ==> cb[j] != 0u8);
        assert(forall|j: int| 0 <= j < ib.len() ==> ib[j] != 0u8);
        assert(lone_zero_at(body, k));
        let m = choose|m: int| lone_zero_at(body, m);
        if m != k {
            assert(body[m] != 0u8);
        }
        assert(m == k);
        assert(k != 0 && k != body.len() - 1);
        assert(body.take(k) =~= cb);
        assert(body.skip(k + 1) =~= ib);
    }
}

/// Returns the index of `body`'s only zero byte, `None` when the count of
/// zero bytes is not exactly one.
fn find_lone_zero(body: &[u8]) -> (r: Option<usize>)
    ensures
        match r {
            Some(k) => lone_zero_at(body@, k as int),
            None => forall|k: int| !lone_zero_at(body@, k),
        },
{
    let mut i: usize = 0;
    let mut found: Option<usize> = None;
    while i < body.len()
        invariant
            i <= body@.len(),
            match found {
                Some(k) => k < i && body@[k as int] == 0 && forall|j: int|
                    0 <= j < i && j != k ==> body@[j] != 0,
                None => forall|j: int| 0 <= j < i ==> body@[j] != 0,
            },
        decreases body@.len() - i,
    {
        if body[i] == 0 {
            match found {
                Some(k) => {
                    // a second separator: no position can be the lone one
                    assert(forall|m: int|
                        lone_zero_at(body@, m) ==> m == k as int && m == i as int);
                    return None;
                },
                None => {
                    found = Some(i);
                },
            }
        }
        i = i + 1;
    }
    match found {
        Some(k) => Some(k),
        None => {
            assert(forall|m: int| 0 <= m < body@.len() ==> body@[m] != 0);
            None
        },
    }
}

/// Encodes a command/identifier pair as the hex text of an anchor payload.
///
/// Both fields are trimmed; the encoder fails on an empty field, an embedded
/// separator byte, or a payload over 80 bytes, exactly as `encode_anchor`
/// says.
pub fn build_opreturn_payload(command: String, identifier: String) -> (r: Result<
    String,
    WalletError,
>)
    ensures
        match r {
            Ok(s) => encode_anchor(command@, identifier@) matches Ok(p) && s@ == hex_of(p),
            Err(e) => encode_anchor(command@, identifier@) == Err::<Seq<u8>, WalletError>(e),
        },
{
    let cmd = trim(command.as_str());
    let ident = trim(identifier.as_str());
    let mut cb = cmd.as_bytes_vec();
    let mut ib = ident.as_bytes_vec();
    if cb.len() == 0 {
        return Err(WalletError::EmptyField);
    }
    if ib.len() == 0 {
        return Err(WalletError::EmptyField);
    }
    if contains_zero(cb.as_slice()) {
        return Err(WalletError::IllegalSeparatorByte);
    }
    if contains_zero(ib.as_slice()) {
        return Err(WalletError::IllegalSeparatorByte);
    }
    if cb.len() > 75 || ib.len() > 75 - cb.len() {
        return Err(WalletError::PayloadTooLarge);
    }
    let mut payload: Vec<u8> = Vec::new();
    payload.push(0x52);
    payload.push(0x44);
    payload.push(0x44);
    payload.push(0x01);
    payload.append(&mut cb);
    payload.push(0x00);
    payload.append(&mut ib);
    proof {
        let cbs = encode_utf8(trim_chars(command@));
        let ibs = encode_utf8(trim_chars(identifier@));
        assert(payload@ =~= anchor_prefix() + cbs + seq![0u8] + ibs);
    }
    Ok(encode_hex(payload.as_slice()))
}

/// Returns whether some byte of `v` is zero.
fn contains_zero(v: &[u8]) -> (r: bool)
    ensures
        r == v@.contains(0u8),
{
    let mut i: usize = 0;
    while i < v.len()
        invariant
            i <= v@.len(),
            forall|j: int| 0 <= j < i ==> v@[j] != 0,
        decreases v@.len() - i,
    {
        if v[i] == 0 {
            assert(v@[i as int] == 0u8);
            return true;
        }
        i = i + 1;
    }
    assert(!v@.contains(0u8));
    false
}

/// Decodes the hex text of an anchor payload back into its command and
/// identifier, validating prefix, separator and text encoding.
pub fn decode_opreturn_payload(payload_hex: &str) -> (r: Result<(String, String), WalletError>)
    ensures
        match r {
            Ok(pair) => decode_anchor_hex(payload_hex@) matches Ok(p) && pair.0@ == p.0
                && pair.1@ == p.1,
            Err(e) => decode_anchor_hex(payload_hex@) == Err::<(Seq<char>, Seq<char>), WalletError>(
                e,
            ),
        },
{
    broadcast use vstd::utf8::decode_utf8_encode_utf8;
    broadcast use vstd::utf8::encode_utf8_decode_utf8;

    let payload = match decode_hex(payload_hex) {
        Ok(p) => p,
        Err(e) => {
            return Err(e);
        },
    };
    if payload.len() < 4 || payload[0] != 0x52 || payload[1] != 0x44 || payload[2] != 0x44
        || payload[3] != 0x01 {
        proof {
            if payload@.len() >= 4 && payload@.take(4) == anchor_prefix() {
                assert(payload@.take(4)[0] == 0x52u8);
                assert(payload@.take(4)[1] == 0x44u8);
                assert(payload@.take(4)[2] == 0x44u8);
                assert(payload@.take(4)[3] == 0x01u8);
            }
        }
        return Err(WalletError::MalformedPayload);
    }
    proof {
        assert(payload@.take(4) =~= anchor_prefix());
    }
    let body = slice_suffix(payload.as_slice(), 4);
    let k = match find_lone_zero(body.as_slice()) {
        Some(k) => k,
        None => {
            return Err(WalletError::MalformedPayload);
        },
    };
    proof {
        // the separator position is unique, so the chosen one is `k`
        let kk = choose|m: int| lone_zero_at(body@, m);
        assert(lone_zero_at(body@, k as int));
        assert(kk == k as int);
    }
    if k == 0 || k == body.len() - 1 {
        return Err(WalletError::EmptyField);
    }
    let cb = slice_range(body.as_slice(), 0, k);
    let ib = slice_suffix(body.as_slice(), k + 1);
    proof {
        assert(cb@ =~= body@.take(k as int));
        assert(ib@ =~= body@.skip(k as int + 1));
    }
    let command = text_from_bytes(cb)?;
    let identifier = text_from_bytes(ib)?;
    Ok((command, identifier))
}

/// Copies `v[from..]` into a fresh vector.
fn slice_suffix(v: &[u8], from: usize) -> (r: Vec<u8>)
    requires
        from <= v@.len(),
    ensures
        r@ == v@.skip(from as int),
{
    let mut r: Vec<u8> = Vec::new();
    let mut i: usize = from;
    while i < v.len()
        invariant
            from <= i <= v@.len(),
            r@ == v@.subrange(from as int, i as int),
        decreases v@.len() - i,
    {
        r.push(v[i]);
        i = i + 1;
        assert(r@ =~= v@.subrange(from as int, i as int));
    }
    assert(r@ =~= v@.skip(from as int));
    r
}

/// Copies `v[from..to]` into a fresh vector.
fn slice_range(v: &[u8], from: usize, to: usize) -> (r: Vec<u8>)
    requires
        from <= to <= v@.len(),
    ensures
        r@ == v@.subrange(from as int, to as int),
{
    let mut r: Vec<u8> = Vec::new();
    let mut i: usize = from;
    while i < to
        invariant
            from <= i <= to <= v@.len(),
            r@ == v@.subrange(from as int, i as int),
        decreases to - i,
    {
        r.push(v[i]);
        i = i + 1;
        assert(r@ =~= v@.subrange(from as int, i as int));
    }
    r
}

} // verus!
