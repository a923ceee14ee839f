//! Per-input signature production for the single-key wallet model.
//!
//! Every input is assumed to spend an output locked to the signing key, so
//! one pay-to-key-hash script is substituted into each input's signature
//! hash. The digest construction and script assembly are verified; only the
//! deterministic ECDSA primitive itself is trusted.

use crate::address::{build_p2pkh_script, hash_public_key, key_hash_of, p2pkh_script};
use crate::bytes::{u32_le_bytes, var_int_bytes, ByteWriter};
use crate::errors::WalletError;
use crate::hashes::{sha256d, sha256d_of};
use crate::tx::{
    concat_bytes, lemma_concat_bytes_snoc, ser_input, ser_tx, InputModel, Transaction, TxInput,
    TxModel, TxOutput,
};
use k256::ecdsa::signature::hazmat::PrehashSigner;
use vstd::prelude::*;
use vstd::slice::slice_to_vec;

verus! {

/// The byte sequence is accepted by the curve library as a secret key: it
/// encodes a nonzero scalar below the group order (every key this crate
/// hands over is exactly 32 bytes).
pub uninterp spec fn secret_key_ok(sk: Seq<u8>) -> bool;

/// The deterministic signing primitive succeeds on this key and digest: a
/// function of the two arguments alone, false only for degenerate nonce
/// candidates with negligible density.
pub uninterp spec fn ecdsa_sig_ok(sk: Seq<u8>, digest: Seq<u8>) -> bool;

/// The DER encoding of the deterministic (RFC 6979) ECDSA signature of a
/// digest under a secret key: a function of the two arguments alone.
pub uninterp spec fn ecdsa_der_sig_of(sk: Seq<u8>, digest: Seq<u8>) -> Seq<u8>;

/// The 33-byte compressed encoding of the public key behind a secret key.
pub uninterp spec fn compressed_pubkey_of(sk: Seq<u8>) -> Seq<u8>;

/// Relies on k256::ecdsa::SigningKey: `from_slice` accepts exactly the
/// valid secret keys, `sign_prehash` succeeds or fails deterministically
/// in (key, digest) and produces the deterministic RFC 6979 signature,
/// and `to_der` encodes it in at most 72 bytes (two 32-byte integers).
#[verifier::external_body]
fn ecdsa_sign_digest(sk: &[u8], digest: &[u8]) -> (r: Result<Vec<u8>, WalletError>)
    ensures
        match r {
            Ok(s) => secret_key_ok(sk@) && ecdsa_sig_ok(sk@, digest@) && s@ == ecdsa_der_sig_of(
                sk@,
                digest@,
            ) && s@.len() <= 72,
            Err(e) => e == WalletError::SigningFailed && !(secret_key_ok(sk@) && ecdsa_sig_ok(
                sk@,
                digest@,
            )),
        },
{
    let key = match k256::ecdsa::SigningKey::from_slice(sk) {
        Ok(k) => k,
        Err(_) => return Err(WalletError::SigningFailed),
    };
    let signature: k256::ecdsa::Signature = match key.sign_prehash(digest) {
        Ok(s) => s,
        Err(_) => return Err(WalletError::SigningFailed),
    };
    Ok(signature.to_der().as_bytes().to_vec())
}

/// Relies on k256::ecdsa::SigningKey and VerifyingKey: the compressed
/// 33-byte public key is a function of the secret key alone, and the
/// conversion succeeds exactly on valid secret keys.
#[verifier::external_body]
fn derive_public_key(sk: &[u8]) -> (r: Result<Vec<u8>, WalletError>)
    ensures
        match r {
            Ok(p) => secret_key_ok(sk@) && p@ == compressed_pubkey_of(sk@) && p@.len() == 33,
            Err(e) => !secret_key_ok(sk@) && e == WalletError::SigningFailed,
        },
{
    let key = match k256::ecdsa::SigningKey::from_slice(sk) {
        Ok(k) => k,
        Err(_) => return Err(WalletError::SigningFailed),
    };
    Ok(key.verifying_key().to_encoded_point(true).as_bytes().to_vec())
}

/// The input list with every unlocking script blanked except input `k`,
/// which carries `script`: the legacy signature-hash substitution.
pub open spec fn blanked_inputs(inputs: Seq<InputModel>, k: int, script: Seq<u8>) -> Seq<
    InputModel,
> {
    Seq::new(
        inputs.len(),
        |j: int|
            InputModel {
                prev_txid: inputs[j].prev_txid,
                prev_vout: inputs[j].prev_vout,
                script_sig: if j == k {
                    script
                } else {
                    Seq::<u8>::empty()
                },
                sequence: inputs[j].sequence,
            },
    )
}

/// The legacy signature-hash preimage of input `k`: the transaction with
/// substituted unlocking scripts, then the 4-byte all-outputs hash type.
pub open spec fn sighash_preimage(tx: TxModel, k: int, lock_script: Seq<u8>) -> Seq<u8> {
    ser_tx(
        TxModel {
            version: tx.version,
            time: tx.time,
            inputs: blanked_inputs(tx.inputs, k, lock_script),
            outputs: tx.outputs,
        },
    ) + u32_le_bytes(1)
}

/// The 32-byte digest signed for input `k`: double SHA-256 of the preimage.
pub open spec fn input_sighash(tx: TxModel, k: int, lock_script: Seq<u8>) -> Seq<u8> {
    sha256d_of(sighash_preimage(tx, k, lock_script))
}

/// The unlocking script: a push of the DER signature with the hash-type
/// byte appended, then a push of the compressed public key.
pub open spec fn sig_script(der: Seq<u8>, pubkey: Seq<u8>) -> Seq<u8> {
    seq![(der.len() + 1) as u8] + der + seq![1u8] + seq![pubkey.len() as u8] + pubkey
}

/// The unlocking script owed to input `k` when the whole transaction is
/// signed with `sk`.
pub open spec fn signed_input_script(tx: TxModel, k: int, sk: Seq<u8>) -> Seq<u8> {
    let pubkey = compressed_pubkey_of(sk);
    let lock = p2pkh_script(key_hash_of(pubkey));
    sig_script(ecdsa_der_sig_of(sk, input_sighash(tx, k, lock)), pubkey)
}

/// The signing key is valid and the deterministic primitive succeeds on
/// every input's digest: exactly when a signing pass over the whole
/// transaction succeeds.
pub open spec fn all_inputs_signable(tx: TxModel, sk: Seq<u8>) -> bool {
    &&& secret_key_ok(sk)
    &&& forall|k: int|
        0 <= k < tx.inputs.len() ==> #[trigger] ecdsa_sig_ok(
            sk,
            input_sighash(tx, k, p2pkh_script(key_hash_of(compressed_pubkey_of(sk)))),
        )
}

/// The transaction with every input's unlocking script filled in by the
/// single signing key.
pub open spec fn signed_tx_model(tx: TxModel, sk: Seq<u8>) -> TxModel {
    TxModel {
        version: tx.version,
        time: tx.time,
        inputs: Seq::new(
            tx.inputs.len(),
            |k: int|
                InputModel {
                    prev_txid: tx.inputs[k].prev_txid,
                    prev_vout: tx.inputs[k].prev_vout,
                    script_sig: signed_input_script(tx, k, sk),
                    sequence: tx.inputs[k].sequence,
                },
        ),
        outputs: tx.outputs,
    }
}

/// Serializes the signature-hash preimage of input `k` under the
/// substituted locking script.
#[verifier::rlimit(50)]
pub fn serialize_preimage(tx: &Transaction, k: usize, lock_script: &[u8]) -> (r: Vec<u8>)
    requires
        k < tx.inputs@.len(),
    ensures
        r@ == sighash_preimage(tx@, k as int, lock_script@),
{
    let ghost blanked = blanked_inputs(tx@.inputs, k as int, lock_script@);
    let ghost parts = blanked.map_values(|m: InputModel| ser_input(m));
    let mut w = ByteWriter::new();
    w.write_u32_le(tx.version);
    w.write_u32_le(tx.time);
    w.write_var_int(tx.inputs.len() as u64);
    let ghost header = w.buffer@;
    let mut i: usize = 0;
    proof {
        assert(parts.take(0) =~= Seq::<Seq<u8>>::empty());
    }
    while i < tx.inputs.len()
        invariant
            i <= tx.inputs@.len(),
            k < tx.inputs@.len(),
            blanked == blanked_inputs(tx@.inputs, k as int, lock_script@),
            parts == blanked.map_values(|m: InputModel| ser_input(m)),
            tx@.inputs == tx.inputs@.map_values(|x: TxInput| x@),
            w.buffer@ == header + concat_bytes(parts.take(i as int)),
        decreases tx.inputs@.len() - i,
    {
        let input = &tx.inputs[i];
        w.write_slice_reversed(input.prev_txid.as_slice());
        w.write_u32_le(input.prev_vout);
        if i == k {
            w.write_var_int(lock_script.len() as u64);
            w.write_slice(lock_script);
        } else {
            w.write_var_int(0);
        }
        w.write_u32_le(input.sequence);
        proof {
            lemma_concat_bytes_snoc(parts, i as int);
            assert(blanked[i as int].prev_txid == input@.prev_txid);
            if i == k {
                assert(blanked[i as int].script_sig == lock_script@);
            } else {
                assert(blanked[i as int].script_sig =~= Seq::<u8>::empty());
                assert(var_int_bytes(0) + Seq::<u8>::empty() =~= var_int_bytes(0));
            }
            assert(parts[i as int] == ser_input(blanked[i as int]));
        }
        i = i + 1;
        assert(w.buffer@ =~= header + concat_bytes(parts.take(i as int)));
    }
    proof {
        assert(parts.take(tx.inputs@.len() as int) =~= parts);
    }
    w.write_outputs(&tx.outputs);
    w.write_u32_le(0);
    w.write_u32_le(1);
    proof {
        assert(w.buffer@ =~= sighash_preimage(tx@, k as int, lock_script@));
    }
    w.buffer
}

/// Builds the unlocking script from a DER signature and a public key.
pub fn build_script_sig(der: &[u8], pubkey: &[u8]) -> (r: Vec<u8>)
    requires
        der@.len() <= 73,
        pubkey@.len() <= 75,
    ensures
        r@ == sig_script(der@, pubkey@),
{
    let mut w = ByteWriter::new();
    w.buffer.push((der.len() + 1) as u8);
    w.write_slice(der);
    w.buffer.push(0x01);
    w.buffer.push(pubkey.len() as u8);
    w.write_slice(pubkey);
    assert(w.buffer@ =~= sig_script(der@, pubkey@));
    w.buffer
}

/// Signs every input of an assembled transaction with one key, in
/// ascending index order, substituting the key's own pay-to-key-hash
/// locking script into each digest.
///
/// Succeeds exactly when the key is valid and the deterministic primitive
/// accepts every input's digest; the result is then exactly
/// `signed_tx_model(tx@, private_key@)`. Any failure returns
/// `SigningFailed` and no partially signed transaction.
pub fn sign_transaction(tx: &Transaction, private_key: &[u8]) -> (r: Result<
    Transaction,
    WalletError,
>)
    ensures
        match r {
            Ok(stx) => stx@ == signed_tx_model(tx@, private_key@),
            Err(e) => e == WalletError::SigningFailed,
        },
        r is Ok <==> all_inputs_signable(tx@, private_key@),
{
    let pubkey = match derive_public_key(private_key) {
        Ok(p) => p,
        Err(e) => {
            return Err(e);
        },
    };
    let key_hash = hash_public_key(pubkey.as_slice());
    let lock_script = build_p2pkh_script(key_hash.as_slice());
    let ghost target = signed_tx_model(tx@, private_key@);
    let mut signed_inputs: Vec<TxInput> = Vec::new();
    let mut k: usize = 0;
    while k < tx.inputs.len()
        invariant
            k <= tx.inputs@.len(),
            secret_key_ok(private_key@),
            pubkey@.len() == 33,
            pubkey@ == compressed_pubkey_of(private_key@),
            lock_script@ == p2pkh_script(key_hash_of(pubkey@)),
            target == signed_tx_model(tx@, private_key@),
            tx@.inputs == tx.inputs@.map_values(|x: TxInput| x@),
            signed_inputs@.len() == k,
            forall|j: int|
                0 <= j < k ==> #[trigger] signed_inputs@[j]@ == target.inputs[j],
            forall|j: int|
                0 <= j < k ==> #[trigger] ecdsa_sig_ok(
                    private_key@,
                    input_sighash(tx@, j, lock_script@),
                ),
        decreases tx.inputs@.len() - k,
    {
        let preimage = serialize_preimage(tx, k, lock_script.as_slice());
        let digest = sha256d(preimage.as_slice());
        let der = match ecdsa_sign_digest(private_key, digest.as_slice()) {
            Ok(d) => d,
            Err(e) => {
                proof {
                    assert(!ecdsa_sig_ok(private_key@, input_sighash(tx@, k as int, lock_script@)));
                }
                return Err(e);
            },
        };
        let script_sig = build_script_sig(der.as_slice(), pubkey.as_slice());
        let input = &tx.inputs[k];
        signed_inputs.push(
            TxInput {
                prev_txid: slice_to_vec(input.prev_txid.as_slice()),
                prev_vout: input.prev_vout,
                script_sig,
                sequence: input.sequence,
            },
        );
        proof {
            assert(signed_inputs@[k as int]@ == target.inputs[k as int]);
        }
        k = k + 1;
    }
    let outputs = copy_outputs(&tx.outputs);
    let signed = Transaction { version: tx.version, time: tx.time, inputs: signed_inputs, outputs };
    proof {
        assert(signed@.inputs =~= target.inputs);
        assert(signed@.outputs =~= target.outputs);
    }
    Ok(signed)
}

/// Copies an output list, preserving its model.
fn copy_outputs(outputs: &Vec<TxOutput>) -> (r: Vec<TxOutput>)
    ensures
        r@.map_values(|o: TxOutput| o@) == outputs@.map_values(|o: TxOutput| o@),
{
    let mut r: Vec<TxOutput> = Vec::new();
    let mut i: usize = 0;
    while i < outputs.len()
        invariant
            i <= outputs@.len(),
            r@.len() == i,
            forall|j: int| 0 <= j < i ==> #[trigger] r@[j]@ == outputs@[j]@,
        decreases outputs@.len() - i,
    {
        let o = &outputs[i];
        r.push(TxOutput { value: o.value, script_pubkey: slice_to_vec(o.script_pubkey.as_slice()) });
        i = i + 1;
    }
    assert(r@.map_values(|o: TxOutput| o@) =~= outputs@.map_values(|o: TxOutput| o@));
    r
}

} // verus!
