//! The build-then-sign pipeline, strictly sequential: a failure at any
//! stage discards the transaction in progress and reports a typed error.
//!
//! All inputs are assumed to spend outputs locked to the single signing
//! key; multi-key wallets are out of scope.

use crate::builder::{build_spec, build_transaction, utxos_model};
use crate::errors::WalletError;
use crate::fee::{estimate_legacy_tx_fee, estimated_fee};
use crate::hexcodec::{decode_hex, encode_hex, hex_decode, hex_of};
use crate::keys::{derive_key, hd_key_of, mnemonic_ok, mnemonic_to_seed, seed_of,
    wallet_derivation_path};
use crate::signer::{all_inputs_signable, sign_transaction, signed_tx_model};
use crate::tx::{ser_tx, serialize_tx, TxModel, Utxo, UtxoModel};
use vstd::prelude::*;
use vstd::string::StrSliceExecFns;

verus! {

/// Everything a spend request carries: the recovery phrase, destination
/// and change addresses, amount and explicit fee in base units, the
/// unspent outputs to draw from, and an optional anchor payload as hex.
pub struct TransactionRequest {
    pub mnemonic: String,
    pub destination_address: String,
    pub amount_sats: u64,
    pub change_address: String,
    pub fee_sats: u64,
    pub utxos: Vec<Utxo>,
    pub op_return_data: Option<String>,
}

/// Mathematical shape of a `TransactionRequest`.
pub ghost struct RequestModel {
    pub mnemonic: Seq<char>,
    pub destination_address: Seq<char>,
    pub amount_sats: u64,
    pub change_address: Seq<char>,
    pub fee_sats: u64,
    pub utxos: Seq<UtxoModel>,
    pub op_return_data: Option<Seq<char>>,
}

impl View for TransactionRequest {
    type V = RequestModel;

    open spec fn view(&self) -> RequestModel {
        RequestModel {
            mnemonic: self.mnemonic@,
            destination_address: self.destination_address@,
            amount_sats: self.amount_sats,
            change_address: self.change_address@,
            fee_sats: self.fee_sats,
            utxos: utxos_model(self.utxos@),
            op_return_data: match self.op_return_data {
                Some(s) => Some(s@),
                None => None,
            },
        }
    }
}

/// The anchor payload a request carries: absent, or the bytes of a
/// non-empty hex field.
pub open spec fn anchor_of_request(data: Option<Seq<char>>) -> Result<
    Option<Seq<u8>>,
    WalletError,
> {
    match data {
        Some(s) => if s.len() == 0 {
            Ok(None)
        } else {
            match hex_decode(s) {
                Some(p) => Ok(Some(p)),
                None => Err(WalletError::InvalidHex),
            }
        },
        None => Ok(None),
    }
}

/// The unsigned transaction and signing key a request plans, or the error
/// owed: an invalid mnemonic, a failed derivation, a bad anchor hex, then
/// everything the builder checks.
pub open spec fn plan_request(req: RequestModel, current_time: u32) -> Result<
    (TxModel, Seq<u8>),
    WalletError,
> {
    if !mnemonic_ok(req.mnemonic) {
        Err(WalletError::InvalidMnemonic)
    } else {
        let seed = seed_of(req.mnemonic, Seq::<char>::empty());
        match hd_key_of(seed, wallet_derivation_path()) {
            None => Err(WalletError::DerivationFailed),
            Some(kp) => match anchor_of_request(req.op_return_data) {
                Err(e) => Err(e),
                Ok(anchor) => match build_spec(
                    req.utxos,
                    Some((req.destination_address, req.amount_sats)),
                    anchor,
                    req.change_address,
                    req.fee_sats,
                    current_time,
                ) {
                    Err(e) => Err(e),
                    Ok(tx) => Ok((tx, kp.0)),
                },
            },
        }
    }
}

/// Builds and signs the transaction a request describes, returning the
/// lowercase hex of the serialized signed transaction.
///
/// On success the result is exactly the serialization of the planned
/// transaction signed with the derived key. On failure the error is the
/// one the plan owes; `SigningFailed` comes exactly when the plan succeeds
/// but the signing primitive refuses the key or one input's digest.
pub fn build_and_sign_tx(request: &TransactionRequest, current_time: u32) -> (r: Result<
    String,
    WalletError,
>)
    ensures
        ({
            let plan = plan_request(request@, current_time);
            match r {
                Ok(h) => plan matches Ok(p) && all_inputs_signable(p.0, p.1) && h@ == hex_of(
                    ser_tx(signed_tx_model(p.0, p.1)),
                ),
                Err(e) => match plan {
                    Ok(p) => e == WalletError::SigningFailed && !all_inputs_signable(p.0, p.1),
                    Err(pe) => e == pe,
                },
            }
        }),
{
    proof {
        reveal_strlit("");
        assert(""@ =~= Seq::<char>::empty());
    }
    let seed = match mnemonic_to_seed(request.mnemonic.as_str(), "") {
        Ok(s) => s,
        Err(e) => {
            return Err(e);
        },
    };
    let key = match derive_key(seed.as_slice()) {
        Ok(k) => k,
        Err(e) => {
            return Err(e);
        },
    };
    let anchor: Option<Vec<u8>> = match &request.op_return_data {
        Some(s) => {
            if s.as_str().unicode_len() == 0 {
                None
            } else {
                match decode_hex(s.as_str()) {
                    Ok(p) => Some(p),
                    Err(_) => {
                        return Err(WalletError::InvalidHex);
                    },
                }
            }
        },
        None => None,
    };
    let anchor_ref: Option<&Vec<u8>> = match &anchor {
        Some(v) => Some(v),
        None => None,
    };
    let tx = match build_transaction(
        &request.utxos,
        Some((request.destination_address.as_str(), request.amount_sats)),
        anchor_ref,
        request.change_address.as_str(),
        request.fee_sats,
        current_time,
    ) {
        Ok(t) => t,
        Err(e) => {
            return Err(e);
        },
    };
    let signed = match sign_transaction(&tx, key.private_key.as_slice()) {
        Ok(s) => s,
        Err(e) => {
            return Err(e);
        },
    };
    let raw = serialize_tx(&signed);
    Ok(encode_hex(raw.as_slice()))
}

/// The transaction and key an anchor-only signing request plans: a
/// 64-character private key, at least one input, a hex payload, a fee
/// estimated for the input count and two outputs, then everything the
/// builder checks.
pub open spec fn plan_opreturn(
    utxos: Seq<UtxoModel>,
    private_key_hex: Seq<char>,
    op_return_data: Seq<char>,
    change_address: Seq<char>,
    fee_per_kb: u64,
    current_time: u32,
) -> Result<(TxModel, Seq<u8>), WalletError> {
    if private_key_hex.len() != 64 {
        Err(WalletError::InvalidKeyLength)
    } else if utxos.len() == 0 {
        Err(WalletError::NoInputs)
    } else {
        match hex_decode(private_key_hex) {
            None => Err(WalletError::InvalidHex),
            Some(sk) => match hex_decode(op_return_data) {
                None => Err(WalletError::InvalidHex),
                Some(payload) => match estimated_fee(utxos.len(), 2, fee_per_kb as nat) {
                    Err(e) => Err(e),
                    Ok(fee) => match build_spec(
                        utxos,
                        None,
                        Some(payload),
                        change_address,
                        fee,
                        current_time,
                    ) {
                        Err(e) => Err(e),
                        Ok(tx) => Ok((tx, sk)),
                    },
                },
            },
        }
    }
}

/// Signs a transaction that anchors a payload: a zero-value data-carrier
/// output first, then change when it is not dust. Every input is signed
/// with the one private key under legacy pay-to-key-hash semantics.
pub fn sign_opreturn_transaction(
    utxos: &Vec<Utxo>,
    private_key_hex: String,
    op_return_data: String,
    change_address: String,
    fee_per_kb: u64,
    current_time: u32,
) -> (r: Result<String, WalletError>)
    ensures
        ({
            let plan = plan_opreturn(
                utxos_model(utxos@),
                private_key_hex@,
                op_return_data@,
                change_address@,
                fee_per_kb,
                current_time,
            );
            match r {
                Ok(h) => plan matches Ok(p) && all_inputs_signable(p.0, p.1) && h@ == hex_of(
                    ser_tx(signed_tx_model(p.0, p.1)),
                ),
                Err(e) => match plan {
                    Ok(p) => e == WalletError::SigningFailed && !all_inputs_signable(p.0, p.1),
                    Err(pe) => e == pe,
                },
            }
        }),
{
    if private_key_hex.as_str().unicode_len() != 64 {
        return Err(WalletError::InvalidKeyLength);
    }
    if utxos.len() == 0 {
        return Err(WalletError::NoInputs);
    }
    let private_key = match decode_hex(private_key_hex.as_str()) {
        Ok(k) => k,
        Err(_) => {
            return Err(WalletError::InvalidHex);
        },
    };
    let payload = match decode_hex(op_return_data.as_str()) {
        Ok(p) => p,
        Err(_) => {
            return Err(WalletError::InvalidHex);
        },
    };
    let fee = match estimate_legacy_tx_fee(utxos.len(), 2, fee_per_kb) {
        Ok(f) => f,
        Err(e) => {
            return Err(e);
        },
    };
    let tx = match build_transaction(
        utxos,
        None,
        Some(&payload),
        change_address.as_str(),
        fee,
        current_time,
    ) {
        Ok(t) => t,
        Err(e) => {
            return Err(e);
        },
    };
    let signed = match sign_transaction(&tx, private_key.as_slice()) {
        Ok(s) => s,
        Err(e) => {
            return Err(e);
        },
    };
    let raw = serialize_tx(&signed);
    Ok(encode_hex(raw.as_slice()))
}

/// Alias kept for multi-input signing callers: every build here signs all
/// of its inputs with the one key.
pub fn sign_multi_input_transaction(
    utxos: &Vec<Utxo>,
    private_key_hex: String,
    op_return_data: String,
    change_address: String,
    fee_per_kb: u64,
    current_time: u32,
) -> (r: Result<String, WalletError>)
    ensures
        ({
            let plan = plan_opreturn(
                utxos_model(utxos@),
                private_key_hex@,
                op_return_data@,
                change_address@,
                fee_per_kb,
                current_time,
            );
            match r {
                Ok(h) => plan matches Ok(p) && all_inputs_signable(p.0, p.1) && h@ == hex_of(
                    ser_tx(signed_tx_model(p.0, p.1)),
                ),
                Err(e) => match plan {
                    Ok(p) => e == WalletError::SigningFailed && !all_inputs_signable(p.0, p.1),
                    Err(pe) => e == pe,
                },
            }
        }),
{
    sign_opreturn_transaction(
        utxos,
        private_key_hex,
        op_return_data,
        change_address,
        fee_per_kb,
        current_time,
    )
}

/// The transaction and key a standard transfer plans: a 64-character
/// private key, at least one input, a fee estimated for the input count
/// and two outputs, a recipient output, then change when it is not dust.
pub open spec fn plan_transfer(
    utxos: Seq<UtxoModel>,
    private_key_hex: Seq<char>,
    recipient_address: Seq<char>,
    change_address: Seq<char>,
    amount_to_send: u64,
    fee_per_kb: u64,
    current_time: u32,
) -> Result<(TxModel, Seq<u8>), WalletError> {
    if private_key_hex.len() != 64 {
        Err(WalletError::InvalidKeyLength)
    } else if utxos.len() == 0 {
        Err(WalletError::NoInputs)
    } else {
        match hex_decode(private_key_hex) {
            None => Err(WalletError::InvalidHex),
            Some(sk) => match estimated_fee(utxos.len(), 2, fee_per_kb as nat) {
                Err(e) => Err(e),
                Ok(fee) => match build_spec(
                    utxos,
                    Some((recipient_address, amount_to_send)),
                    None,
                    change_address,
                    fee,
                    current_time,
                ) {
                    Err(e) => Err(e),
                    Ok(tx) => Ok((tx, sk)),
                },
            },
        }
    }
}

/// Signs a standard pay-to-key-hash transfer with a recipient output and
/// change when it is not dust.
pub fn sign_standard_transfer(
    utxos: &Vec<Utxo>,
    private_key_hex: String,
    recipient_address: String,
    change_address: String,
    amount_to_send: u64,
    fee_per_kb: u64,
    current_time: u32,
) -> (r: Result<String, WalletError>)
    ensures
        ({
            let plan = plan_transfer(
                utxos_model(utxos@),
                private_key_hex@,
                recipient_address@,
                change_address@,
                amount_to_send,
                fee_per_kb,
                current_time,
            );
            match r {
                Ok(h) => plan matches Ok(p) && all_inputs_signable(p.0, p.1) && h@ == hex_of(
                    ser_tx(signed_tx_model(p.0, p.1)),
                ),
                Err(e) => match plan {
                    Ok(p) => e == WalletError::SigningFailed && !all_inputs_signable(p.0, p.1),
                    Err(pe) => e == pe,
                },
            }
        }),
{
    if private_key_hex.as_str().unicode_len() != 64 {
        return Err(WalletError::InvalidKeyLength);
    }
    if utxos.len() == 0 {
        return Err(WalletError::NoInputs);
    }
    let private_key = match decode_hex(private_key_hex.as_str()) {
        Ok(k) => k,
        Err(_) => {
            return Err(WalletError::InvalidHex);
        },
    };
    let fee = match estimate_legacy_tx_fee(utxos.len(), 2, fee_per_kb) {
        Ok(f) => f,
        Err(e) => {
            return Err(e);
        },
    };
    let tx = match build_transaction(
        utxos,
        Some((recipient_address.as_str(), amount_to_send)),
        None,
        change_address.as_str(),
        fee,
        current_time,
    ) {
        Ok(t) => t,
        Err(e) => {
            return Err(e);
        },
    };
    let signed = match sign_transaction(&tx, private_key.as_slice()) {
        Ok(s) => s,
        Err(e) => {
            return Err(e);
        },
    };
    let raw = serialize_tx(&signed);
    Ok(encode_hex(raw.as_slice()))
}

} // verus!
