//! Unsigned-transaction assembly.
//!
//! Inputs keep the caller-supplied order and carry empty unlocking scripts
//! with the maximal sequence number. When an anchor payload is present its
//! zero-value output comes first so parsers can locate the protocol data
//! deterministically; the destination and change outputs follow. The change
//! output is omitted entirely when the remainder is zero or dust.

use crate::address::{
    build_op_return_script, build_p2pkh_script, decode_address_to_pkh, decoded_key_hash,
    op_return_script, p2pkh_script,
};
use crate::errors::WalletError;
use crate::fee::{resolve_funds, resolved_funds};
use crate::hexcodec::{decode_hex, hex_decode};
use crate::tx::{InputModel, OutputModel, Transaction, TxInput, TxModel, TxOutput, Utxo, UtxoModel};
use vstd::prelude::*;
use vstd::string::StrSliceExecFns;

verus! {

/// Transaction version written by this wallet.
pub const TX_VERSION: u32 = 2;

/// Maximal sequence number: no replace-by-fee signaling.
pub const SEQUENCE_FINAL: u32 = 0xffffffff;

/// The models of a vector of unspent outputs.
pub open spec fn utxos_model(utxos: Seq<Utxo>) -> Seq<UtxoModel> {
    utxos.map_values(|u: Utxo| u@)
}

/// The unsigned input spending the given previous output.
pub open spec fn input_for(txid_bytes: Seq<u8>, vout: u32) -> InputModel {
    InputModel {
        prev_txid: txid_bytes,
        prev_vout: vout,
        script_sig: Seq::<u8>::empty(),
        sequence: 0xffffffffu32,
    }
}

/// Walks the unspent outputs in order, turning each into an input and
/// accumulating the total amount, with the error of the first output that
/// is rejected: a transaction id that is not 64 characters, one that is not
/// hex, or an amount total leaving the 64-bit range.
pub open spec fn collect_inputs(utxos: Seq<UtxoModel>, acc: int) -> Result<
    (Seq<InputModel>, int),
    WalletError,
>
    decreases utxos.len(),
{
    if utxos.len() == 0 {
        Ok((Seq::<InputModel>::empty(), acc))
    } else {
        let u = utxos.first();
        if u.txid.len() != 64 {
            Err(WalletError::InvalidTxidLength)
        } else {
            match hex_decode(u.txid) {
                None => Err(WalletError::InvalidHex),
                Some(b) => if acc + u.amount > u64::MAX {
                    Err(WalletError::Overflow)
                } else {
                    match collect_inputs(utxos.drop_first(), acc + u.amount) {
                        Err(e) => Err(e),
                        Ok(rest) => Ok((seq![input_for(b, u.vout)] + rest.0, rest.1)),
                    }
                },
            }
        }
    }
}

/// `r` with `pre` prepended to its inputs when it succeeds.
pub open spec fn inputs_prefixed(
    pre: Seq<InputModel>,
    r: Result<(Seq<InputModel>, int), WalletError>,
) -> Result<(Seq<InputModel>, int), WalletError> {
    match r {
        Ok(rest) => Ok((pre + rest.0, rest.1)),
        Err(e) => Err(e),
    }
}

/// A collected total never leaves the range between the accumulator and the
/// 64-bit maximum.
pub proof fn lemma_collect_total_bounds(utxos: Seq<UtxoModel>, acc: int)
    requires
        0 <= acc <= u64::MAX,
    ensures
        collect_inputs(utxos, acc) matches Ok(ct) ==> acc <= ct.1 <= u64::MAX,
    decreases utxos.len(),
{
    if utxos.len() > 0 {
        let u = utxos.first();
        if u.txid.len() == 64 && hex_decode(u.txid) is Some && acc + u.amount <= u64::MAX {
            lemma_collect_total_bounds(utxos.drop_first(), acc + u.amount);
        }
    }
}

/// Turns the unspent outputs into unsigned inputs and their total amount.
fn collect_tx_inputs(utxos: &Vec<Utxo>) -> (r: Result<(Vec<TxInput>, u64), WalletError>)
    ensures
        match r {
            Ok(it) => collect_inputs(utxos_model(utxos@), 0) == Ok::<_, WalletError>(
                (it.0@.map_values(|m: TxInput| m@), it.1 as int),
            ),
            Err(e) => collect_inputs(utxos_model(utxos@), 0) == Err::<
                (Seq<InputModel>, int),
                WalletError,
            >(e),
        },
{
    let ghost model = utxos_model(utxos@);
    let mut inputs: Vec<TxInput> = Vec::new();
    let mut total: u64 = 0;
    let mut i: usize = 0;
    proof {
        assert(model.skip(0) =~= model);
    }
    while i < utxos.len()
        invariant
            i <= utxos@.len(),
            model == utxos_model(utxos@),
            collect_inputs(model, 0) == inputs_prefixed(
                inputs@.map_values(|m: TxInput| m@),
                collect_inputs(model.skip(i as int), total as int),
            ),
        decreases utxos@.len() - i,
    {
        let u = &utxos[i];
        proof {
            assert(model.skip(i as int).first() == utxos@[i as int]@);
            assert(model.skip(i as int).drop_first() =~= model.skip(i as int + 1));
        }
        if u.txid.as_str().unicode_len() != 64 {
            return Err(WalletError::InvalidTxidLength);
        }
        let txid_bytes = match decode_hex(u.txid.as_str()) {
            Ok(b) => b,
            Err(_) => {
                return Err(WalletError::InvalidHex);
            },
        };
        let new_total = match total.checked_add(u.amount) {
            Some(t) => t,
            None => {
                return Err(WalletError::Overflow);
            },
        };
        let ghost previous = inputs@.map_values(|m: TxInput| m@);
        let ghost single = seq![input_for(txid_bytes@, u.vout)];
        inputs.push(
            TxInput {
                prev_txid: txid_bytes,
                prev_vout: u.vout,
                script_sig: Vec::new(),
                sequence: SEQUENCE_FINAL,
            },
        );
        proof {
            let now = inputs@.map_values(|m: TxInput| m@);
            assert(now =~= previous + single);
            match collect_inputs(model.skip(i as int + 1), new_total as int) {
                Ok(rest) => {
                    assert(previous + (single + rest.0) =~= now + rest.0);
                },
                Err(_) => {},
            }
        }
        total = new_total;
        i = i + 1;
    }
    proof {
        assert(model.skip(utxos@.len() as int) =~= Seq::<UtxoModel>::empty());
        let ins = inputs@.map_values(|m: TxInput| m@);
        assert(ins + Seq::<InputModel>::empty() =~= ins);
    }
    Ok((inputs, total))
}

/// The anchor payload fits in a standard data-carrier output.
pub open spec fn anchor_fits(anchor: Option<Seq<u8>>) -> bool {
    match anchor {
        Some(p) => p.len() <= 80,
        None => true,
    }
}

/// The zero-value anchor output, when a payload is present.
pub open spec fn anchor_outputs(anchor: Option<Seq<u8>>) -> Seq<OutputModel> {
    match anchor {
        Some(p) => seq![OutputModel { value: 0u64, script_pubkey: op_return_script(p) }],
        None => Seq::<OutputModel>::empty(),
    }
}

/// The destination output, when a destination is present.
pub open spec fn destination_outputs(destination: Option<(Seq<char>, u64)>) -> Seq<OutputModel> {
    match destination {
        Some(d) => seq![
            OutputModel {
                value: d.1,
                script_pubkey: p2pkh_script(decoded_key_hash(d.0).unwrap()),
            },
        ],
        None => Seq::<OutputModel>::empty(),
    }
}

/// The change output, when the resolved change is positive.
pub open spec fn change_outputs(change_address: Seq<char>, change: u64) -> Seq<OutputModel> {
    if change > 0 {
        seq![
            OutputModel {
                value: change,
                script_pubkey: p2pkh_script(decoded_key_hash(change_address).unwrap()),
            },
        ]
    } else {
        Seq::<OutputModel>::empty()
    }
}

/// The sum of the non-change output amounts: the destination amount, or
/// zero for an anchor-only transaction.
pub open spec fn target_amount(destination: Option<(Seq<char>, u64)>) -> u64 {
    match destination {
        Some(d) => d.1,
        None => 0u64,
    }
}

/// The unsigned transaction a build must return, or the error it must
/// report, in the order the builder checks: no inputs, a rejected input,
/// an oversized anchor payload, an undecodable destination address, the
/// funds rule, then an undecodable change address when change is owed.
pub open spec fn build_spec(
    utxos: Seq<UtxoModel>,
    destination: Option<(Seq<char>, u64)>,
    anchor: Option<Seq<u8>>,
    change_address: Seq<char>,
    fee: u64,
    time: u32,
) -> Result<TxModel, WalletError> {
    if utxos.len() == 0 {
        Err(WalletError::NoInputs)
    } else {
        match collect_inputs(utxos, 0) {
            Err(e) => Err(e),
            Ok(ct) => if !anchor_fits(anchor) {
                Err(WalletError::PayloadTooLarge)
            } else if match destination {
                Some(d) => decoded_key_hash(d.0) is None,
                None => false,
            } {
                Err(WalletError::InvalidAddress)
            } else {
                match resolved_funds(ct.1 as u64, target_amount(destination), fee) {
                    Err(e) => Err(e),
                    Ok(cf) => if cf.0 > 0 && decoded_key_hash(change_address) is None {
                        Err(WalletError::InvalidAddress)
                    } else {
                        Ok(
                            TxModel {
                                version: 2u32,
                                time,
                                inputs: ct.0,
                                outputs: anchor_outputs(anchor) + destination_outputs(destination)
                                    + change_outputs(change_address, cf.0),
                            },
                        )
                    },
                }
            },
        }
    }
}

/// Assembles the unsigned transaction for the given inputs, optional
/// destination, optional anchor payload, change address and base fee.
///
/// Pure: the unspent outputs are only read, and the result is exactly what
/// `build_spec` says for these arguments.
pub fn build_transaction(
    utxos: &Vec<Utxo>,
    destination: Option<(&str, u64)>,
    anchor: Option<&Vec<u8>>,
    change_address: &str,
    fee: u64,
    time: u32,
) -> (r: Result<Transaction, WalletError>)
    ensures
        ({
            let dest_spec = match destination {
                Some(d) => Some((d.0@, d.1)),
                None => None,
            };
            let anchor_spec = match anchor {
                Some(p) => Some(p@),
                None => None,
            };
            let b = build_spec(
                utxos_model(utxos@),
                dest_spec,
                anchor_spec,
                change_address@,
                fee,
                time,
            );
            match r {
                Ok(tx) => b == Ok::<TxModel, WalletError>(tx@) && tx.version == 2 && tx.time
                    == time,
                Err(e) => b == Err::<TxModel, WalletError>(e),
            }
        }),
{
    if utxos.len() == 0 {
        return Err(WalletError::NoInputs);
    }
    let collected = collect_tx_inputs(utxos)?;
    let inputs = collected.0;
    let total_input = collected.1;
    let anchor_script: Option<Vec<u8>> = match anchor {
        Some(p) => {
            if p.len() > 80 {
                return Err(WalletError::PayloadTooLarge);
            }
            Some(build_op_return_script(p.as_slice()))
        },
        None => None,
    };
    let dest_resolved: Option<(Vec<u8>, u64)> = match destination {
        Some(d) => {
            let key_hash = decode_address_to_pkh(d.0)?;
            Some((build_p2pkh_script(key_hash.as_slice()), d.1))
        },
        None => None,
    };
    let target = match &dest_resolved {
        Some(d) => d.1,
        None => 0u64,
    };
    let funds = resolve_funds(total_input, target, fee)?;
    let change = funds.0;
    let mut outputs: Vec<TxOutput> = Vec::new();
    match anchor_script {
        Some(script) => {
            outputs.push(TxOutput { value: 0, script_pubkey: script });
        },
        None => {},
    };
    match dest_resolved {
        Some(d) => {
            outputs.push(TxOutput { value: d.1, script_pubkey: d.0 });
        },
        None => {},
    };
    if change > 0 {
        let change_hash = decode_address_to_pkh(change_address)?;
        let change_script = build_p2pkh_script(change_hash.as_slice());
        outputs.push(TxOutput { value: change, script_pubkey: change_script });
    }
    let tx = Transaction { version: TX_VERSION, time, inputs, outputs };
    proof {
        let dest_spec = match destination {
            Some(d) => Some((d.0@, d.1)),
            None => None,
        };
        let anchor_spec = match anchor {
            Some(p) => Some(p@),
            None => None,
        };
        assert(tx@.outputs =~= anchor_outputs(anchor_spec) + destination_outputs(dest_spec)
            + change_outputs(change_address@, change));
    }
    Ok(tx)
}

/// The sum of the output amounts of a transaction.
pub open spec fn sum_outputs(outputs: Seq<OutputModel>) -> int
    decreases outputs.len(),
{
    if outputs.len() == 0 {
        0
    } else {
        outputs.first().value + sum_outputs(outputs.drop_first())
    }
}

/// The sum of no outputs is zero, and of one output its value.
pub proof fn lemma_sum_outputs_small(o: OutputModel)
    ensures
        sum_outputs(Seq::<OutputModel>::empty()) == 0,
        sum_outputs(seq![o]) == o.value,
{
    assert(sum_outputs(Seq::<OutputModel>::empty()) == 0);
    assert(seq![o].drop_first() =~= Seq::<OutputModel>::empty());
    assert(sum_outputs(seq![o]) == o.value + sum_outputs(Seq::<OutputModel>::empty()));
}

/// Summing distributes over concatenation.
pub proof fn lemma_sum_outputs_concat(a: Seq<OutputModel>, b: Seq<OutputModel>)
    ensures
        sum_outputs(a + b) == sum_outputs(a) + sum_outputs(b),
    decreases a.len(),
{
    if a.len() == 0 {
        assert(a + b =~= b);
    } else {
        lemma_sum_outputs_concat(a.drop_first(), b);
        assert((a + b).drop_first() =~= a.drop_first() + b);
        assert((a + b).first() == a.first());
    }
}

/// The destination address decodes whenever one is present.
pub open spec fn destination_ok(destination: Option<(Seq<char>, u64)>) -> bool {
    match destination {
        Some(d) => decoded_key_hash(d.0) is Some,
        None => true,
    }
}

/// Balance invariant and funds check. Every transaction the build returns
/// satisfies `sum(outputs) + effective fee == sum(inputs)` exactly, with
/// the effective fee at least the requested fee — so the outputs plus the
/// requested fee never exceed the inputs. And whenever the target plus the
/// fee exceeds the inputs on an otherwise well-formed request, the build
/// fails with `InsufficientFunds` carrying the exact shortfall.
pub proof fn lemma_build_funds(
    utxos: Seq<UtxoModel>,
    destination: Option<(Seq<char>, u64)>,
    anchor: Option<Seq<u8>>,
    change_address: Seq<char>,
    fee: u64,
    time: u32,
)
    ensures
        ({
            let b = build_spec(utxos, destination, anchor, change_address, fee, time);
            let ct = collect_inputs(utxos, 0);
            let target = target_amount(destination);
            &&& (b matches Ok(tx) ==> ct matches Ok(c) && (match resolved_funds(
                c.1 as u64,
                target,
                fee,
            ) {
                Ok(cf) => sum_outputs(tx.outputs) + cf.1 == c.1 && cf.1 >= fee,
                Err(_) => false,
            }))
            &&& (b matches Ok(tx) ==> sum_outputs(tx.outputs) + fee <= ct->Ok_0.1)
            &&& ((utxos.len() > 0 && (ct matches Ok(c) && anchor_fits(anchor) && destination_ok(
                destination,
            ) && target + fee <= u64::MAX && target + fee > c.1)) ==> b == Err::<
                TxModel,
                WalletError,
            >(
                WalletError::InsufficientFunds {
                    available: (ct->Ok_0.1) as u64,
                    required: (target + fee) as u64,
                },
            ))
        }),
{
    lemma_collect_total_bounds(utxos, 0);
    let b = build_spec(utxos, destination, anchor, change_address, fee, time);
    if b is Ok && utxos.len() > 0 && collect_inputs(utxos, 0) is Ok {
        let ct = collect_inputs(utxos, 0);
        let c = ct->Ok_0;
        let target = target_amount(destination);
        let rf = resolved_funds(c.1 as u64, target, fee);
        if rf is Ok {
            let cf = rf->Ok_0;
            let tx = b->Ok_0;
            let a_outs = anchor_outputs(anchor);
            let d_outs = destination_outputs(destination);
            let c_outs = change_outputs(change_address, cf.0);
            lemma_sum_outputs_concat(a_outs + d_outs, c_outs);
            lemma_sum_outputs_concat(a_outs, d_outs);
            match anchor {
                Some(p) => {
                    lemma_sum_outputs_small(a_outs[0]);
                    assert(a_outs =~= seq![a_outs[0]]);
                },
                None => {
                    lemma_sum_outputs_small(OutputModel { value: 0u64, script_pubkey: Seq::<u8>::empty() });
                },
            }
            assert(sum_outputs(a_outs) == 0);
            match destination {
                Some(d) => {
                    lemma_sum_outputs_small(d_outs[0]);
                    assert(d_outs =~= seq![d_outs[0]]);
                },
                None => {},
            }
            assert(sum_outputs(d_outs) == target);
            if cf.0 > 0 {
                lemma_sum_outputs_small(c_outs[0]);
                assert(c_outs =~= seq![c_outs[0]]);
            }
            assert(sum_outputs(c_outs) == cf.0);
        }
    }
}

/// Dust rule at the transaction level, for a single-destination build with
/// no anchor: a remainder of 1 to 545 base units yields a transaction with
/// no change output whose implicit fee is the requested fee plus the
/// remainder; a remainder of 546 or more yields exactly one change output
/// carrying the whole remainder.
pub proof fn lemma_build_dust_rule(
    utxos: Seq<UtxoModel>,
    address: Seq<char>,
    amount: u64,
    change_address: Seq<char>,
    fee: u64,
    time: u32,
)
    ensures
        ({
            let b = build_spec(utxos, Some((address, amount)), None, change_address, fee, time);
            b matches Ok(tx) ==> ({
                let total = collect_inputs(utxos, 0)->Ok_0.1;
                let remainder = total - amount - fee;
                &&& (0 < remainder < 546 ==> tx.outputs.len() == 1 && tx.outputs[0].value == amount
                    && sum_outputs(tx.outputs) + fee + remainder == total)
                &&& (remainder >= 546 ==> tx.outputs.len() == 2 && tx.outputs[0].value == amount
                    && tx.outputs[1].value == remainder && sum_outputs(tx.outputs) + fee == total)
                &&& (remainder == 0 ==> tx.outputs.len() == 1 && sum_outputs(tx.outputs) + fee
                    == total)
            })
        }),
{
    lemma_collect_total_bounds(utxos, 0);
    let destination = Some((address, amount));
    let b = build_spec(utxos, destination, None, change_address, fee, time);
    if b is Ok {
        let tx = b->Ok_0;
        let total = collect_inputs(utxos, 0)->Ok_0.1;
        let rf = resolved_funds(total as u64, amount, fee);
        let cf = rf->Ok_0;
        let d_outs = destination_outputs(destination);
        let c_outs = change_outputs(change_address, cf.0);
        assert(anchor_outputs(None) =~= Seq::<OutputModel>::empty());
        assert(tx.outputs =~= d_outs + c_outs);
        lemma_sum_outputs_concat(d_outs, c_outs);
        lemma_sum_outputs_small(d_outs[0]);
        assert(d_outs =~= seq![d_outs[0]]);
        if cf.0 > 0 {
            lemma_sum_outputs_small(c_outs[0]);
            assert(c_outs =~= seq![c_outs[0]]);
            assert(tx.outputs[1] == c_outs[0]);
        } else {
            assert(tx.outputs =~= d_outs);
        }
        assert(tx.outputs[0] == d_outs[0]);
    }
}

} // verus!
