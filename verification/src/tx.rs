//! Transaction data model and its consensus serialization.
//!
//! The ledger uses the proof-of-stake-velocity header layout: version, then
//! a 32-bit time field, then the varint-prefixed input and output lists,
//! then a zero locktime. `ser_tx` states the exact byte layout; the
//! executable serializer is proved to produce it.

use crate::bytes::{u32_le_bytes, u64_le_bytes, var_int_bytes, ByteWriter};
use crate::errors::WalletError;
use crate::hexcodec::hex_decode;
use vstd::prelude::*;

verus! {

/// An unspent output offered as an input: transaction id as 64 hex
/// characters, output index, and amount in base units.
pub struct Utxo {
    pub txid: String,
    pub vout: u32,
    pub amount: u64,
}

/// Mathematical shape of a `Utxo`.
pub ghost struct UtxoModel {
    pub txid: Seq<char>,
    pub vout: u32,
    pub amount: u64,
}

impl View for Utxo {
    type V = UtxoModel;

    open spec fn view(&self) -> UtxoModel {
        UtxoModel { txid: self.txid@, vout: self.vout, amount: self.amount }
    }
}

/// One transaction input: the previous output reference, the unlocking
/// script (empty until signed), and the sequence number.
pub struct TxInput {
    pub prev_txid: Vec<u8>,
    pub prev_vout: u32,
    pub script_sig: Vec<u8>,
    pub sequence: u32,
}

/// Mathematical shape of a `TxInput`.
pub ghost struct InputModel {
    pub prev_txid: Seq<u8>,
    pub prev_vout: u32,
    pub script_sig: Seq<u8>,
    pub sequence: u32,
}

impl View for TxInput {
    type V = InputModel;

    open spec fn view(&self) -> InputModel {
        InputModel {
            prev_txid: self.prev_txid@,
            prev_vout: self.prev_vout,
            script_sig: self.script_sig@,
            sequence: self.sequence,
        }
    }
}

/// One transaction output: an amount and the locking script.
pub struct TxOutput {
    pub value: u64,
    pub script_pubkey: Vec<u8>,
}

/// Mathematical shape of a `TxOutput`.
pub ghost struct OutputModel {
    pub value: u64,
    pub script_pubkey: Seq<u8>,
}

impl View for TxOutput {
    type V = OutputModel;

    open spec fn view(&self) -> OutputModel {
        OutputModel { value: self.value, script_pubkey: self.script_pubkey@ }
    }
}

/// A transaction, unsigned while every unlocking script is empty.
pub struct Transaction {
    pub version: u32,
    pub time: u32,
    pub inputs: Vec<TxInput>,
    pub outputs: Vec<TxOutput>,
}

/// Mathematical shape of a `Transaction`.
pub ghost struct TxModel {
    pub version: u32,
    pub time: u32,
    pub inputs: Seq<InputModel>,
    pub outputs: Seq<OutputModel>,
}

impl View for Transaction {
    type V = TxModel;

    open spec fn view(&self) -> TxModel {
        TxModel {
            version: self.version,
            time: self.time,
            inputs: self.inputs@.map_values(|i: TxInput| i@),
            outputs: self.outputs@.map_values(|o: TxOutput| o@),
        }
    }
}

/// The concatenation of a sequence of byte strings, in order.
pub open spec fn concat_bytes(parts: Seq<Seq<u8>>) -> Seq<u8>
    decreases parts.len(),
{
    if parts.len() == 0 {
        Seq::<u8>::empty()
    } else {
        parts.first() + concat_bytes(parts.drop_first())
    }
}

/// Appending one more part appends its bytes.
pub proof fn lemma_concat_bytes_snoc(parts: Seq<Seq<u8>>, i: int)
    requires
        0 <= i < parts.len(),
    ensures
        concat_bytes(parts.take(i + 1)) == concat_bytes(parts.take(i)) + parts[i],
    decreases i,
{
    if i == 0 {
        assert(parts.take(1) =~= seq![parts[0]]);
        assert(parts.take(1).drop_first() =~= Seq::<Seq<u8>>::empty());
        assert(parts.take(0) =~= Seq::<Seq<u8>>::empty());
        assert(concat_bytes(parts.take(1)) =~= concat_bytes(parts.take(0)) + parts[0]);
    } else {
        lemma_concat_bytes_snoc(parts.drop_first(), i - 1);
        assert(parts.take(i + 1).drop_first() =~= parts.drop_first().take(i));
        assert(parts.take(i).drop_first() =~= parts.drop_first().take(i - 1));
        assert(concat_bytes(parts.take(i + 1)) =~= concat_bytes(parts.take(i)) + parts[i]);
    }
}

/// The serialized form of one input: reversed transaction id, output index,
/// length-prefixed unlocking script, sequence number.
pub open spec fn ser_input(i: InputModel) -> Seq<u8> {
    i.prev_txid.reverse() + u32_le_bytes(i.prev_vout) + var_int_bytes(i.script_sig.len() as u64)
        + i.script_sig + u32_le_bytes(i.sequence)
}

/// The serialized form of one output: amount, length-prefixed locking
/// script.
pub open spec fn ser_output(o: OutputModel) -> Seq<u8> {
    u64_le_bytes(o.value) + var_int_bytes(o.script_pubkey.len() as u64) + o.script_pubkey
}

/// The serialized input list, without its count prefix.
pub open spec fn ser_inputs(inputs: Seq<InputModel>) -> Seq<u8> {
    concat_bytes(inputs.map_values(|i: InputModel| ser_input(i)))
}

/// The serialized output list, without its count prefix.
pub open spec fn ser_outputs(outputs: Seq<OutputModel>) -> Seq<u8> {
    concat_bytes(outputs.map_values(|o: OutputModel| ser_output(o)))
}

/// The full consensus byte layout: version, time, varint-counted inputs and
/// outputs, zero locktime.
pub open spec fn ser_tx(tx: TxModel) -> Seq<u8> {
    u32_le_bytes(tx.version) + u32_le_bytes(tx.time) + var_int_bytes(tx.inputs.len() as u64)
        + ser_inputs(tx.inputs) + var_int_bytes(tx.outputs.len() as u64) + ser_outputs(tx.outputs)
        + u32_le_bytes(0)
}

impl ByteWriter {
    /// Appends the bytes of `data` in reverse order.
    pub fn write_slice_reversed(&mut self, data: &[u8])
        ensures
            final(self).buffer@ == old(self).buffer@ + data@.reverse(),
    {
        let n = data.len();
        let mut j: usize = 0;
        while j < n
            invariant
                j <= n,
                n == data@.len(),
                self.buffer@ == old(self).buffer@ + data@.reverse().take(j as int),
            decreases n - j,
        {
            self.buffer.push(data[n - 1 - j]);
            j = j + 1;
            assert(data@.reverse()[j - 1] == data@[n - j]);
            assert(self.buffer@ =~= old(self).buffer@ + data@.reverse().take(j as int));
        }
        assert(self.buffer@ =~= old(self).buffer@ + data@.reverse());
    }

    /// Appends the serialized form of one input.
    pub fn write_input(&mut self, input: &TxInput)
        ensures
            final(self).buffer@ == old(self).buffer@ + ser_input(input@),
    {
        self.write_slice_reversed(input.prev_txid.as_slice());
        self.write_u32_le(input.prev_vout);
        self.write_var_int(input.script_sig.len() as u64);
        self.write_slice(input.script_sig.as_slice());
        self.write_u32_le(input.sequence);
        assert(self.buffer@ =~= old(self).buffer@ + ser_input(input@));
    }

    /// Appends the serialized form of one output.
    pub fn write_output(&mut self, output: &TxOutput)
        ensures
            final(self).buffer@ == old(self).buffer@ + ser_output(output@),
    {
        self.write_u64_le(output.value);
        self.write_var_int(output.script_pubkey.len() as u64);
        self.write_slice(output.script_pubkey.as_slice());
        assert(self.buffer@ =~= old(self).buffer@ + ser_output(output@));
    }

    /// Appends the varint-counted serialized output list.
    pub fn write_outputs(&mut self, outputs: &Vec<TxOutput>)
        ensures
            final(self).buffer@ == old(self).buffer@ + var_int_bytes(outputs@.len() as u64)
                + ser_outputs(outputs@.map_values(|o: TxOutput| o@)),
    {
        let ghost parts = outputs@.map_values(|o: TxOutput| o@).map_values(
            |m: OutputModel| ser_output(m),
        );
        self.write_var_int(outputs.len() as u64);
        let ghost header = self.buffer@;
        let mut j: usize = 0;
        proof {
            assert(parts.take(0) =~= Seq::<Seq<u8>>::empty());
        }
        while j < outputs.len()
            invariant
                j <= outputs@.len(),
                parts == outputs@.map_values(|o: TxOutput| o@).map_values(
                    |m: OutputModel| ser_output(m),
                ),
                self.buffer@ == header + concat_bytes(parts.take(j as int)),
            decreases outputs@.len() - j,
        {
            let output = &outputs[j];
            self.write_output(output);
            proof {
                lemma_concat_bytes_snoc(parts, j as int);
                assert(parts[j as int] == ser_output(outputs@[j as int]@));
            }
            j = j + 1;
        }
        proof {
            assert(parts.take(outputs@.len() as int) =~= parts);
            assert(header + concat_bytes(parts) =~= old(self).buffer@ + var_int_bytes(
                outputs@.len() as u64,
            ) + ser_outputs(outputs@.map_values(|o: TxOutput| o@)));
        }
    }
}

/// Serializes a transaction into its exact consensus byte layout.
pub fn serialize_tx(tx: &Transaction) -> (r: Vec<u8>)
    ensures
        r@ == ser_tx(tx@),
{
    let ghost in_parts = tx@.inputs.map_values(|i: InputModel| ser_input(i));
    let mut w = ByteWriter::new();
    w.write_u32_le(tx.version);
    w.write_u32_le(tx.time);
    w.write_var_int(tx.inputs.len() as u64);
    let ghost header = w.buffer@;
    let mut i: usize = 0;
    proof {
        assert(in_parts.take(0) =~= Seq::<Seq<u8>>::empty());
    }
    while i < tx.inputs.len()
        invariant
            i <= tx.inputs@.len(),
            in_parts == tx@.inputs.map_values(|m: InputModel| ser_input(m)),
            tx@.inputs == tx.inputs@.map_values(|x: TxInput| x@),
            w.buffer@ == header + concat_bytes(in_parts.take(i as int)),
        decreases tx.inputs@.len() - i,
    {
        let input = &tx.inputs[i];
        w.write_input(input);
        proof {
            lemma_concat_bytes_snoc(in_parts, i as int);
            assert(in_parts[i as int] == ser_input(tx.inputs@[i as int]@));
        }
        i = i + 1;
    }
    proof {
        assert(in_parts.take(tx.inputs@.len() as int) =~= in_parts);
    }
    w.write_outputs(&tx.outputs);
    w.write_u32_le(0);
    proof {
        assert(w.buffer@ =~= ser_tx(tx@));
    }
    w.buffer
}

} // verus!
