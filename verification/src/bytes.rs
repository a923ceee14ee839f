//! Little-endian and variable-length integer serialization primitives.
//!
//! `ByteWriter` accumulates the consensus byte layout of a transaction; the
//! spec functions here say exactly which bytes each write appends.

use vstd::prelude::*;

verus! {

/// The two little-endian bytes of a 16-bit integer.
pub open spec fn u16_le_bytes(v: u16) -> Seq<u8> {
    seq![(v & 0xff) as u8, ((v >> 8) & 0xff) as u8]
}

/// The four little-endian bytes of a 32-bit integer.
pub open spec fn u32_le_bytes(v: u32) -> Seq<u8> {
    seq![
        (v & 0xff) as u8,
        ((v >> 8) & 0xff) as u8,
        ((v >> 16) & 0xff) as u8,
        ((v >> 24) & 0xff) as u8,
    ]
}

/// The eight little-endian bytes of a 64-bit integer.
pub open spec fn u64_le_bytes(v: u64) -> Seq<u8> {
    seq![
        (v & 0xff) as u8,
        ((v >> 8) & 0xff) as u8,
        ((v >> 16) & 0xff) as u8,
        ((v >> 24) & 0xff) as u8,
        ((v >> 32) & 0xff) as u8,
        ((v >> 40) & 0xff) as u8,
        ((v >> 48) & 0xff) as u8,
        ((v >> 56) & 0xff) as u8,
    ]
}

/// Bitcoin-style variable-length integer encoding: one byte below 0xfd,
/// otherwise a marker byte followed by the little-endian value.
pub open spec fn var_int_bytes(v: u64) -> Seq<u8> {
    if v < 0xfd {
        seq![v as u8]
    } else if v <= 0xffff {
        seq![0xfdu8] + u16_le_bytes(v as u16)
    } else if v <= 0xffffffff {
        seq![0xfeu8] + u32_le_bytes(v as u32)
    } else {
        seq![0xffu8] + u64_le_bytes(v)
    }
}

/// An append-only buffer for assembling the consensus byte layout.
pub struct ByteWriter {
    pub buffer: Vec<u8>,
}

impl ByteWriter {
    /// Starts with an empty buffer.
    pub fn new() -> (w: ByteWriter)
        ensures
            w.buffer@ == Seq::<u8>::empty(),
    {
        ByteWriter { buffer: Vec::new() }
    }

    /// Appends the four little-endian bytes of `val`.
    pub fn write_u32_le(&mut self, val: u32)
        ensures
            final(self).buffer@ == old(self).buffer@ + u32_le_bytes(val),
    {
        self.buffer.push((val & 0xff) as u8);
        self.buffer.push(((val >> 8) & 0xff) as u8);
        self.buffer.push(((val >> 16) & 0xff) as u8);
        self.buffer.push(((val >> 24) & 0xff) as u8);
        assert(self.buffer@ =~= old(self).buffer@ + u32_le_bytes(val));
    }

    /// Appends the eight little-endian bytes of `val`.
    pub fn write_u64_le(&mut self, val: u64)
        ensures
            final(self).buffer@ == old(self).buffer@ + u64_le_bytes(val),
    {
        self.buffer.push((val & 0xff) as u8);
        self.buffer.push(((val >> 8) & 0xff) as u8);
        self.buffer.push(((val >> 16) & 0xff) as u8);
        self.buffer.push(((val >> 24) & 0xff) as u8);
        self.buffer.push(((val >> 32) & 0xff) as u8);
        self.buffer.push(((val >> 40) & 0xff) as u8);
        self.buffer.push(((val >> 48) & 0xff) as u8);
        self.buffer.push(((val >> 56) & 0xff) as u8);
        assert(self.buffer@ =~= old(self).buffer@ + u64_le_bytes(val));
    }

    /// Appends the variable-length encoding of `val`.
    pub fn write_var_int(&mut self, val: u64)
        ensures
            final(self).buffer@ == old(self).buffer@ + var_int_bytes(val),
    {
        if val < 0xfd {
            self.buffer.push(val as u8);
            assert(self.buffer@ =~= old(self).buffer@ + var_int_bytes(val));
        } else if val <= 0xffff {
            let v = val as u16;
            self.buffer.push(0xfd);
            self.buffer.push((v & 0xff) as u8);
            self.buffer.push(((v >> 8) & 0xff) as u8);
            assert(self.buffer@ =~= old(self).buffer@ + var_int_bytes(val));
        } else if val <= 0xffffffff {
            let v = val as u32;
            self.buffer.push(0xfe);
            self.buffer.push((v & 0xff) as u8);
            self.buffer.push(((v >> 8) & 0xff) as u8);
            self.buffer.push(((v >> 16) & 0xff) as u8);
            self.buffer.push(((v >> 24) & 0xff) as u8);
            assert(self.buffer@ =~= old(self).buffer@ + var_int_bytes(val));
        } else {
            self.buffer.push(0xff);
            self.write_u64_le(val);
            assert(self.buffer@ =~= old(self).buffer@ + var_int_bytes(val));
        }
    }

    /// Appends every byte of `data` in order.
    pub fn write_slice(&mut self, data: &[u8])
        ensures
            final(self).buffer@ == old(self).buffer@ + data@,
    {
        let mut i: usize = 0;
        while i < data.len()
            invariant
                i <= data@.len(),
                self.buffer@ == old(self).buffer@ + data@.subrange(0, i as int),
            decreases data@.len() - i,
        {
            self.buffer.push(data[i]);
            i = i + 1;
            assert(self.buffer@ =~= old(self).buffer@ + data@.subrange(0, i as int));
        }
        assert(self.buffer@ =~= old(self).buffer@ + data@);
    }
}

} // verus!
