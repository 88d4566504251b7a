//! Scripts, cell outputs and out-points, with the byte layouts in which a
//! guest reads them.
//!
//! Scripts and cell outputs are laid out by `ckb_types`, and hashed by
//! `ckb_hash`. The layouts are stated here as functions on byte sequences, so
//! that what a handler hands to a guest can be said exactly.

use ckb_types::bytes::Bytes;
use ckb_types::packed;
use ckb_types::prelude::{Builder, Entity};
use vstd::bytes::{
    lemma_auto_spec_u32_to_from_le_bytes, spec_u32_from_le_bytes, spec_u32_to_le_bytes,
    spec_u64_to_le_bytes, u32_from_le_bytes, u32_to_le_bytes,
};
use vstd::prelude::*;
use vstd::slice::slice_subrange;

verus! {

/// Executable logic on the chain, named by the hash of its code.
#[derive(Clone, Debug, PartialEq, Eq)]
pub struct Script {
    pub code_hash: [u8; 32],
    pub hash_type: u8,
    pub args: Vec<u8>,
}

/// What a `Script` holds.
pub struct ScriptView {
    pub code_hash: Seq<u8>,
    pub hash_type: u8,
    pub args: Seq<u8>,
}

impl View for Script {
    type V = ScriptView;

    open spec fn view(&self) -> ScriptView {
        ScriptView { code_hash: self.code_hash@, hash_type: self.hash_type, args: self.args@ }
    }
}

/// The metadata of a cell.
#[derive(Clone, Debug, PartialEq, Eq)]
pub struct CellOutput {
    pub capacity: u64,
    pub lock: Script,
    pub type_: Option<Script>,
}

/// What a `CellOutput` holds.
pub struct CellOutputView {
    pub capacity: u64,
    pub lock: ScriptView,
    pub type_: Option<ScriptView>,
}

impl View for CellOutput {
    type V = CellOutputView;

    open spec fn view(&self) -> CellOutputView {
        CellOutputView {
            capacity: self.capacity,
            lock: self.lock@,
            type_: match self.type_ {
                Some(script) => Some(script@),
                None => None,
            },
        }
    }
}

/// The place of a cell: the transaction that made it, and its number among
/// that transaction's outputs.
#[derive(Clone, Copy, Debug, PartialEq, Eq)]
pub struct OutPoint {
    pub tx_hash: [u8; 32],
    pub index: u32,
}

/// What an `OutPoint` holds.
pub struct OutPointView {
    pub tx_hash: Seq<u8>,
    pub index: u32,
}

impl View for OutPoint {
    type V = OutPointView;

    open spec fn view(&self) -> OutPointView {
        OutPointView { tx_hash: self.tx_hash@, index: self.index }
    }
}

/// A transaction, carried along in its serialized form. Nothing reads it yet.
#[derive(Clone, Debug, PartialEq, Eq)]
pub struct Transaction {
    pub raw: Vec<u8>,
}

/// A live cell as the chain reports it: its output, and its data where the
/// data was asked for.
#[derive(Clone, Debug, PartialEq, Eq)]
pub struct LiveCell {
    pub output: CellOutput,
    pub data: Option<Vec<u8>>,
}

/// What a `LiveCell` holds.
pub struct LiveCellView {
    pub output: CellOutputView,
    pub data: Option<Seq<u8>>,
}

impl View for LiveCell {
    type V = LiveCellView;

    open spec fn view(&self) -> LiveCellView {
        LiveCellView {
            output: self.output@,
            data: match self.data {
                Some(data) => Some(data@),
                None => None,
            },
        }
    }
}

/// Four little-endian bytes for `n`, of which only the low thirty-two bits
/// are kept.
pub open spec fn le32(n: nat) -> Seq<u8> {
    spec_u32_to_le_bytes((n % 0x1_0000_0000) as u32)
}

/// A table of three fields: its whole length, the offset of each field, then
/// the fields.
pub open spec fn table3(first: Seq<u8>, second: Seq<u8>, third: Seq<u8>) -> Seq<u8> {
    le32(16 + first.len() + second.len() + third.len()) + le32(16) + le32(16 + first.len())
        + le32(16 + first.len() + second.len()) + first + second + third
}

/// A byte string behind its length.
pub open spec fn counted(bytes: Seq<u8>) -> Seq<u8> {
    le32(bytes.len()) + bytes
}

/// The serialization of a script: a table of the code hash, the hash type and
/// the counted arguments.
pub open spec fn script_layout(script: ScriptView) -> Seq<u8> {
    table3(script.code_hash, seq![script.hash_type], counted(script.args))
}

/// The serialization of a script that may be absent: nothing where it is.
pub open spec fn optional_script_layout(script: Option<ScriptView>) -> Seq<u8> {
    match script {
        Some(script) => script_layout(script),
        None => Seq::empty(),
    }
}

/// The serialization of a cell output: a table of the capacity in eight
/// little-endian bytes, the lock and the type.
pub open spec fn cell_output_layout(cell: CellOutputView) -> Seq<u8> {
    table3(
        spec_u64_to_le_bytes(cell.capacity),
        script_layout(cell.lock),
        optional_script_layout(cell.type_),
    )
}

/// The serialization of an out-point: the transaction hash, then the index in
/// four little-endian bytes.
pub open spec fn out_point_layout(out_point: OutPointView) -> Seq<u8> {
    out_point.tx_hash + spec_u32_to_le_bytes(out_point.index)
}

/// The out-point that `bytes` would be the serialization of.
pub open spec fn out_point_fields(bytes: Seq<u8>) -> OutPointView {
    OutPointView {
        tx_hash: bytes.subrange(0, 32),
        index: spec_u32_from_le_bytes(bytes.subrange(32, 36)),
    }
}

/// Number of bytes in a serialized out-point.
pub const OUT_POINT_SIZE: u64 = 36;

/// The script that `bytes` would be the serialization of.
pub open spec fn script_fields(bytes: Seq<u8>) -> ScriptView {
    ScriptView {
        code_hash: bytes.subrange(16, 48),
        hash_type: bytes[48],
        args: bytes.subrange(53, bytes.len() as int),
    }
}

/// `bytes` is the serialization of a script.
pub open spec fn is_script_layout(bytes: Seq<u8>) -> bool {
    &&& 53 <= bytes.len() < 0x1_0000_0000
    &&& bytes == script_layout(script_fields(bytes))
}

/// The Blake2b digest of `data`, thirty-two bytes long, under the chain's
/// personalization.
pub uninterp spec fn blake2b_256(data: Seq<u8>) -> Seq<u8>;

/// The hash of a script: the digest of its serialization.
pub open spec fn script_hash(script: ScriptView) -> Seq<u8> {
    blake2b_256(script_layout(script))
}

/// Bytes that a script of `args_len` argument bytes occupies on the chain.
pub open spec fn script_occupied_bytes(args_len: nat) -> nat {
    args_len + 33
}

/// Bytes that a cell occupies on the chain, `data_len` of them data.
pub open spec fn occupied_bytes(cell: CellOutputView, data_len: nat) -> nat {
    8 + data_len + script_occupied_bytes(cell.lock.args.len()) + match cell.type_ {
        Some(script) => script_occupied_bytes(script.args.len()),
        None => 0,
    }
}

/// Shannons that one occupied byte costs.
pub const BYTE_SHANNONS: u64 = 100_000_000;

/// Shannons that a cell must hold for the bytes it occupies.
pub open spec fn occupied_capacity(cell: CellOutputView, data_len: nat) -> nat {
    occupied_bytes(cell, data_len) * (BYTE_SHANNONS as nat)
}

/// A serialized script is read as the script that was written.
pub proof fn law_script_is_read_as_written(script: ScriptView)
    requires
        script.code_hash.len() == 32,
        53 + script.args.len() < 0x1_0000_0000,
    ensures
        is_script_layout(script_layout(script)),
        script_fields(script_layout(script)) == script,
{
    lemma_auto_spec_u32_to_from_le_bytes();
    let bytes = script_layout(script);
    assert(bytes.len() == 53 + script.args.len());
    assert(bytes.subrange(16, 48) =~= script.code_hash);
    assert(bytes[48] == script.hash_type);
    assert(bytes.subrange(53, bytes.len() as int) =~= script.args);
    assert(script_fields(bytes) == script);
}

/// A serialized out-point is read as the out-point that was written.
pub proof fn law_out_point_is_read_as_written(out_point: OutPointView)
    requires
        out_point.tx_hash.len() == 32,
    ensures
        out_point_layout(out_point).len() == OUT_POINT_SIZE,
        out_point_fields(out_point_layout(out_point)) == out_point,
{
    lemma_auto_spec_u32_to_from_le_bytes();
    let bytes = out_point_layout(out_point);
    assert(bytes.subrange(0, 32) =~= out_point.tx_hash);
    assert(bytes.subrange(32, 36) =~= spec_u32_to_le_bytes(out_point.index));
}

/// Hashes `data`.
///
/// Calls `ckb_hash::blake2b_256`. Trusted: that the digest depends on the
/// bytes alone. Its length is that of the array the call returns.
#[verifier::external_body]
pub(crate) fn digest(data: &[u8]) -> (hash: Vec<u8>)
    ensures
        hash@ == blake2b_256(data@),
        hash@.len() == 32,
{
    ckb_hash::blake2b_256(data).to_vec()
}

/// Serializes a script.
///
/// Builds a `ckb_types::packed::Script` of the three fields and takes its
/// bytes. Trusted: that the builder writes the table as `script_layout` says.
#[verifier::external_body]
pub(crate) fn pack_script(script: &Script) -> (bytes: Vec<u8>)
    ensures
        bytes@ == script_layout(script@),
{
    packed::Script::new_builder()
        .code_hash(packed::Byte32::new(script.code_hash))
        .hash_type(script.hash_type)
        .args(&script.args[..])
        .build()
        .as_slice()
        .to_vec()
}

/// Reads a serialized script.
///
/// Calls `ckb_types::packed::Script::from_slice` and takes the three fields
/// out. Trusted: that the call accepts exactly the byte strings that are the
/// serialization of a script, and that the fields lie where `script_fields`
/// says.
#[verifier::external_body]
pub(crate) fn unpack_script(bytes: &[u8]) -> (r: Option<Script>)
    ensures
        r is Some <==> is_script_layout(bytes@),
        r matches Some(script) ==> script@ == script_fields(bytes@),
{
    match packed::Script::from_slice(bytes) {
        Ok(script) => Some(
            Script {
                code_hash: script.code_hash().as_reader().into(),
                hash_type: script.hash_type().into(),
                args: script.args().raw_data().to_vec(),
            },
        ),
        Err(_) => None,
    }
}

/// Serializes a cell output whose lock and type are serialized already.
///
/// Builds a `ckb_types::packed::CellOutput` and takes its bytes. Trusted:
/// that the builder writes the table of the capacity in eight little-endian
/// bytes, the lock's bytes and the type's bytes.
#[verifier::external_body]
pub(crate) fn pack_cell_output(capacity: u64, lock: &[u8], type_: &[u8]) -> (bytes: Vec<u8>)
    ensures
        bytes@ == table3(spec_u64_to_le_bytes(capacity), lock@, type_@),
{
    packed::CellOutput::new_builder()
        .capacity(capacity)
        .lock(packed::Script::new_unchecked(Bytes::copy_from_slice(lock)))
        .type_(packed::ScriptOpt::new_unchecked(Bytes::copy_from_slice(type_)))
        .build()
        .as_slice()
        .to_vec()
}

impl Script {
    /// The serialization of the script.
    pub fn to_bytes(&self) -> (bytes: Vec<u8>)
        ensures
            bytes@ == script_layout(self@),
    {
        pack_script(self)
    }

    /// Reads a serialized script. Bytes that are the serialization of no
    /// script are refused.
    pub fn from_bytes(bytes: &[u8]) -> (r: Option<Script>)
        ensures
            r is Some <==> is_script_layout(bytes@),
            r matches Some(script) ==> script@ == script_fields(bytes@) && script_layout(script@)
                == bytes@,
    {
        unpack_script(bytes)
    }

    /// The hash of the script.
    pub fn hash(&self) -> (hash: Vec<u8>)
        ensures
            hash@ == script_hash(self@),
            hash@.len() == 32,
    {
        let bytes = pack_script(self);
        digest(bytes.as_slice())
    }
}

impl CellOutput {
    /// The serialization of the cell output.
    pub fn to_bytes(&self) -> (bytes: Vec<u8>)
        ensures
            bytes@ == cell_output_layout(self@),
    {
        let lock = pack_script(&self.lock);
        let type_ = match &self.type_ {
            Some(script) => pack_script(script),
            None => Vec::new(),
        };
        pack_cell_output(self.capacity, lock.as_slice(), type_.as_slice())
    }

    /// Shannons that the cell must hold when its data is `data_len` bytes
    /// long, or nothing where that number does not fit.
    pub fn occupied_capacity(&self, data_len: usize) -> (r: Option<u64>)
        ensures
            r is Some <==> occupied_capacity(self@, data_len as nat) <= u64::MAX,
            r matches Some(shannons) ==> shannons == occupied_capacity(self@, data_len as nat),
    {
        let limit: u64 = u64::MAX / BYTE_SHANNONS;
        let ghost total = occupied_bytes(self@, data_len as nat);
        assert(total * 100_000_000 <= u64::MAX <==> total <= limit) by (nonlinear_arith)
            requires
                limit == 184_467_440_737u64,
        ;
        let type_len: usize = match &self.type_ {
            Some(script) => script.args.len(),
            None => 0,
        };
        let type_fixed: u64 = if self.type_.is_some() {
            33
        } else {
            0
        };
        if data_len as u64 > limit || self.lock.args.len() as u64 > limit || type_len as u64
            > limit {
            return None;
        }
        let bytes: u64 = 8 + data_len as u64 + (self.lock.args.len() as u64 + 33) + (type_len as u64
            + type_fixed);
        assert(bytes == total);
        if bytes > limit {
            return None;
        }
        assert(bytes * 100_000_000 <= u64::MAX);
        Some(bytes * BYTE_SHANNONS)
    }
}

impl OutPoint {
    /// The serialization of the out-point.
    pub fn to_bytes(&self) -> (bytes: Vec<u8>)
        ensures
            bytes@ == out_point_layout(self@),
    {
        let mut bytes: Vec<u8> = Vec::new();
        let mut i: usize = 0;
        while i < 32
            invariant
                i <= 32,
                bytes@ == self.tx_hash@.subrange(0, i as int),
            decreases 32 - i,
        {
            bytes.push(self.tx_hash[i]);
            i = i + 1;
            assert(bytes@ =~= self.tx_hash@.subrange(0, i as int));
        }
        assert(bytes@ =~= self.tx_hash@);
        let mut index = u32_to_le_bytes(self.index);
        bytes.append(&mut index);
        bytes
    }

    /// Reads a serialized out-point. Bytes of any other length than that of
    /// an out-point are refused.
    pub fn from_bytes(bytes: &[u8]) -> (r: Option<OutPoint>)
        ensures
            r is Some <==> bytes@.len() == OUT_POINT_SIZE,
            r matches Some(out_point) ==> out_point@ == out_point_fields(bytes@)
                && out_point_layout(out_point@) == bytes@,
    {
        if bytes.len() != 36 {
            return None;
        }
        let mut tx_hash: [u8; 32] = [0u8; 32];
        let mut i: usize = 0;
        while i < 32
            invariant
                i <= 32,
                bytes@.len() == 36,
                forall|k: int| 0 <= k < i ==> tx_hash@[k] == bytes@[k],
            decreases 32 - i,
        {
            tx_hash[i] = bytes[i];
            i = i + 1;
        }
        let tail = slice_subrange(bytes, 32, 36);
        let index = u32_from_le_bytes(tail);
        let out_point = OutPoint { tx_hash, index };
        proof {
            lemma_auto_spec_u32_to_from_le_bytes();
            assert(spec_u32_to_le_bytes(spec_u32_from_le_bytes(tail@)) == tail@);
            assert(out_point@.tx_hash =~= bytes@.subrange(0, 32));
            assert(out_point_layout(out_point@) =~= bytes@);
        }
        Some(out_point)
    }
}

} // verus!
