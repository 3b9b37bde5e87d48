//! How records sit in their storage slots. A node slot holds a 4-byte
//! big-endian payload length, the encoded record, and unused reserved bytes;
//! the metadata slot holds the encoded metadata record alone.
use crate::codec::{be_u32, be_u32_at, lemma_u32_be_round_trip, PREFIX_MAX};
use crate::error::{CodecError, RegistryError};
use crate::state::{
    enc_meta, enc_node, lemma_meta_round_trip, lemma_node_round_trip, max_filled_view, meta_fits,
    node_fits, parse_meta, parse_node, MetaView, NodeView, RegistryMetaAccount,
    RegistryNodeAccount, META_LEN,
};
use byteorder::ByteOrder;
use vstd::prelude::*;

verus! {

/// Relies on byteorder's `BigEndian::write_u32`: it stores the four bytes of
/// `n`, most significant first.
#[verifier::external_body]
fn be_bytes(n: u32) -> (r: [u8; 4])
    ensures
        r@ == be_u32(n),
{
    let mut buf = [0u8; 4];
    byteorder::BigEndian::write_u32(&mut buf, n);
    buf
}

/// What a node slot holding `data` yields when read.
#[verifier::opaque]
pub open spec fn node_slot(data: Seq<u8>) -> Result<NodeView, RegistryError> {
    if data.len() == 0 {
        Err(RegistryError::NotYetRegisteredMint)
    } else if data.len() < 4 || 4 + be_u32_at(data, 0) > data.len() {
        Err(RegistryError::Codec(CodecError::Truncated))
    } else {
        match parse_node(data.subrange(4, 4 + be_u32_at(data, 0))) {
            Some(v) => Ok(v),
            None => Err(RegistryError::Codec(CodecError::Malformed)),
        }
    }
}

/// The bytes written at the start of a node slot to store `n`.
#[verifier::opaque]
pub open spec fn node_image(n: NodeView) -> Seq<u8> {
    be_u32(enc_node(n).len() as u32) + enc_node(n)
}

/// `n` can be stored in a slot of `capacity` bytes.
#[verifier::opaque]
pub open spec fn node_image_fits(n: NodeView, capacity: int) -> bool {
    &&& node_fits(n)
    &&& enc_node(n).len() <= PREFIX_MAX
    &&& 4 + enc_node(n).len() <= capacity
}

/// What the metadata slot holding `data` yields when read.
#[verifier::opaque]
pub open spec fn meta_slot(data: Seq<u8>) -> Result<MetaView, RegistryError> {
    if data.len() == 0 {
        Err(RegistryError::NotYetInitialized)
    } else if data.len() < META_LEN {
        Err(RegistryError::Codec(CodecError::Truncated))
    } else {
        match parse_meta(data) {
            Some(m) => Ok(m),
            None => Err(RegistryError::Codec(CodecError::Malformed)),
        }
    }
}

/// Capacity of a node slot: the worst-case record and its length prefix.
pub open spec fn node_slot_len() -> int {
    4 + enc_node(max_filled_view()).len() as int
}

/// Reads the node stored in a slot.
pub fn read_node_slot(data: &[u8]) -> (r: Result<RegistryNodeAccount, RegistryError>)
    ensures
        match node_slot(data@) {
            Ok(v) => r matches Ok(n) && n@ == v,
            Err(e) => r matches Err(x) && x == e,
        },
{
    reveal(node_slot);
    if data.len() == 0 {
        return Err(RegistryError::NotYetRegisteredMint);
    }
    if data.len() < 4 {
        return Err(RegistryError::Codec(CodecError::Truncated));
    }
    let len = ((data[0] as u32) << 24u32) | ((data[1] as u32) << 16u32) | ((data[2] as u32) << 8u32)
        | (data[3] as u32);
    if len as usize > data.len() - 4 {
        return Err(RegistryError::Codec(CodecError::Truncated));
    }
    let end = 4 + len as usize;
    let mut payload: Vec<u8> = Vec::new();
    let mut i: usize = 4;
    while i < end
        invariant
            4 <= i <= end <= data@.len(),
            payload@ == data@.subrange(4, i as int),
        decreases end - i,
    {
        payload.push(data[i]);
        i = i + 1;
        assert(payload@ =~= data@.subrange(4, i as int));
    }
    match RegistryNodeAccount::decode(payload.as_slice()) {
        Some(n) => Ok(n),
        None => Err(RegistryError::Codec(CodecError::Malformed)),
    }
}

/// The bytes that store `node` in a slot it fits.
pub fn node_image_bytes(node: &RegistryNodeAccount) -> (r: Vec<u8>)
    requires
        node_fits(node@),
        enc_node(node@).len() <= PREFIX_MAX,
    ensures
        r@ == node_image(node@),
{
    reveal(node_image);
    let payload = node.encode();
    let prefix = be_bytes(payload.len() as u32);
    let mut out: Vec<u8> = Vec::new();
    out.push(prefix[0]);
    out.push(prefix[1]);
    out.push(prefix[2]);
    out.push(prefix[3]);
    let mut i: usize = 0;
    while i < payload.len()
        invariant
            i <= payload@.len(),
            out@ == prefix@ + payload@.subrange(0, i as int),
            prefix@.len() == 4,
        decreases payload@.len() - i,
    {
        out.push(payload[i]);
        i = i + 1;
        assert(out@ =~= prefix@ + payload@.subrange(0, i as int));
    }
    assert(payload@.subrange(0, i as int) =~= payload@);
    out
}

/// The bytes that store `node` in a slot of `capacity` bytes.
pub fn node_slot_image(node: &RegistryNodeAccount, capacity: usize) -> (r: Result<
    Vec<u8>,
    CodecError,
>)
    ensures
        node_image_fits(node@, capacity as int) ==> (r matches Ok(b) && b@ == node_image(node@)),
        !node_image_fits(node@, capacity as int) ==> r == Err::<Vec<u8>, CodecError>(
            CodecError::TooLarge,
        ),
{
    reveal(node_image_fits);
    if !node.fits() {
        return Err(CodecError::TooLarge);
    }
    let len = node.encode().len();
    if len as u64 > PREFIX_MAX || capacity < 4 || len > capacity - 4 {
        return Err(CodecError::TooLarge);
    }
    Ok(node_image_bytes(node))
}

/// Reads the metadata record stored in its slot.
pub fn read_meta_slot(data: &[u8]) -> (r: Result<RegistryMetaAccount, RegistryError>)
    ensures
        match meta_slot(data@) {
            Ok(v) => r matches Ok(m) && m@ == v,
            Err(e) => r matches Err(x) && x == e,
        },
{
    reveal(meta_slot);
    if data.len() == 0 {
        return Err(RegistryError::NotYetInitialized);
    }
    if data.len() < META_LEN {
        return Err(RegistryError::Codec(CodecError::Truncated));
    }
    match RegistryMetaAccount::decode(data) {
        Some(m) => Ok(m),
        None => Err(RegistryError::Codec(CodecError::Malformed)),
    }
}

/// Storing a node in a slot and reading the slot back yields the node,
/// whatever the reserved bytes after it hold.
pub proof fn lemma_node_slot_round_trip(n: NodeView, data: Seq<u8>)
    requires
        node_image_fits(n, data.len() as int),
        data.subrange(0, node_image(n).len() as int) == node_image(n),
    ensures
        node_slot(data) == Ok::<NodeView, RegistryError>(n),
{
    reveal(node_slot);
    reveal(node_image);
    reveal(node_image_fits);
    let e = enc_node(n);
    let l = e.len() as u32;
    lemma_u32_be_round_trip(l);
    let img = node_image(n);
    assert(be_u32_at(data, 0) == be_u32_at(be_u32(l), 0)) by {
        assert(data[0] == img[0] && data[1] == img[1] && data[2] == img[2] && data[3] == img[3]);
    }
    assert(data.subrange(4, 4 + l as int) =~= e) by {
        assert(data.subrange(4, 4 + l as int) =~= img.subrange(4, 4 + l as int));
    }
    lemma_node_round_trip(n);
}

/// Storing the metadata record in its slot and reading it back yields the record.
pub proof fn lemma_meta_slot_round_trip(m: MetaView)
    requires
        meta_fits(m),
    ensures
        meta_slot(enc_meta(m)) == Ok::<MetaView, RegistryError>(m),
{
    reveal(meta_slot);
    lemma_meta_round_trip(m);
}

/// Capacity of a node slot, from the encoding of the worst-case record.
pub fn node_slot_capacity() -> (r: usize)
    ensures
        r == node_slot_len(),
        r == 2025,
        node_image_fits(max_filled_view(), r as int),
{
    let max = RegistryNodeAccount::max_filled();
    proof {
        reveal(node_image_fits);
        crate::state::lemma_max_filled_fits();
    }
    max.encode().len() + 4
}

} // verus!
