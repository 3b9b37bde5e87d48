//! The registry state machine on record values: the transitions that create,
//! revive, update, tombstone and hand over nodes, and those that set up and
//! change the metadata record. Each takes the current records by value,
//! validates, and returns the records to persist.
use crate::error::RegistryError;
use crate::state::{
    CreateUpdateEntryInstructionData, EntryView, MetaView, NodeView, RegistryMetaAccount,
    RegistryNodeAccount,
};
use vstd::prelude::*;

verus! {

/// Thirty-two zero bytes: the key held where none applies.
pub open spec fn zero_key() -> Seq<u8> {
    Seq::new(32, |i: int| 0u8)
}

/// Descriptive fields with nothing in them.
pub open spec fn empty_entry() -> EntryView {
    EntryView {
        symbol: Seq::empty(),
        name: Seq::empty(),
        logo_url: Seq::empty(),
        tags: Seq::empty(),
        extensions: Seq::empty(),
    }
}

/// A sentinel node: links only.
pub open spec fn sentinel_view(next: Seq<u8>, prev: Seq<u8>) -> NodeView {
    NodeView {
        next,
        prev,
        mint: zero_key(),
        entry: empty_entry(),
        authority: zero_key(),
        deleted: false,
    }
}

/// The metadata record written when the registry is set up.
pub open spec fn initial_meta_view(
    head: Seq<u8>,
    fee_amount: u64,
    fee_mint: Seq<u8>,
    fee_destination: Seq<u8>,
    authority: Seq<u8>,
) -> MetaView {
    MetaView {
        head,
        fee_amount,
        fee_mint,
        fee_destination,
        fee_authority: authority,
        initialized: true,
    }
}

/// The node of a mint registered for the first time, linked between the
/// head sentinel and the former first node.
pub open spec fn fresh_node(
    head_key: Seq<u8>,
    first_key: Seq<u8>,
    mint: Seq<u8>,
    signer: Seq<u8>,
    entry: EntryView,
) -> NodeView {
    NodeView { next: first_key, prev: head_key, mint, entry, authority: signer, deleted: false }
}

/// A tombstoned node brought back with new fields, in its old place.
pub open spec fn revived_node(n: NodeView, signer: Seq<u8>, entry: EntryView) -> NodeView {
    NodeView { entry, authority: signer, deleted: false, ..n }
}

/// Reviving the node in a slot: only a tombstoned node can be.
pub open spec fn spec_revive(n: NodeView, signer: Seq<u8>, entry: EntryView) -> Result<
    NodeView,
    RegistryError,
> {
    if n.deleted {
        Ok(revived_node(n, signer, entry))
    } else {
        Err(RegistryError::PreviouslyRegisteredMint)
    }
}

/// Tombstoning a node.
pub open spec fn spec_delete(n: NodeView, signer: Seq<u8>) -> Result<NodeView, RegistryError> {
    if signer != n.authority {
        Err(RegistryError::InvalidTokenUpdateAuthority)
    } else if n.deleted {
        Err(RegistryError::PreviouslyDeletedMint)
    } else {
        Ok(NodeView { deleted: true, ..n })
    }
}

/// Overwriting a node's descriptive fields.
pub open spec fn spec_update(n: NodeView, signer: Seq<u8>, entry: EntryView) -> Result<
    NodeView,
    RegistryError,
> {
    if signer != n.authority {
        Err(RegistryError::InvalidTokenUpdateAuthority)
    } else {
        Ok(NodeView { entry, ..n })
    }
}

/// Handing a node's update authority to `new_authority`.
pub open spec fn spec_transfer_token_authority(
    n: NodeView,
    signer: Seq<u8>,
    new_authority: Seq<u8>,
) -> Result<NodeView, RegistryError> {
    if signer != n.authority {
        Err(RegistryError::InvalidTokenUpdateAuthority)
    } else {
        Ok(NodeView { authority: new_authority, ..n })
    }
}

/// Changing the fee settings.
pub open spec fn spec_update_fees(
    m: MetaView,
    signer: Seq<u8>,
    fee_amount: u64,
    fee_mint: Seq<u8>,
    fee_destination: Seq<u8>,
) -> Result<MetaView, RegistryError> {
    if signer != m.fee_authority {
        Err(RegistryError::InvalidFeeUpdateAuthority)
    } else {
        Ok(MetaView { fee_amount, fee_mint, fee_destination, ..m })
    }
}

/// Handing the fee authority to `new_authority`.
pub open spec fn spec_transfer_fee_authority(
    m: MetaView,
    signer: Seq<u8>,
    new_authority: Seq<u8>,
) -> Result<MetaView, RegistryError> {
    if signer != m.fee_authority {
        Err(RegistryError::InvalidFeeUpdateAuthority)
    } else {
        Ok(MetaView { fee_authority: new_authority, ..m })
    }
}

/// Whether the creator must pay the fee: everyone but the fee authority does.
pub open spec fn pays_fee(m: MetaView, signer: Seq<u8>) -> bool {
    signer != m.fee_authority
}

fn empty_fields() -> (r: CreateUpdateEntryInstructionData)
    ensures
        r@ == empty_entry(),
{
    let r = CreateUpdateEntryInstructionData {
        token_symbol: String::new(),
        token_name: String::new(),
        token_logo_url: String::new(),
        token_tags: Vec::new(),
        token_extensions: Vec::new(),
    };
    assert(r.token_tags.deep_view() =~= Seq::<Seq<char>>::empty());
    assert(r.token_extensions.deep_view() =~= Seq::<Seq<Seq<char>>>::empty());
    r
}

/// A node made of links, identity, fields, authority and flag.
fn node_of(
    next: [u8; 32],
    prev: [u8; 32],
    mint: [u8; 32],
    entry: CreateUpdateEntryInstructionData,
    authority: [u8; 32],
    deleted: bool,
) -> (r: RegistryNodeAccount)
    ensures
        r@ == (NodeView {
            next: next@,
            prev: prev@,
            mint: mint@,
            entry: entry@,
            authority: authority@,
            deleted,
        }),
{
    RegistryNodeAccount {
        next_registry_node: next,
        prev_registry_node: prev,
        token_mint: mint,
        token_symbol: entry.token_symbol,
        token_name: entry.token_name,
        token_logo_url: entry.token_logo_url,
        token_tags: entry.token_tags,
        token_extensions: entry.token_extensions,
        token_update_authority: authority,
        deleted,
    }
}

/// A sentinel node with the given links.
pub fn sentinel(next: [u8; 32], prev: [u8; 32]) -> (r: RegistryNodeAccount)
    ensures
        r@ == sentinel_view(next@, prev@),
{
    let r = node_of(next, prev, [0u8; 32], empty_fields(), [0u8; 32], false);
    assert(r@.mint =~= zero_key());
    assert(r@.authority =~= zero_key());
    r
}

/// The metadata record of a registry being set up by `authority`.
pub fn initial_meta(
    head: [u8; 32],
    fee_amount: u64,
    fee_mint: [u8; 32],
    fee_destination: [u8; 32],
    authority: [u8; 32],
) -> (r: RegistryMetaAccount)
    ensures
        r@ == initial_meta_view(head@, fee_amount, fee_mint@, fee_destination@, authority@),
{
    RegistryMetaAccount {
        head_registry_node: head,
        fee_amount,
        fee_mint,
        fee_destination,
        fee_update_authority: authority,
        initialized: true,
    }
}

/// Inserts the node of a newly registered mint right after the head
/// sentinel: the head now points to it, and the former first node points
/// back to it.
pub fn insert_after_head(
    head: RegistryNodeAccount,
    first: RegistryNodeAccount,
    head_key: [u8; 32],
    first_key: [u8; 32],
    new_key: [u8; 32],
    mint: [u8; 32],
    signer: [u8; 32],
    entry: CreateUpdateEntryInstructionData,
) -> (r: (RegistryNodeAccount, RegistryNodeAccount, RegistryNodeAccount))
    ensures
        r.0@ == (NodeView { next: new_key@, ..head@ }),
        r.1@ == (NodeView { prev: new_key@, ..first@ }),
        r.2@ == fresh_node(head_key@, first_key@, mint@, signer@, entry@),
{
    let mut head = head;
    let mut first = first;
    head.next_registry_node = new_key;
    first.prev_registry_node = new_key;
    let node = node_of(first_key, head_key, mint, entry, signer, false);
    (head, first, node)
}

/// Brings a tombstoned node back with new fields and authority; a live node
/// is refused with `PreviouslyRegisteredMint`.
pub fn revive(
    node: RegistryNodeAccount,
    signer: [u8; 32],
    entry: CreateUpdateEntryInstructionData,
) -> (r: Result<RegistryNodeAccount, RegistryError>)
    ensures
        match spec_revive(node@, signer@, entry@) {
            Ok(v) => r matches Ok(n) && n@ == v,
            Err(e) => r matches Err(x) && x == e,
        },
{
    if !node.deleted {
        return Err(RegistryError::PreviouslyRegisteredMint);
    }
    Ok(
        node_of(
            node.next_registry_node,
            node.prev_registry_node,
            node.token_mint,
            entry,
            signer,
            false,
        ),
    )
}

/// Tombstones a node on behalf of its update authority.
pub fn delete(node: RegistryNodeAccount, signer: [u8; 32]) -> (r: Result<
    RegistryNodeAccount,
    RegistryError,
>)
    ensures
        match spec_delete(node@, signer@) {
            Ok(v) => r matches Ok(n) && n@ == v,
            Err(e) => r matches Err(x) && x == e,
        },
{
    if !crate::codec::same_key(&signer, &node.token_update_authority) {
        return Err(RegistryError::InvalidTokenUpdateAuthority);
    }
    if node.deleted {
        return Err(RegistryError::PreviouslyDeletedMint);
    }
    let mut node = node;
    node.deleted = true;
    Ok(node)
}

/// Overwrites a node's descriptive fields on behalf of its update authority.
pub fn update(
    node: RegistryNodeAccount,
    signer: [u8; 32],
    entry: CreateUpdateEntryInstructionData,
) -> (r: Result<RegistryNodeAccount, RegistryError>)
    ensures
        match spec_update(node@, signer@, entry@) {
            Ok(v) => r matches Ok(n) && n@ == v,
            Err(e) => r matches Err(x) && x == e,
        },
{
    if !crate::codec::same_key(&signer, &node.token_update_authority) {
        return Err(RegistryError::InvalidTokenUpdateAuthority);
    }
    Ok(
        node_of(
            node.next_registry_node,
            node.prev_registry_node,
            node.token_mint,
            entry,
            node.token_update_authority,
            node.deleted,
        ),
    )
}

/// Hands a node's update authority over, on behalf of its current one.
pub fn transfer_token_authority(
    node: RegistryNodeAccount,
    signer: [u8; 32],
    new_authority: [u8; 32],
) -> (r: Result<RegistryNodeAccount, RegistryError>)
    ensures
        match spec_transfer_token_authority(node@, signer@, new_authority@) {
            Ok(v) => r matches Ok(n) && n@ == v,
            Err(e) => r matches Err(x) && x == e,
        },
{
    if !crate::codec::same_key(&signer, &node.token_update_authority) {
        return Err(RegistryError::InvalidTokenUpdateAuthority);
    }
    let mut node = node;
    node.token_update_authority = new_authority;
    Ok(node)
}

/// Changes the fee settings on behalf of the fee authority.
pub fn update_fees(
    meta: RegistryMetaAccount,
    signer: [u8; 32],
    fee_amount: u64,
    fee_mint: [u8; 32],
    fee_destination: [u8; 32],
) -> (r: Result<RegistryMetaAccount, RegistryError>)
    ensures
        match spec_update_fees(meta@, signer@, fee_amount, fee_mint@, fee_destination@) {
            Ok(v) => r matches Ok(m) && m@ == v,
            Err(e) => r matches Err(x) && x == e,
        },
{
    if !crate::codec::same_key(&signer, &meta.fee_update_authority) {
        return Err(RegistryError::InvalidFeeUpdateAuthority);
    }
    let mut meta = meta;
    meta.fee_amount = fee_amount;
    meta.fee_mint = fee_mint;
    meta.fee_destination = fee_destination;
    Ok(meta)
}

/// Hands the fee authority over, on behalf of the current one.
pub fn transfer_fee_authority(
    meta: RegistryMetaAccount,
    signer: [u8; 32],
    new_authority: [u8; 32],
) -> (r: Result<RegistryMetaAccount, RegistryError>)
    ensures
        match spec_transfer_fee_authority(meta@, signer@, new_authority@) {
            Ok(v) => r matches Ok(m) && m@ == v,
            Err(e) => r matches Err(x) && x == e,
        },
{
    if !crate::codec::same_key(&signer, &meta.fee_update_authority) {
        return Err(RegistryError::InvalidFeeUpdateAuthority);
    }
    let mut meta = meta;
    meta.fee_update_authority = new_authority;
    Ok(meta)
}

} // verus!
