//! The registry as a whole: every node slot by address, the chain of
//! addresses from the head sentinel to the tail sentinel, and what the
//! transitions do to it.
use crate::error::RegistryError;
use crate::registry::{fresh_node, spec_delete, spec_revive, spec_transfer_token_authority, spec_update};
use crate::state::{EntryView, NodeView};
use vstd::prelude::*;

verus! {

/// The node slots of a registry, by address.
pub type Nodes = Map<Seq<u8>, NodeView>;

/// `c` is the registry list held by `nodes`: it runs from the head sentinel
/// to the tail sentinel through `next` links, `prev` links mirror them, no
/// address repeats, and every node slot lies on it.
pub open spec fn is_chain(nodes: Nodes, c: Seq<Seq<u8>>) -> bool {
    &&& c.len() >= 2
    &&& c.no_duplicates()
    &&& forall|i: int| 0 <= i < c.len() ==> nodes.contains_key(#[trigger] c[i])
    &&& forall|i: int| 0 <= i < c.len() - 1 ==> nodes[#[trigger] c[i]].next == c[i + 1]
    &&& forall|i: int| 0 < i < c.len() ==> nodes[#[trigger] c[i]].prev == c[i - 1]
    &&& forall|k: Seq<u8>| nodes.contains_key(k) ==> c.contains(k)
}

/// `path` follows `next` links through node slots.
pub open spec fn is_path(nodes: Nodes, path: Seq<Seq<u8>>) -> bool {
    &&& path.len() >= 1
    &&& forall|i: int|
        0 <= i < path.len() - 1 ==> nodes.contains_key(#[trigger] path[i]) && nodes[path[i]].next
            == path[i + 1]
}

/// `to` is reached from `from` by following `next` links.
pub open spec fn reachable(nodes: Nodes, from: Seq<u8>, to: Seq<u8>) -> bool {
    exists|path: Seq<Seq<u8>>| is_path(nodes, path) && path[0] == from && path.last() == to
}

/// How many nodes of the list `c` are live (not tombstoned).
pub open spec fn live_count(nodes: Nodes, c: Seq<Seq<u8>>) -> nat
    decreases c.len(),
{
    if c.len() == 0 {
        0
    } else {
        live_count(nodes, c.drop_last()) + if nodes[c.last()].deleted {
            0nat
        } else {
            1nat
        }
    }
}

/// CreateEntry for the slot at `new_key`, given the head sentinel at
/// `head_key` and the node the caller names as the first at `first_key`:
/// a fresh slot is linked in after the head; a tombstoned one is revived in
/// place; a live one is refused.
pub open spec fn create_in(
    nodes: Nodes,
    head_key: Seq<u8>,
    first_key: Seq<u8>,
    new_key: Seq<u8>,
    mint: Seq<u8>,
    signer: Seq<u8>,
    entry: EntryView,
) -> Result<Nodes, RegistryError> {
    if !nodes.contains_key(new_key) {
        if !nodes.contains_key(head_key) || !nodes.contains_key(first_key)
            || nodes[head_key].next != first_key || nodes[first_key].prev != head_key {
            Err(RegistryError::InvalidRegistryNodeFirst)
        } else {
            Ok(
                nodes.insert(head_key, NodeView { next: new_key, ..nodes[head_key] }).insert(
                    first_key,
                    NodeView { prev: new_key, ..nodes[first_key] },
                ).insert(new_key, fresh_node(head_key, first_key, mint, signer, entry)),
            )
        }
    } else {
        match spec_revive(nodes[new_key], signer, entry) {
            Ok(n) => Ok(nodes.insert(new_key, n)),
            Err(e) => Err(e),
        }
    }
}

/// DeleteEntry for the slot at `key`.
pub open spec fn delete_in(nodes: Nodes, key: Seq<u8>, signer: Seq<u8>) -> Result<
    Nodes,
    RegistryError,
> {
    if !nodes.contains_key(key) {
        Err(RegistryError::NotYetRegisteredMint)
    } else {
        match spec_delete(nodes[key], signer) {
            Ok(n) => Ok(nodes.insert(key, n)),
            Err(e) => Err(e),
        }
    }
}

/// The nodes of a registry list are reachable from its head.
pub proof fn lemma_chain_reachable(nodes: Nodes, c: Seq<Seq<u8>>, j: int)
    requires
        is_chain(nodes, c),
        0 <= j < c.len(),
    ensures
        reachable(nodes, c[0], c[j]),
{
    let path = c.take(j + 1);
    assert forall|i: int| 0 <= i < path.len() - 1 implies nodes.contains_key(#[trigger] path[i])
        && nodes[path[i]].next == path[i + 1] by {
        assert(path[i] == c[i]);
        assert(path[i + 1] == c[i + 1]);
    }
    assert(is_path(nodes, path));
    assert(path.last() == c[j]);
}

/// After a successful CreateEntry for a mint, its node is live and
/// reachable from the head sentinel, and the slots still form a registry
/// list.
pub proof fn lemma_create_reaches(
    nodes: Nodes,
    c: Seq<Seq<u8>>,
    first_key: Seq<u8>,
    new_key: Seq<u8>,
    mint: Seq<u8>,
    signer: Seq<u8>,
    entry: EntryView,
)
    requires
        is_chain(nodes, c),
        create_in(nodes, c[0], first_key, new_key, mint, signer, entry) is Ok,
    ensures
        ({
            let after = create_in(nodes, c[0], first_key, new_key, mint, signer, entry)->Ok_0;
            &&& after.contains_key(new_key)
            &&& !after[new_key].deleted
            &&& reachable(after, c[0], new_key)
            &&& exists|c2: Seq<Seq<u8>>| is_chain(after, c2) && c2[0] == c[0]
        }),
{
    let head_key = c[0];
    let after = create_in(nodes, head_key, first_key, new_key, mint, signer, entry)->Ok_0;
    if !nodes.contains_key(new_key) {
        assert(first_key == c[1]);
        let c2 = seq![head_key, new_key] + c.subrange(1, c.len() as int);
        assert(!c.contains(new_key));
        assert forall|i: int| 0 <= i < c2.len() implies after.contains_key(#[trigger] c2[i]) by {
            if i >= 2 {
                assert(c2[i] == c[i - 1]);
            }
        }
        assert forall|i: int| 0 <= i < c2.len() - 1 implies after[#[trigger] c2[i]].next == c2[i
            + 1] by {
            if i >= 2 {
                assert(c2[i] == c[i - 1]);
                assert(c2[i + 1] == c[i]);
                assert(c[i - 1] != head_key);
                assert(c[i - 1] != new_key);
            } else if i == 1 {
                assert(c2[2] == c[1]);
            }
        }
        assert forall|i: int| 0 < i < c2.len() implies after[#[trigger] c2[i]].prev == c2[i - 1] by {
            if i >= 3 {
                assert(c2[i] == c[i - 1]);
                assert(c2[i - 1] == c[i - 2]);
                assert(c[i - 1] != c[1]);
                assert(c[i - 1] != new_key);
            } else if i == 2 {
                assert(c2[2] == c[1]);
            }
        }
        assert forall|k: Seq<u8>| after.contains_key(k) implies c2.contains(k) by {
            if k == new_key {
                assert(c2[1] == k);
            } else {
                assert(nodes.contains_key(k));
                assert(c.contains(k));
                let j = choose|j: int| 0 <= j < c.len() && c[j] == k;
                if j == 0 {
                    assert(c2[0] == k);
                } else {
                    assert(c2[j + 1] == k);
                }
            }
        }
        assert(c2.no_duplicates()) by {
            assert forall|i: int, j: int| 0 <= i < c2.len() && 0 <= j < c2.len() && i != j
                implies c2[i] != c2[j] by {
                if i >= 2 && j >= 2 {
                    assert(c2[i] == c[i - 1] && c2[j] == c[j - 1]);
                } else if i >= 2 {
                    assert(c2[i] == c[i - 1]);
                    assert(c.contains(c2[i]));
                } else if j >= 2 {
                    assert(c2[j] == c[j - 1]);
                    assert(c.contains(c2[j]));
                }
            }
        }
        assert(is_chain(after, c2));
        lemma_chain_reachable(after, c2, 1);
    } else {
        let n = spec_revive(nodes[new_key], signer, entry)->Ok_0;
        assert(after == nodes.insert(new_key, n));
        assert forall|i: int| 0 <= i < c.len() - 1 implies after[#[trigger] c[i]].next == c[i + 1] by {
            if c[i] == new_key {
            }
        }
        assert forall|i: int| 0 < i < c.len() implies after[#[trigger] c[i]].prev == c[i - 1] by {
            if c[i] == new_key {
            }
        }
        assert(is_chain(after, c));
        assert(c.contains(new_key));
        let j = choose|j: int| 0 <= j < c.len() && c[j] == new_key;
        lemma_chain_reachable(after, c, j);
    }
}

/// A second CreateEntry for a mint whose node is live is refused with
/// `PreviouslyRegisteredMint`, so no node changes.
pub proof fn lemma_create_twice(
    nodes: Nodes,
    head_key: Seq<u8>,
    first_key: Seq<u8>,
    new_key: Seq<u8>,
    mint: Seq<u8>,
    signer: Seq<u8>,
    entry: EntryView,
    first_key2: Seq<u8>,
    signer2: Seq<u8>,
    entry2: EntryView,
)
    requires
        create_in(nodes, head_key, first_key, new_key, mint, signer, entry) is Ok,
    ensures
        create_in(
            create_in(nodes, head_key, first_key, new_key, mint, signer, entry)->Ok_0,
            head_key,
            first_key2,
            new_key,
            mint,
            signer2,
            entry2,
        ) == Err::<Nodes, RegistryError>(RegistryError::PreviouslyRegisteredMint),
{
}

/// Agreeing on which nodes of `c` are tombstoned, two registries count the
/// same live nodes on it.
proof fn lemma_live_count_same(a: Nodes, b: Nodes, c: Seq<Seq<u8>>)
    requires
        forall|i: int| 0 <= i < c.len() ==> a[#[trigger] c[i]].deleted == b[c[i]].deleted,
    ensures
        live_count(a, c) == live_count(b, c),
    decreases c.len(),
{
    if c.len() > 0 {
        let d = c.drop_last();
        assert forall|i: int| 0 <= i < d.len() implies a[#[trigger] d[i]].deleted
            == b[d[i]].deleted by {
            assert(d[i] == c[i]);
        }
        lemma_live_count_same(a, b, d);
        assert(a[c.last()].deleted == b[c[c.len() - 1]].deleted);
    }
}

/// DeleteEntry then CreateEntry for the same live mint succeeds, reuses the
/// same slot in the same place, leaves every other node as it was, and
/// leaves the number of live nodes unchanged.
pub proof fn lemma_delete_then_revive(
    nodes: Nodes,
    c: Seq<Seq<u8>>,
    key: Seq<u8>,
    first_key: Seq<u8>,
    mint: Seq<u8>,
    signer: Seq<u8>,
    entry: EntryView,
)
    requires
        is_chain(nodes, c),
        nodes.contains_key(key),
        !nodes[key].deleted,
        nodes[key].authority == signer,
    ensures
        delete_in(nodes, key, signer) is Ok,
        ({
            let deleted = delete_in(nodes, key, signer)->Ok_0;
            let revived = create_in(deleted, c[0], first_key, key, mint, signer, entry);
            &&& revived is Ok
            &&& is_chain(revived->Ok_0, c)
            &&& revived->Ok_0[key].next == nodes[key].next
            &&& revived->Ok_0[key].prev == nodes[key].prev
            &&& !revived->Ok_0[key].deleted
            &&& forall|k: Seq<u8>| k != key ==> #[trigger] revived->Ok_0.index(k) == nodes.index(k)
            &&& live_count(revived->Ok_0, c) == live_count(nodes, c)
        }),
{
    let deleted = delete_in(nodes, key, signer)->Ok_0;
    let after = create_in(deleted, c[0], first_key, key, mint, signer, entry)->Ok_0;
    assert(after.dom() =~= nodes.dom());
    assert forall|i: int| 0 <= i < c.len() - 1 implies after[#[trigger] c[i]].next == c[i + 1] by {
        if c[i] == key {
        }
    }
    assert forall|i: int| 0 < i < c.len() implies after[#[trigger] c[i]].prev == c[i - 1] by {
        if c[i] == key {
        }
    }
    assert forall|i: int| 0 <= i < c.len() implies after[#[trigger] c[i]].deleted
        == nodes[c[i]].deleted by {
        if c[i] == key {
        }
    }
    lemma_live_count_same(after, nodes, c);
}

/// UpdateEntry, DeleteEntry and TransferTokenAuthority from a signer other
/// than the node's update authority are refused with
/// `InvalidTokenUpdateAuthority`, and no field of the node changes.
pub proof fn lemma_authority_gate(
    n: NodeView,
    signer: Seq<u8>,
    entry: EntryView,
    new_authority: Seq<u8>,
)
    requires
        signer != n.authority,
    ensures
        spec_update(n, signer, entry) == Err::<NodeView, RegistryError>(
            RegistryError::InvalidTokenUpdateAuthority,
        ),
        spec_delete(n, signer) == Err::<NodeView, RegistryError>(
            RegistryError::InvalidTokenUpdateAuthority,
        ),
        spec_transfer_token_authority(n, signer, new_authority) == Err::<NodeView, RegistryError>(
            RegistryError::InvalidTokenUpdateAuthority,
        ),
{
}

} // verus!
