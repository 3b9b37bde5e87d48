//! What each instruction comes to: the checks it makes, in order, and the
//! effects it answers with, as values; and the laws that relate those
//! outcomes to the registry list as a whole.
use crate::addressing::{
    ata_program_key, derived_slot, pda_check, rent_sysvar_key, system_program_key,
    token_program_key,
};
use crate::error::{CodecError, RegistryError};
use crate::gate::{
    ata_gate, check, count_gate, fail, first_gate, initialized_ata_gate, initialized_gate, meta_of,
    mint_gate, node_gate, node_of, pass, pda_gate, program_gate, system_account_gate, user_gate,
    AccountInput,
};
use crate::instruction::{parse_instruction, InstructionView};
use crate::list::{create_in, delete_in, is_chain, lemma_create_reaches, reachable, Nodes};
use crate::processor::{Effect, EffectView};
use crate::registry::{
    fresh_node, initial_meta_view, pays_fee, sentinel_view, spec_delete, spec_revive,
    spec_transfer_fee_authority, spec_transfer_token_authority, spec_update, spec_update_fees,
    zero_key,
};
use crate::slot::{node_image, node_image_fits, node_slot, node_slot_len};
use crate::state::{enc_meta, enc_node, EntryView, NodeView, META_LEN};
use vstd::prelude::*;

verus! {

/// What a processing result says, as values.
pub open spec fn outcome_of(r: Result<Vec<Effect>, RegistryError>) -> Result<
    Seq<EffectView>,
    RegistryError,
> {
    match r {
        Ok(v) => Ok(v@.map_values(|e: Effect| e@)),
        Err(e) => Err(e),
    }
}

/// The namespace tag of the metadata slot, "meta".
pub open spec fn meta_tag() -> Seq<u8> {
    seq![109u8, 101, 116, 97]
}

/// The namespace tag of the head sentinel, "head".
pub open spec fn head_tag() -> Seq<u8> {
    seq![104u8, 101, 97, 100]
}

/// The namespace tag of the tail sentinel, "tail".
pub open spec fn tail_tag() -> Seq<u8> {
    seq![116u8, 97, 105, 108]
}

/// The bump seed of an account that passed `pda_gate`.
pub open spec fn bump_of(program_id: Seq<u8>, a: AccountInput, tag: Seq<u8>) -> u8 {
    pda_check(program_id, a.key@, tag)->Ok_0
}

/// The node fits the slot it is written to.
pub open spec fn fit_gate(n: NodeView, capacity: int) -> Result<(), RegistryError> {
    if node_image_fits(n, capacity) {
        pass()
    } else {
        fail(RegistryError::Codec(CodecError::TooLarge))
    }
}

/// The three slots of the registry's skeleton are all still empty.
pub open spec fn fresh_skeleton_gate(
    meta: AccountInput,
    head: AccountInput,
    tail: AccountInput,
) -> Result<(), RegistryError> {
    if meta.data@.len() != 0 || head.data@.len() != 0 || tail.data@.len() != 0 {
        fail(RegistryError::AlreadyInitialized)
    } else {
        pass()
    }
}

/// Provisioning of the token account at `account`, where it is still empty.
pub open spec fn provision(
    a: Seq<AccountInput>,
    payer: usize,
    account: usize,
    wallet: usize,
    mint: usize,
) -> Seq<EffectView> {
    if a[account as int].data@.len() == 0 {
        seq![EffectView::CreateTokenAccount { payer, account, wallet, mint }]
    } else {
        Seq::empty()
    }
}

/// The checks of InitializeRegistry, in the order they are made. Accounts:
/// user, fee mint, fee destination, its token account, the system, token and
/// associated-token-account programs, the rent sysvar, then the metadata,
/// head and tail slots.
pub open spec fn initialize_checks(program_id: Seq<u8>, a: Seq<AccountInput>) -> Result<
    (),
    RegistryError,
> {
    check(
        count_gate(a.len() as int, 11),
        check(
            user_gate(a[0]),
            check(
                mint_gate(a[1]),
                check(
                    system_account_gate(a[2]),
                    check(
                        ata_gate(a[2].key@, a[1].key@, a[3]),
                        check(
                            program_gate(a[4], system_program_key(), RegistryError::InvalidSystemProgram),
                            check(
                                program_gate(a[5], token_program_key(), RegistryError::InvalidTokenProgram),
                                check(
                                    program_gate(a[6], ata_program_key(), RegistryError::InvalidATAProgram),
                                    check(
                                        program_gate(
                                            a[7],
                                            rent_sysvar_key(),
                                            RegistryError::InvalidSysvarRentProgram,
                                        ),
                                        check(
                                            pda_gate(program_id, a[8], meta_tag()),
                                            check(
                                                pda_gate(program_id, a[9], head_tag()),
                                                check(
                                                    pda_gate(program_id, a[10], tail_tag()),
                                                    fresh_skeleton_gate(a[8], a[9], a[10]),
                                                ),
                                            ),
                                        ),
                                    ),
                                ),
                            ),
                        ),
                    ),
                ),
            ),
        ),
    )
}

/// InitializeRegistry: the metadata record names the head sentinel, the fee
/// and the caller as fee authority; the head points to the tail and the tail
/// back to the head.
pub open spec fn initialize_outcome(program_id: Seq<u8>, a: Seq<AccountInput>, fee_amount: u64) -> Result<
    Seq<EffectView>,
    RegistryError,
> {
    match initialize_checks(program_id, a) {
        Err(e) => Err(e),
        Ok(_) => Ok(
            provision(a, 0, 3, 2, 1) + seq![
                EffectView::CreateSlot {
                    payer: 0,
                    account: 8,
                    space: META_LEN as u64,
                    seed: meta_tag(),
                    bump: bump_of(program_id, a[8], meta_tag()),
                },
                EffectView::Write {
                    account: 8,
                    data: enc_meta(
                        initial_meta_view(a[9].key@, fee_amount, a[1].key@, a[2].key@, a[0].key@),
                    ),
                },
                EffectView::CreateSlot {
                    payer: 0,
                    account: 9,
                    space: node_slot_len() as u64,
                    seed: head_tag(),
                    bump: bump_of(program_id, a[9], head_tag()),
                },
                EffectView::CreateSlot {
                    payer: 0,
                    account: 10,
                    space: node_slot_len() as u64,
                    seed: tail_tag(),
                    bump: bump_of(program_id, a[10], tail_tag()),
                },
                EffectView::Write {
                    account: 9,
                    data: node_image(sentinel_view(a[10].key@, zero_key())),
                },
                EffectView::Write {
                    account: 10,
                    data: node_image(sentinel_view(zero_key(), a[9].key@)),
                },
            ],
        ),
    }
}


/// The checks of UpdateFees, in order. Accounts: user, new fee mint, new fee
/// destination, its token account, the system, token and
/// associated-token-account programs, the rent sysvar, the metadata slot.
pub open spec fn update_fees_checks(program_id: Seq<u8>, a: Seq<AccountInput>) -> Result<
    (),
    RegistryError,
> {
    check(
        count_gate(a.len() as int, 9),
        check(
            user_gate(a[0]),
            check(
                mint_gate(a[1]),
                check(
                    system_account_gate(a[2]),
                    check(
                        ata_gate(a[2].key@, a[1].key@, a[3]),
                        check(
                            program_gate(a[4], system_program_key(), RegistryError::InvalidSystemProgram),
                            check(
                                program_gate(a[5], token_program_key(), RegistryError::InvalidTokenProgram),
                                check(
                                    program_gate(a[6], ata_program_key(), RegistryError::InvalidATAProgram),
                                    check(
                                        program_gate(
                                            a[7],
                                            rent_sysvar_key(),
                                            RegistryError::InvalidSysvarRentProgram,
                                        ),
                                        check(
                                            pda_gate(program_id, a[8], meta_tag()),
                                            initialized_gate(a[8]),
                                        ),
                                    ),
                                ),
                            ),
                        ),
                    ),
                ),
            ),
        ),
    )
}

/// UpdateFees: the fee authority sets the fee amount, mint and destination.
pub open spec fn update_fees_outcome(program_id: Seq<u8>, a: Seq<AccountInput>, fee_amount: u64) -> Result<
    Seq<EffectView>,
    RegistryError,
> {
    match update_fees_checks(program_id, a) {
        Err(e) => Err(e),
        Ok(_) => match spec_update_fees(meta_of(a[8]), a[0].key@, fee_amount, a[1].key@, a[2].key@) {
            Err(e) => Err(e),
            Ok(m) => Ok(
                provision(a, 0, 3, 2, 1) + seq![EffectView::Write { account: 8, data: enc_meta(m) }],
            ),
        },
    }
}

/// The checks of CreateEntry before the new slot is looked at, in order.
/// Accounts: user, mint, the user's fee token account, the fee
/// destination's token account, the system and token programs, the metadata
/// slot, the head sentinel, the node named as the first, the mint's slot.
#[verifier::opaque]
pub open spec fn create_checks(program_id: Seq<u8>, a: Seq<AccountInput>) -> Result<
    (),
    RegistryError,
> {
    check(
        count_gate(a.len() as int, 10),
        check(
            user_gate(a[0]),
            check(
                mint_gate(a[1]),
                check(
                    program_gate(a[4], system_program_key(), RegistryError::InvalidSystemProgram),
                    check(
                        program_gate(a[5], token_program_key(), RegistryError::InvalidTokenProgram),
                        check(
                            pda_gate(program_id, a[6], meta_tag()),
                            check(
                                initialized_gate(a[6]),
                                check(
                                    pda_gate(program_id, a[7], head_tag()),
                                    check(
                                        first_gate(a[7], a[8]),
                                        check(
                                            pda_gate(program_id, a[9], a[1].key@),
                                            check(
                                                ata_gate(a[0].key@, meta_of(a[6]).fee_mint, a[2]),
                                                check(
                                                    ata_gate(
                                                        meta_of(a[6]).fee_destination,
                                                        meta_of(a[6]).fee_mint,
                                                        a[3],
                                                    ),
                                                    check(
                                                        initialized_ata_gate(a[3]),
                                                        if pays_fee(meta_of(a[6]), a[0].key@) {
                                                            initialized_ata_gate(a[2])
                                                        } else {
                                                            pass()
                                                        },
                                                    ),
                                                ),
                                            ),
                                        ),
                                    ),
                                ),
                            ),
                        ),
                    ),
                ),
            ),
        ),
    )
}

/// The fee payment of a creation: the fee amount from the user's token
/// account to the destination's, unless the user is the fee authority.
pub open spec fn fee_payment(a: Seq<AccountInput>) -> Seq<EffectView> {
    if pays_fee(meta_of(a[6]), a[0].key@) {
        seq![
            EffectView::Transfer {
                source: 2,
                destination: 3,
                authority: 0,
                amount: meta_of(a[6]).fee_amount,
            },
        ]
    } else {
        Seq::empty()
    }
}

/// The head sentinel after a fresh insertion.
pub open spec fn linked_head(a: Seq<AccountInput>) -> NodeView {
    NodeView { next: a[9].key@, ..node_of(a[7]) }
}

/// The former first node after a fresh insertion.
pub open spec fn linked_first(a: Seq<AccountInput>) -> NodeView {
    NodeView { prev: a[9].key@, ..node_of(a[8]) }
}

/// The node of a freshly registered mint.
pub open spec fn new_node(a: Seq<AccountInput>, entry: EntryView) -> NodeView {
    fresh_node(a[7].key@, a[8].key@, a[1].key@, a[0].key@, entry)
}

/// CreateEntry: a fresh slot is linked in right after the head sentinel; a
/// tombstoned one is revived in place; a live one is refused. The fee is paid
/// first, unless the user is the fee authority.
pub open spec fn create_outcome(program_id: Seq<u8>, a: Seq<AccountInput>, entry: EntryView) -> Result<
    Seq<EffectView>,
    RegistryError,
> {
    match create_checks(program_id, a) {
        Err(e) => Err(e),
        Ok(_) => create_slot_outcome(program_id, a, entry),
    }
}

/// CreateEntry once its checks passed: what happens to the mint's slot.
pub open spec fn create_slot_outcome(program_id: Seq<u8>, a: Seq<AccountInput>, entry: EntryView) -> Result<
    Seq<EffectView>,
    RegistryError,
> {
    match (if a[9].data@.len() == 0 {
        fresh_writes(program_id, a, entry)
    } else {
        revive_writes(a, entry)
    }) {
        Err(e) => Err(e),
        Ok(w) => Ok(fee_payment(a) + w),
    }
}

/// A fresh slot: the head and the former first node are relinked, the slot
/// is allocated and the new node written into it.
pub open spec fn fresh_writes(program_id: Seq<u8>, a: Seq<AccountInput>, entry: EntryView) -> Result<
    Seq<EffectView>,
    RegistryError,
> {
    match check(
        fit_gate(linked_head(a), a[7].data@.len() as int),
        check(
            fit_gate(linked_first(a), a[8].data@.len() as int),
            fit_gate(new_node(a, entry), node_slot_len()),
        ),
    ) {
        Err(e) => Err(e),
        Ok(_) => Ok(
            seq![
                EffectView::Write { account: 7, data: node_image(linked_head(a)) },
                EffectView::Write { account: 8, data: node_image(linked_first(a)) },
                EffectView::CreateSlot {
                    payer: 0,
                    account: 9,
                    space: node_slot_len() as u64,
                    seed: a[1].key@,
                    bump: bump_of(program_id, a[9], a[1].key@),
                },
                EffectView::Write { account: 9, data: node_image(new_node(a, entry)) },
            ],
        ),
    }
}

/// An occupied slot: a tombstoned node is revived in place.
pub open spec fn revive_writes(a: Seq<AccountInput>, entry: EntryView) -> Result<
    Seq<EffectView>,
    RegistryError,
> {
    match node_slot(a[9].data@) {
        Err(e) => Err(e),
        Ok(old) => node_write(a, 9, spec_revive(old, a[0].key@, entry)),
    }
}

/// The checks shared by DeleteEntry and UpdateEntry, in order. Accounts:
/// user, mint, the metadata slot, the mint's slot.
pub open spec fn node_checks(program_id: Seq<u8>, a: Seq<AccountInput>, n: int) -> Result<
    (),
    RegistryError,
> {
    check(
        count_gate(a.len() as int, n),
        check(
            user_gate(a[0]),
            check(
                mint_gate(a[1]),
                check(
                    pda_gate(program_id, a[2], meta_tag()),
                    check(initialized_gate(a[2]), pda_gate(program_id, a[3], a[1].key@)),
                ),
            ),
        ),
    )
}

/// The write of a changed node back into slot `account`.
pub open spec fn node_write(a: Seq<AccountInput>, account: usize, r: Result<NodeView, RegistryError>) -> Result<
    Seq<EffectView>,
    RegistryError,
> {
    match r {
        Err(e) => Err(e),
        Ok(n) => match fit_gate(n, a[account as int].data@.len() as int) {
            Err(e) => Err(e),
            Ok(_) => Ok(seq![EffectView::Write { account, data: node_image(n) }]),
        },
    }
}

/// DeleteEntry: the node's update authority tombstones it.
pub open spec fn delete_outcome(program_id: Seq<u8>, a: Seq<AccountInput>) -> Result<
    Seq<EffectView>,
    RegistryError,
> {
    match check(node_checks(program_id, a, 4), node_gate(a[3])) {
        Err(e) => Err(e),
        Ok(_) => node_write(a, 3, spec_delete(node_of(a[3]), a[0].key@)),
    }
}

/// UpdateEntry: the node's update authority overwrites its fields.
pub open spec fn update_outcome(program_id: Seq<u8>, a: Seq<AccountInput>, entry: EntryView) -> Result<
    Seq<EffectView>,
    RegistryError,
> {
    match check(node_checks(program_id, a, 4), node_gate(a[3])) {
        Err(e) => Err(e),
        Ok(_) => node_write(a, 3, spec_update(node_of(a[3]), a[0].key@, entry)),
    }
}

/// TransferTokenAuthority: the node's update authority hands it to the
/// fifth account, which must be externally owned.
pub open spec fn transfer_token_outcome(program_id: Seq<u8>, a: Seq<AccountInput>) -> Result<
    Seq<EffectView>,
    RegistryError,
> {
    match check(
        node_checks(program_id, a, 5),
        check(system_account_gate(a[4]), node_gate(a[3])),
    ) {
        Err(e) => Err(e),
        Ok(_) => node_write(
            a,
            3,
            spec_transfer_token_authority(node_of(a[3]), a[0].key@, a[4].key@),
        ),
    }
}

/// TransferFeeAuthority: the fee authority hands it to the second account,
/// which must be externally owned. Accounts: user, new authority, the
/// metadata slot.
pub open spec fn transfer_fee_outcome(program_id: Seq<u8>, a: Seq<AccountInput>) -> Result<
    Seq<EffectView>,
    RegistryError,
> {
    match check(
        count_gate(a.len() as int, 3),
        check(
            user_gate(a[0]),
            check(
                system_account_gate(a[1]),
                check(pda_gate(program_id, a[2], meta_tag()), initialized_gate(a[2])),
            ),
        ),
    ) {
        Err(e) => Err(e),
        Ok(_) => match spec_transfer_fee_authority(meta_of(a[2]), a[0].key@, a[1].key@) {
            Err(e) => Err(e),
            Ok(m) => Ok(seq![EffectView::Write { account: 2, data: enc_meta(m) }]),
        },
    }
}

/// What processing `input` over the accounts `a` comes to.
pub open spec fn process_outcome(program_id: Seq<u8>, a: Seq<AccountInput>, input: Seq<u8>) -> Result<
    Seq<EffectView>,
    RegistryError,
> {
    match parse_instruction(input) {
        None => Err(RegistryError::InvalidInstructionData),
        Some(InstructionView::InitializeRegistry { fee_amount }) => initialize_outcome(
            program_id,
            a,
            fee_amount,
        ),
        Some(InstructionView::UpdateFees { fee_amount }) => update_fees_outcome(
            program_id,
            a,
            fee_amount,
        ),
        Some(InstructionView::CreateEntry { entry }) => create_outcome(program_id, a, entry),
        Some(InstructionView::DeleteEntry) => delete_outcome(program_id, a),
        Some(InstructionView::UpdateEntry { entry }) => update_outcome(program_id, a, entry),
        Some(InstructionView::TransferFeeAuthority) => transfer_fee_outcome(program_id, a),
        Some(InstructionView::TransferTokenAuthority) => transfer_token_outcome(program_id, a),
    }
}


/// Fee exemption: a CreateEntry by the fee authority moves no funds; one by
/// anyone else that succeeds starts with the transfer of exactly the fee
/// amount from the user's token account to the fee destination's, and the
/// whole list of effects is carried out or none of it.
pub proof fn lemma_fee_exemption(program_id: Seq<u8>, a: Seq<AccountInput>, entry: EntryView)
    requires
        create_outcome(program_id, a, entry) is Ok,
    ensures
        ({
            let effects = create_outcome(program_id, a, entry)->Ok_0;
            let m = meta_of(a[6]);
            &&& a[0].key@ == m.fee_authority ==> forall|i: int|
                0 <= i < effects.len() ==> !(#[trigger] effects[i] is Transfer)
            &&& a[0].key@ != m.fee_authority ==> effects[0] == (EffectView::Transfer {
                source: 2,
                destination: 3,
                authority: 0,
                amount: m.fee_amount,
            }) && forall|i: int| 1 <= i < effects.len() ==> !(#[trigger] effects[i] is Transfer)
        }),
{
    let effects = create_outcome(program_id, a, entry)->Ok_0;
    let w = if a[9].data@.len() == 0 {
        fresh_writes(program_id, a, entry)->Ok_0
    } else {
        revive_writes(a, entry)->Ok_0
    };
    assert(effects == fee_payment(a) + w);
    assert forall|i: int| 0 <= i < w.len() implies !(#[trigger] w[i] is Transfer) by {}
    if a[0].key@ == meta_of(a[6]).fee_authority {
        assert(effects =~= w);
    } else {
        assert forall|i: int| 1 <= i < effects.len() implies !(#[trigger] effects[i] is Transfer) by {
            assert(effects[i] == w[i - 1]);
        }
    }
}


/// The slot `a` agrees with the registry `nodes`: an empty slot holds no
/// node, and any other holds the node registered at its address.
pub open spec fn holds(nodes: Nodes, a: AccountInput) -> bool {
    if a.data@.len() == 0 {
        !nodes.contains_key(a.key@)
    } else {
        nodes.contains_key(a.key@) && node_slot(a.data@) == Ok::<NodeView, RegistryError>(
            nodes[a.key@],
        )
    }
}

/// The registry after the node writes among `effects`, each read back from
/// the bytes written.
pub open spec fn written(nodes: Nodes, a: Seq<AccountInput>, effects: Seq<EffectView>) -> Nodes
    decreases effects.len(),
{
    if effects.len() == 0 {
        nodes
    } else {
        let before = written(nodes, a, effects.drop_last());
        match effects.last() {
            EffectView::Write { account, data } => match node_slot(data) {
                Ok(n) => before.insert(a[account as int].key@, n),
                Err(_) => before,
            },
            _ => before,
        }
    }
}

proof fn lemma_written_step(nodes: Nodes, a: Seq<AccountInput>, effects: Seq<EffectView>, e: EffectView)
    ensures
        written(nodes, a, effects.push(e)) == (match e {
            EffectView::Write { account, data } => match node_slot(data) {
                Ok(n) => written(nodes, a, effects).insert(a[account as int].key@, n),
                Err(_) => written(nodes, a, effects),
            },
            _ => written(nodes, a, effects),
        }),
{
    assert(effects.push(e).drop_last() =~= effects);
}

proof fn lemma_written_fee(nodes: Nodes, a: Seq<AccountInput>)
    ensures
        written(nodes, a, fee_payment(a)) == nodes,
{
    if fee_payment(a).len() > 0 {
        assert(fee_payment(a).drop_last() =~= Seq::<EffectView>::empty());
        assert(fee_payment(a).last() is Transfer);
        assert(written(nodes, a, Seq::<EffectView>::empty()) == nodes);
    } else {
        assert(fee_payment(a) =~= Seq::<EffectView>::empty());
    }
}

proof fn lemma_image_reads_back(n: NodeView, cap: int)
    requires
        node_image_fits(n, cap),
    ensures
        node_slot(node_image(n)) == Ok::<NodeView, RegistryError>(n),
{
    reveal(node_image_fits);
    reveal(node_image);
    assert(node_image(n).subrange(0, node_image(n).len() as int) =~= node_image(n));
    crate::slot::lemma_node_slot_round_trip(n, node_image(n));
}

/// After a successful CreateEntry over slots that agree with a registry
/// list, reading back what was written gives the registry that the list
/// model's CreateEntry gives: the mint's node, at the address derived from
/// the mint, is live and reachable from the head sentinel, and the slots
/// still form a registry list.
pub proof fn lemma_create_entry_reaches(
    program_id: Seq<u8>,
    a: Seq<AccountInput>,
    entry: EntryView,
    nodes: Nodes,
    c: Seq<Seq<u8>>,
)
    requires
        create_outcome(program_id, a, entry) is Ok,
        is_chain(nodes, c),
        c[0] == a[7].key@,
        holds(nodes, a[7]),
        holds(nodes, a[8]),
        holds(nodes, a[9]),
    ensures
        ({
            let after = written(nodes, a, create_outcome(program_id, a, entry)->Ok_0);
            let m = a[9].key@;
            &&& derived_slot(program_id, a[1].key@) matches Some((k, _)) && k == m
            &&& create_in(nodes, a[7].key@, a[8].key@, m, a[1].key@, a[0].key@, entry) == Ok::<
                Nodes,
                RegistryError,
            >(after)
            &&& after.contains_key(m)
            &&& !after[m].deleted
            &&& reachable(after, c[0], m)
            &&& exists|c2: Seq<Seq<u8>>| is_chain(after, c2) && c2[0] == c[0]
        }),
{
    reveal(create_checks);
    let effects = create_outcome(program_id, a, entry)->Ok_0;
    let fee = fee_payment(a);
    lemma_written_fee(nodes, a);
    let head_key = a[7].key@;
    let first_key = a[8].key@;
    let m = a[9].key@;
    let model = create_in(nodes, head_key, first_key, m, a[1].key@, a[0].key@, entry);
    if a[9].data@.len() == 0 {
        let w = fresh_writes(program_id, a, entry)->Ok_0;
        assert(effects == fee + w);
        let e0 = w[0];
        let e1 = w[1];
        let e2 = w[2];
        let e3 = w[3];
        assert(fee + w =~= fee.push(e0).push(e1).push(e2).push(e3));
        lemma_image_reads_back(linked_head(a), a[7].data@.len() as int);
        lemma_image_reads_back(linked_first(a), a[8].data@.len() as int);
        lemma_image_reads_back(new_node(a, entry), node_slot_len());
        lemma_written_step(nodes, a, fee, e0);
        lemma_written_step(nodes, a, fee.push(e0), e1);
        lemma_written_step(nodes, a, fee.push(e0).push(e1), e2);
        lemma_written_step(nodes, a, fee.push(e0).push(e1).push(e2), e3);
        assert(model == Ok::<Nodes, RegistryError>(written(nodes, a, effects)));
    } else {
        let w = revive_writes(a, entry)->Ok_0;
        assert(effects == fee + w);
        let n = spec_revive(node_of(a[9]), a[0].key@, entry)->Ok_0;
        assert(fee + w =~= fee.push(w[0]));
        lemma_image_reads_back(n, a[9].data@.len() as int);
        lemma_written_step(nodes, a, fee, w[0]);
        assert(model == Ok::<Nodes, RegistryError>(written(nodes, a, effects)));
    }
    lemma_create_reaches(nodes, c, first_key, m, a[1].key@, a[0].key@, entry);
}


/// CreateEntry for a mint whose slot holds a live node is refused with
/// `PreviouslyRegisteredMint` once the other checks pass, so nothing is
/// written.
pub proof fn lemma_create_live_refused(program_id: Seq<u8>, a: Seq<AccountInput>, entry: EntryView)
    requires
        create_checks(program_id, a) is Ok,
        a[9].data@.len() != 0,
        node_slot(a[9].data@) matches Ok(n) && !n.deleted,
    ensures
        create_outcome(program_id, a, entry) == Err::<Seq<EffectView>, RegistryError>(
            RegistryError::PreviouslyRegisteredMint,
        ),
{
}

/// After a successful DeleteEntry over a slot that agrees with a registry,
/// reading back what was written gives the registry that the list model's
/// DeleteEntry gives: the node is tombstoned and nothing else changes.
pub proof fn lemma_delete_entry_matches(program_id: Seq<u8>, a: Seq<AccountInput>, nodes: Nodes)
    requires
        delete_outcome(program_id, a) is Ok,
        holds(nodes, a[3]),
    ensures
        delete_in(nodes, a[3].key@, a[0].key@) == Ok::<Nodes, RegistryError>(
            written(nodes, a, delete_outcome(program_id, a)->Ok_0),
        ),
{
    let effects = delete_outcome(program_id, a)->Ok_0;
    reveal(node_slot);
    assert(a[3].data@.len() != 0);
    let n = spec_delete(node_of(a[3]), a[0].key@)->Ok_0;
    lemma_image_reads_back(n, a[3].data@.len() as int);
    assert(effects =~= Seq::<EffectView>::empty().push(effects[0]));
    lemma_written_step(nodes, a, Seq::<EffectView>::empty(), effects[0]);
    assert(written(nodes, a, Seq::<EffectView>::empty()) == nodes);
}


/// Authority gate at the instruction level: once the account checks pass,
/// UpdateEntry, DeleteEntry and TransferTokenAuthority from a user other
/// than the node's update authority are refused with
/// `InvalidTokenUpdateAuthority`, so nothing is written.
pub proof fn lemma_authority_gate_instructions(
    program_id: Seq<u8>,
    a: Seq<AccountInput>,
    entry: EntryView,
)
    requires
        node_gate(a[3]) is Ok,
        a[0].key@ != node_of(a[3]).authority,
    ensures
        node_checks(program_id, a, 4) is Ok ==> delete_outcome(program_id, a) == Err::<
            Seq<EffectView>,
            RegistryError,
        >(RegistryError::InvalidTokenUpdateAuthority),
        node_checks(program_id, a, 4) is Ok ==> update_outcome(program_id, a, entry) == Err::<
            Seq<EffectView>,
            RegistryError,
        >(RegistryError::InvalidTokenUpdateAuthority),
        node_checks(program_id, a, 5) is Ok && system_account_gate(a[4]) is Ok
            ==> transfer_token_outcome(program_id, a) == Err::<Seq<EffectView>, RegistryError>(
            RegistryError::InvalidTokenUpdateAuthority,
        ),
{
}

/// A sentinel fits any node slot.
pub proof fn lemma_sentinel_fits(next: Seq<u8>, prev: Seq<u8>)
    requires
        next.len() == 32,
        prev.len() == 32,
    ensures
        node_image_fits(sentinel_view(next, prev), node_slot_len()),
        enc_node(sentinel_view(next, prev)).len() == 149,
{
    reveal(node_image_fits);
    crate::state::lemma_max_filled_fits();
    assert(crate::codec::enc_str_items(Seq::<Seq<char>>::empty()).len() == 0);
    assert(crate::codec::enc_list_items(Seq::<Seq<Seq<char>>>::empty()).len() == 0);
    assert(vstd::utf8::encode_utf8(Seq::<char>::empty()).len() == 0);
}

} // verus!
