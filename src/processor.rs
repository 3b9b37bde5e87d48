//! Instruction processing. Each instruction is checked against its account
//! list, its transition is applied to the records held there, and the result
//! is the list of effects for the host to apply in order. An error means no
//! effect at all.
use crate::error::RegistryError;
use crate::gate::{
    assert_initialized, assert_initialized_ata, assert_number_of_accounts, assert_valid_account_user,
    assert_valid_ata, assert_valid_ata_program, assert_valid_mint, assert_valid_pda,
    assert_valid_registry_first, assert_valid_system_account, assert_valid_system_program,
    assert_valid_sysvar_rent, assert_valid_token_program, meta_of, node_of, read_node, AccountInput,
};
use crate::instruction::RegistryInstruction;
use crate::outcome::{
    bump_of, create_checks, create_outcome, create_slot_outcome, delete_outcome, fee_payment,
    fit_gate, fresh_writes, initialize_outcome, lemma_sentinel_fits, node_checks, outcome_of,
    process_outcome, revive_writes, transfer_fee_outcome, transfer_token_outcome,
    update_fees_outcome, update_outcome,
};
use crate::registry::{
    delete, initial_meta, insert_after_head, revive, sentinel, sentinel_view, transfer_fee_authority,
    transfer_token_authority, update, update_fees, zero_key,
};
use crate::slot::{node_image, node_image_fits, node_slot_capacity, read_node_slot};
use crate::state::{
    CreateUpdateEntryInstructionData, RegistryMetaAccount, RegistryNodeAccount, META_LEN,
};
use vstd::prelude::*;

verus! {

/// Work the host carries out for an instruction that succeeded. Accounts
/// are named by their position in the instruction's account list.
#[derive(Debug)]
pub enum Effect {
    /// Create the associated token account `account` of `wallet` for `mint`,
    /// funded by `payer`.
    CreateTokenAccount { payer: usize, account: usize, wallet: usize, mint: usize },
    /// Allocate `space` bytes for the program-owned slot `account`, funded by
    /// `payer` at the minimum balance for that size, signed with `seed` and `bump`.
    CreateSlot { payer: usize, account: usize, space: u64, seed: Vec<u8>, bump: u8 },
    /// Move `amount` units from token account `source` to `destination`,
    /// authorised by `authority`.
    Transfer { source: usize, destination: usize, authority: usize, amount: u64 },
    /// Write `data` over the first bytes of slot `account`.
    Write { account: usize, data: Vec<u8> },
}

/// The values an effect carries.
pub enum EffectView {
    CreateTokenAccount { payer: usize, account: usize, wallet: usize, mint: usize },
    CreateSlot { payer: usize, account: usize, space: u64, seed: Seq<u8>, bump: u8 },
    Transfer { source: usize, destination: usize, authority: usize, amount: u64 },
    Write { account: usize, data: Seq<u8> },
}

impl View for Effect {
    type V = EffectView;

    open spec fn view(&self) -> EffectView {
        match self {
            Effect::CreateTokenAccount { payer, account, wallet, mint } => {
                EffectView::CreateTokenAccount {
                    payer: *payer,
                    account: *account,
                    wallet: *wallet,
                    mint: *mint,
                }
            },
            Effect::CreateSlot { payer, account, space, seed, bump } => EffectView::CreateSlot {
                payer: *payer,
                account: *account,
                space: *space,
                seed: seed@,
                bump: *bump,
            },
            Effect::Transfer { source, destination, authority, amount } => EffectView::Transfer {
                source: *source,
                destination: *destination,
                authority: *authority,
                amount: *amount,
            },
            Effect::Write { account, data } => EffectView::Write { account: *account, data: data@ },
        }
    }
}

fn tag_bytes(a: u8, b: u8, c: u8, d: u8) -> (r: Vec<u8>)
    ensures
        r@ == seq![a, b, c, d],
{
    let mut v: Vec<u8> = Vec::new();
    v.push(a);
    v.push(b);
    v.push(c);
    v.push(d);
    assert(v@ =~= seq![a, b, c, d]);
    v
}

/// The bytes that store a sentinel in a fresh node slot.
fn sentinel_image(next: [u8; 32], prev: [u8; 32]) -> (r: Vec<u8>)
    ensures
        r@ == node_image(sentinel_view(next@, prev@)),
{
    let s = sentinel(next, prev);
    proof {
        lemma_sentinel_fits(next@, prev@);
        reveal(node_image_fits);
    }
    crate::slot::node_image_bytes(&s)
}

/// The registry program's instruction processor.
pub struct Processor {}

impl Processor {
    fn process_initialize_registry(
        program_id: &[u8; 32],
        accounts: &[AccountInput],
        fee_amount: u64,
    ) -> (r: Result<Vec<Effect>, RegistryError>)
        ensures
            outcome_of(r) == initialize_outcome(program_id@, accounts@, fee_amount),
    {
        match assert_number_of_accounts(accounts.len(), 11) {
            Ok(_) => {},
            Err(e) => return Err(e),
        }
        let user = &accounts[0];
        match assert_valid_account_user(user) {
            Ok(_) => {},
            Err(e) => return Err(e),
        }
        let fee_mint = &accounts[1];
        match assert_valid_mint(fee_mint) {
            Ok(_) => {},
            Err(e) => return Err(e),
        }
        let fee_destination = &accounts[2];
        match assert_valid_system_account(fee_destination) {
            Ok(_) => {},
            Err(e) => return Err(e),
        }
        let fee_destination_ata = &accounts[3];
        match assert_valid_ata(&fee_destination.key, &fee_mint.key, fee_destination_ata) {
            Ok(_) => {},
            Err(e) => return Err(e),
        }
        match assert_valid_system_program(&accounts[4]) {
            Ok(_) => {},
            Err(e) => return Err(e),
        }
        match assert_valid_token_program(&accounts[5]) {
            Ok(_) => {},
            Err(e) => return Err(e),
        }
        match assert_valid_ata_program(&accounts[6]) {
            Ok(_) => {},
            Err(e) => return Err(e),
        }
        match assert_valid_sysvar_rent(&accounts[7]) {
            Ok(_) => {},
            Err(e) => return Err(e),
        }
        let meta_seed = tag_bytes(109, 101, 116, 97);
        let head_seed = tag_bytes(104, 101, 97, 100);
        let tail_seed = tag_bytes(116, 97, 105, 108);
        let meta_account = &accounts[8];
        let meta_bump = match assert_valid_pda(program_id, meta_account, meta_seed.as_slice()) {
            Ok(b) => b,
            Err(e) => return Err(e),
        };
        let head_account = &accounts[9];
        let head_bump = match assert_valid_pda(program_id, head_account, head_seed.as_slice()) {
            Ok(b) => b,
            Err(e) => return Err(e),
        };
        let tail_account = &accounts[10];
        let tail_bump = match assert_valid_pda(program_id, tail_account, tail_seed.as_slice()) {
            Ok(b) => b,
            Err(e) => return Err(e),
        };
        if meta_account.data.len() != 0 || head_account.data.len() != 0 || tail_account.data.len()
            != 0 {
            return Err(RegistryError::AlreadyInitialized);
        }
        let mut effects: Vec<Effect> = Vec::new();
        if fee_destination_ata.data.len() == 0 {
            effects.push(Effect::CreateTokenAccount { payer: 0, account: 3, wallet: 2, mint: 1 });
        }
        let meta = initial_meta(
            head_account.key,
            fee_amount,
            fee_mint.key,
            fee_destination.key,
            user.key,
        );
        let space = node_slot_capacity() as u64;
        effects.push(
            Effect::CreateSlot {
                payer: 0,
                account: 8,
                space: META_LEN as u64,
                seed: meta_seed,
                bump: meta_bump,
            },
        );
        effects.push(Effect::Write { account: 8, data: meta.encode() });
        effects.push(
            Effect::CreateSlot { payer: 0, account: 9, space, seed: head_seed, bump: head_bump },
        );
        effects.push(
            Effect::CreateSlot { payer: 0, account: 10, space, seed: tail_seed, bump: tail_bump },
        );
        let zero: [u8; 32] = [0u8; 32];
        assert(zero@ =~= zero_key());
        effects.push(Effect::Write { account: 9, data: sentinel_image(tail_account.key, zero) });
        effects.push(Effect::Write { account: 10, data: sentinel_image(zero, head_account.key) });
        assert(outcome_of(Ok(effects)) == initialize_outcome(program_id@, accounts@, fee_amount)) by {
            assert(effects@.map_values(|e: Effect| e@) =~= initialize_outcome(
                program_id@,
                accounts@,
                fee_amount,
            )->Ok_0);
        }
        Ok(effects)
    }
}


/// The write of `n` into slot `account` of `capacity` bytes.
fn node_write_effect(account: usize, n: &RegistryNodeAccount, capacity: usize) -> (r: Result<
    Effect,
    RegistryError,
>)
    ensures
        match fit_gate(n@, capacity as int) {
            Err(e) => r matches Err(x) && x == e,
            Ok(_) => r matches Ok(f) && f@ == (EffectView::Write { account, data: node_image(n@) }),
        },
{
    match crate::slot::node_slot_image(n, capacity) {
        Ok(data) => Ok(Effect::Write { account, data }),
        Err(e) => Err(RegistryError::Codec(e)),
    }
}

impl Processor {
    fn process_update_fees(program_id: &[u8; 32], accounts: &[AccountInput], fee_amount: u64) -> (r:
        Result<Vec<Effect>, RegistryError>)
        ensures
            outcome_of(r) == update_fees_outcome(program_id@, accounts@, fee_amount),
    {
        match assert_number_of_accounts(accounts.len(), 9) {
            Ok(_) => {},
            Err(e) => return Err(e),
        }
        let user = &accounts[0];
        match assert_valid_account_user(user) {
            Ok(_) => {},
            Err(e) => return Err(e),
        }
        let fee_mint = &accounts[1];
        match assert_valid_mint(fee_mint) {
            Ok(_) => {},
            Err(e) => return Err(e),
        }
        let fee_destination = &accounts[2];
        match assert_valid_system_account(fee_destination) {
            Ok(_) => {},
            Err(e) => return Err(e),
        }
        let fee_destination_ata = &accounts[3];
        match assert_valid_ata(&fee_destination.key, &fee_mint.key, fee_destination_ata) {
            Ok(_) => {},
            Err(e) => return Err(e),
        }
        match assert_valid_system_program(&accounts[4]) {
            Ok(_) => {},
            Err(e) => return Err(e),
        }
        match assert_valid_token_program(&accounts[5]) {
            Ok(_) => {},
            Err(e) => return Err(e),
        }
        match assert_valid_ata_program(&accounts[6]) {
            Ok(_) => {},
            Err(e) => return Err(e),
        }
        match assert_valid_sysvar_rent(&accounts[7]) {
            Ok(_) => {},
            Err(e) => return Err(e),
        }
        let meta_seed = tag_bytes(109, 101, 116, 97);
        let meta_account = &accounts[8];
        match assert_valid_pda(program_id, meta_account, meta_seed.as_slice()) {
            Ok(_) => {},
            Err(e) => return Err(e),
        }
        let meta = match assert_initialized(meta_account) {
            Ok(m) => m,
            Err(e) => return Err(e),
        };
        let meta = match update_fees(meta, user.key, fee_amount, fee_mint.key, fee_destination.key) {
            Ok(m) => m,
            Err(e) => return Err(e),
        };
        let mut effects: Vec<Effect> = Vec::new();
        if fee_destination_ata.data.len() == 0 {
            effects.push(Effect::CreateTokenAccount { payer: 0, account: 3, wallet: 2, mint: 1 });
        }
        effects.push(Effect::Write { account: 8, data: meta.encode() });
        assert(effects@.map_values(|e: Effect| e@) =~= update_fees_outcome(
            program_id@,
            accounts@,
            fee_amount,
        )->Ok_0);
        Ok(effects)
    }

    /// The checks of CreateEntry; gives the metadata record, the head
    /// sentinel, the first node and the bump seed of the mint's slot.
    fn create_entry_gate(program_id: &[u8; 32], accounts: &[AccountInput]) -> (r: Result<
        (RegistryMetaAccount, RegistryNodeAccount, RegistryNodeAccount, u8),
        RegistryError,
    >)
        ensures
            match create_checks(program_id@, accounts@) {
                Err(e) => r matches Err(x) && x == e,
                Ok(_) => r matches Ok((m, h, f, b)) && accounts@.len() == 10 && m@ == meta_of(
                    accounts@[6],
                ) && h@ == node_of(accounts@[7]) && f@ == node_of(accounts@[8]) && b == bump_of(
                    program_id@,
                    accounts@[9],
                    accounts@[1].key@,
                ),
            },
    {
        reveal(create_checks);
        match assert_number_of_accounts(accounts.len(), 10) {
            Ok(_) => {},
            Err(e) => return Err(e),
        }
        let user = &accounts[0];
        match assert_valid_account_user(user) {
            Ok(_) => {},
            Err(e) => return Err(e),
        }
        let mint = &accounts[1];
        match assert_valid_mint(mint) {
            Ok(_) => {},
            Err(e) => return Err(e),
        }
        let fee_source_ata = &accounts[2];
        let fee_destination_ata = &accounts[3];
        match assert_valid_system_program(&accounts[4]) {
            Ok(_) => {},
            Err(e) => return Err(e),
        }
        match assert_valid_token_program(&accounts[5]) {
            Ok(_) => {},
            Err(e) => return Err(e),
        }
        let meta_seed = tag_bytes(109, 101, 116, 97);
        let head_seed = tag_bytes(104, 101, 97, 100);
        let meta_account = &accounts[6];
        match assert_valid_pda(program_id, meta_account, meta_seed.as_slice()) {
            Ok(_) => {},
            Err(e) => return Err(e),
        }
        let meta = match assert_initialized(meta_account) {
            Ok(m) => m,
            Err(e) => return Err(e),
        };
        let head_account = &accounts[7];
        match assert_valid_pda(program_id, head_account, head_seed.as_slice()) {
            Ok(_) => {},
            Err(e) => return Err(e),
        }
        let first_account = &accounts[8];
        let (head, first) = match assert_valid_registry_first(head_account, first_account) {
            Ok(x) => x,
            Err(e) => return Err(e),
        };
        let new_account = &accounts[9];
        let new_bump = match assert_valid_pda(program_id, new_account, &mint.key) {
            Ok(b) => b,
            Err(e) => return Err(e),
        };
        match assert_valid_ata(&user.key, &meta.fee_mint, fee_source_ata) {
            Ok(_) => {},
            Err(e) => return Err(e),
        }
        match assert_valid_ata(&meta.fee_destination, &meta.fee_mint, fee_destination_ata) {
            Ok(_) => {},
            Err(e) => return Err(e),
        }
        match assert_initialized_ata(fee_destination_ata) {
            Ok(_) => {},
            Err(e) => return Err(e),
        }
        if !crate::codec::same_key(&user.key, &meta.fee_update_authority) {
            match assert_initialized_ata(fee_source_ata) {
                Ok(_) => {},
                Err(e) => return Err(e),
            }
        }
        Ok((meta, head, first, new_bump))
    }

    fn process_create_entry(
        program_id: &[u8; 32],
        accounts: &[AccountInput],
        entry: CreateUpdateEntryInstructionData,
    ) -> (r: Result<Vec<Effect>, RegistryError>)
        ensures
            outcome_of(r) == create_outcome(program_id@, accounts@, entry@),
    {
        let (meta, head, first, new_bump) = match Self::create_entry_gate(program_id, accounts) {
            Ok(x) => x,
            Err(e) => return Err(e),
        };
        Self::create_entry_effects(program_id, accounts, entry, meta, head, first, new_bump)
    }

    /// The effects of CreateEntry once its checks passed.
    fn create_entry_effects(
        program_id: &[u8; 32],
        accounts: &[AccountInput],
        entry: CreateUpdateEntryInstructionData,
        meta: RegistryMetaAccount,
        head: RegistryNodeAccount,
        first: RegistryNodeAccount,
        new_bump: u8,
    ) -> (r: Result<Vec<Effect>, RegistryError>)
        requires
            accounts@.len() == 10,
            meta@ == meta_of(accounts@[6]),
            head@ == node_of(accounts@[7]),
            first@ == node_of(accounts@[8]),
            new_bump == bump_of(program_id@, accounts@[9], accounts@[1].key@),
        ensures
            outcome_of(r) == create_slot_outcome(program_id@, accounts@, entry@),
    {
        let ghost e = entry@;
        let writes = if accounts[9].data.len() == 0 {
            Self::fresh_writes(program_id, accounts, entry, head, first, new_bump)
        } else {
            Self::revive_writes(accounts, entry)
        };
        let mut writes = match writes {
            Ok(w) => w,
            Err(e) => return Err(e),
        };
        let user = &accounts[0];
        let mut effects: Vec<Effect> = Vec::new();
        if !crate::codec::same_key(&user.key, &meta.fee_update_authority) {
            effects.push(
                Effect::Transfer {
                    source: 2,
                    destination: 3,
                    authority: 0,
                    amount: meta.fee_amount,
                },
            );
        }
        let ghost fee = effects@;
        assert(fee.map_values(|x: Effect| x@) =~= fee_payment(accounts@));
        let ghost w = writes@;
        effects.append(&mut writes);
        assert(effects@.map_values(|x: Effect| x@) =~= fee.map_values(|x: Effect| x@) + w.map_values(
            |x: Effect| x@,
        ));
        Ok(effects)
    }

    fn fresh_writes(
        program_id: &[u8; 32],
        accounts: &[AccountInput],
        entry: CreateUpdateEntryInstructionData,
        head: RegistryNodeAccount,
        first: RegistryNodeAccount,
        new_bump: u8,
    ) -> (r: Result<Vec<Effect>, RegistryError>)
        requires
            accounts@.len() == 10,
            head@ == node_of(accounts@[7]),
            first@ == node_of(accounts@[8]),
            new_bump == bump_of(program_id@, accounts@[9], accounts@[1].key@),
        ensures
            outcome_of(r) == fresh_writes(program_id@, accounts@, entry@),
    {
        let head_account = &accounts[7];
        let first_account = &accounts[8];
        let new_account = &accounts[9];
        let (head, first, node) = insert_after_head(
            head,
            first,
            head_account.key,
            first_account.key,
            new_account.key,
            accounts[1].key,
            accounts[0].key,
            entry,
        );
        let w_head = match node_write_effect(7, &head, head_account.data.len()) {
            Ok(w) => w,
            Err(e) => return Err(e),
        };
        let w_first = match node_write_effect(8, &first, first_account.data.len()) {
            Ok(w) => w,
            Err(e) => return Err(e),
        };
        let w_node = match node_write_effect(9, &node, node_slot_capacity()) {
            Ok(w) => w,
            Err(e) => return Err(e),
        };
        let mut effects: Vec<Effect> = Vec::new();
        effects.push(w_head);
        effects.push(w_first);
        effects.push(
            Effect::CreateSlot {
                payer: 0,
                account: 9,
                space: node_slot_capacity() as u64,
                seed: key_bytes(&accounts[1].key),
                bump: new_bump,
            },
        );
        effects.push(w_node);
        assert(effects@.map_values(|x: Effect| x@) =~= fresh_writes(
            program_id@,
            accounts@,
            entry@,
        )->Ok_0);
        Ok(effects)
    }

    fn revive_writes(accounts: &[AccountInput], entry: CreateUpdateEntryInstructionData) -> (r:
        Result<Vec<Effect>, RegistryError>)
        requires
            accounts@.len() == 10,
        ensures
            outcome_of(r) == revive_writes(accounts@, entry@),
    {
        let new_account = &accounts[9];
        let old = match read_node_slot(new_account.data.as_slice()) {
            Ok(n) => n,
            Err(e) => return Err(e),
        };
        let node = match revive(old, accounts[0].key, entry) {
            Ok(n) => n,
            Err(e) => return Err(e),
        };
        let w_node = match node_write_effect(9, &node, new_account.data.len()) {
            Ok(w) => w,
            Err(e) => return Err(e),
        };
        let mut effects: Vec<Effect> = Vec::new();
        effects.push(w_node);
        assert(effects@.map_values(|x: Effect| x@) =~= revive_writes(accounts@, entry@)->Ok_0);
        Ok(effects)
    }
}

/// The bytes of a key, as a seed.
fn key_bytes(k: &[u8; 32]) -> (r: Vec<u8>)
    ensures
        r@ == k@,
{
    let mut v: Vec<u8> = Vec::new();
    let mut i: usize = 0;
    while i < 32
        invariant
            i <= 32,
            k@.len() == 32,
            v@ == k@.subrange(0, i as int),
        decreases 32 - i,
    {
        v.push(k[i]);
        i = i + 1;
        assert(v@ =~= k@.subrange(0, i as int));
    }
    assert(k@.subrange(0, 32) =~= k@);
    v
}


impl Processor {
    /// The checks shared by DeleteEntry, UpdateEntry and
    /// TransferTokenAuthority; gives nothing but the verdict.
    fn node_instruction_gate(program_id: &[u8; 32], accounts: &[AccountInput], n: usize) -> (r:
        Result<(), RegistryError>)
        requires
            n >= 4,
        ensures
            r == node_checks(program_id@, accounts@, n as int),
    {
        match assert_number_of_accounts(accounts.len(), n) {
            Ok(_) => {},
            Err(e) => return Err(e),
        }
        match assert_valid_account_user(&accounts[0]) {
            Ok(_) => {},
            Err(e) => return Err(e),
        }
        match assert_valid_mint(&accounts[1]) {
            Ok(_) => {},
            Err(e) => return Err(e),
        }
        let meta_seed = tag_bytes(109, 101, 116, 97);
        match assert_valid_pda(program_id, &accounts[2], meta_seed.as_slice()) {
            Ok(_) => {},
            Err(e) => return Err(e),
        }
        match assert_initialized(&accounts[2]) {
            Ok(_) => {},
            Err(e) => return Err(e),
        }
        match assert_valid_pda(program_id, &accounts[3], &accounts[1].key) {
            Ok(_) => {},
            Err(e) => return Err(e),
        }
        Ok(())
    }

    fn process_delete_entry(program_id: &[u8; 32], accounts: &[AccountInput]) -> (r: Result<
        Vec<Effect>,
        RegistryError,
    >)
        ensures
            outcome_of(r) == delete_outcome(program_id@, accounts@),
    {
        match Self::node_instruction_gate(program_id, accounts, 4) {
            Ok(_) => {},
            Err(e) => return Err(e),
        }
        let node = match read_node(&accounts[3]) {
            Ok(n) => n,
            Err(e) => return Err(e),
        };
        let node = match delete(node, accounts[0].key) {
            Ok(n) => n,
            Err(e) => return Err(e),
        };
        let w = match node_write_effect(3, &node, accounts[3].data.len()) {
            Ok(w) => w,
            Err(e) => return Err(e),
        };
        let mut effects: Vec<Effect> = Vec::new();
        effects.push(w);
        assert(effects@.map_values(|x: Effect| x@) =~= delete_outcome(program_id@, accounts@)->Ok_0);
        Ok(effects)
    }

    fn process_update_entry(
        program_id: &[u8; 32],
        accounts: &[AccountInput],
        entry: CreateUpdateEntryInstructionData,
    ) -> (r: Result<Vec<Effect>, RegistryError>)
        ensures
            outcome_of(r) == update_outcome(program_id@, accounts@, entry@),
    {
        let ghost e = entry@;
        match Self::node_instruction_gate(program_id, accounts, 4) {
            Ok(_) => {},
            Err(e) => return Err(e),
        }
        let node = match read_node(&accounts[3]) {
            Ok(n) => n,
            Err(e) => return Err(e),
        };
        let node = match update(node, accounts[0].key, entry) {
            Ok(n) => n,
            Err(e) => return Err(e),
        };
        let w = match node_write_effect(3, &node, accounts[3].data.len()) {
            Ok(w) => w,
            Err(e) => return Err(e),
        };
        let mut effects: Vec<Effect> = Vec::new();
        effects.push(w);
        assert(effects@.map_values(|x: Effect| x@) =~= update_outcome(program_id@, accounts@, e)->Ok_0);
        Ok(effects)
    }

    fn process_transfer_token_authority(program_id: &[u8; 32], accounts: &[AccountInput]) -> (r:
        Result<Vec<Effect>, RegistryError>)
        ensures
            outcome_of(r) == transfer_token_outcome(program_id@, accounts@),
    {
        match Self::node_instruction_gate(program_id, accounts, 5) {
            Ok(_) => {},
            Err(e) => return Err(e),
        }
        match assert_valid_system_account(&accounts[4]) {
            Ok(_) => {},
            Err(e) => return Err(e),
        }
        let node = match read_node(&accounts[3]) {
            Ok(n) => n,
            Err(e) => return Err(e),
        };
        let node = match transfer_token_authority(node, accounts[0].key, accounts[4].key) {
            Ok(n) => n,
            Err(e) => return Err(e),
        };
        let w = match node_write_effect(3, &node, accounts[3].data.len()) {
            Ok(w) => w,
            Err(e) => return Err(e),
        };
        let mut effects: Vec<Effect> = Vec::new();
        effects.push(w);
        assert(effects@.map_values(|x: Effect| x@) =~= transfer_token_outcome(
            program_id@,
            accounts@,
        )->Ok_0);
        Ok(effects)
    }

    fn process_transfer_fee_authority(program_id: &[u8; 32], accounts: &[AccountInput]) -> (r:
        Result<Vec<Effect>, RegistryError>)
        ensures
            outcome_of(r) == transfer_fee_outcome(program_id@, accounts@),
    {
        match assert_number_of_accounts(accounts.len(), 3) {
            Ok(_) => {},
            Err(e) => return Err(e),
        }
        match assert_valid_account_user(&accounts[0]) {
            Ok(_) => {},
            Err(e) => return Err(e),
        }
        match assert_valid_system_account(&accounts[1]) {
            Ok(_) => {},
            Err(e) => return Err(e),
        }
        let meta_seed = tag_bytes(109, 101, 116, 97);
        match assert_valid_pda(program_id, &accounts[2], meta_seed.as_slice()) {
            Ok(_) => {},
            Err(e) => return Err(e),
        }
        let meta = match assert_initialized(&accounts[2]) {
            Ok(m) => m,
            Err(e) => return Err(e),
        };
        let meta = match transfer_fee_authority(meta, accounts[0].key, accounts[1].key) {
            Ok(m) => m,
            Err(e) => return Err(e),
        };
        let mut effects: Vec<Effect> = Vec::new();
        effects.push(Effect::Write { account: 2, data: meta.encode() });
        assert(effects@.map_values(|x: Effect| x@) =~= transfer_fee_outcome(
            program_id@,
            accounts@,
        )->Ok_0);
        Ok(effects)
    }

    /// Decodes `input` and carries it out over `accounts`: on success, the
    /// effects the host must apply, in order; on an error, none.
    pub fn process(program_id: &[u8; 32], accounts: &[AccountInput], input: &[u8]) -> (r: Result<
        Vec<Effect>,
        RegistryError,
    >)
        ensures
            outcome_of(r) == process_outcome(program_id@, accounts@, input@),
    {
        let instruction = match RegistryInstruction::unpack(input) {
            Ok(i) => i,
            Err(e) => return Err(e),
        };
        match instruction {
            RegistryInstruction::InitializeRegistry { fee_amount } => {
                Self::process_initialize_registry(program_id, accounts, fee_amount)
            },
            RegistryInstruction::UpdateFees { fee_amount } => {
                Self::process_update_fees(program_id, accounts, fee_amount)
            },
            RegistryInstruction::CreateEntry {
                token_symbol,
                token_name,
                token_logo_url,
                token_tags,
                token_extensions,
            } => Self::process_create_entry(
                program_id,
                accounts,
                CreateUpdateEntryInstructionData {
                    token_symbol,
                    token_name,
                    token_logo_url,
                    token_tags,
                    token_extensions,
                },
            ),
            RegistryInstruction::DeleteEntry => Self::process_delete_entry(program_id, accounts),
            RegistryInstruction::UpdateEntry {
                token_symbol,
                token_name,
                token_logo_url,
                token_tags,
                token_extensions,
            } => Self::process_update_entry(
                program_id,
                accounts,
                CreateUpdateEntryInstructionData {
                    token_symbol,
                    token_name,
                    token_logo_url,
                    token_tags,
                    token_extensions,
                },
            ),
            RegistryInstruction::TransferFeeAuthority => {
                Self::process_transfer_fee_authority(program_id, accounts)
            },
            RegistryInstruction::TransferTokenAuthority => {
                Self::process_transfer_token_authority(program_id, accounts)
            },
        }
    }
}

} // verus!
