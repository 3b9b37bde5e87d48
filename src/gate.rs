//! The access-control gate: checks on the account slots an instruction is
//! given, each failing with its own error, applied before any transition.
use crate::addressing::{
    ata_of, ata_program_id, ata_program_key, derive_associated_token_address, pda_check,
    rent_sysvar_id, rent_sysvar_key, system_program_id, system_program_key, token_program_id,
    token_program_key, verify,
};
use crate::codec::same_key;
use crate::error::RegistryError;
use crate::slot::{meta_slot, node_slot, read_meta_slot, read_node_slot};
use crate::state::{MetaView, NodeView, RegistryMetaAccount, RegistryNodeAccount};
use vstd::prelude::*;

verus! {

/// One account slot as the host hands it to an instruction: its address,
/// the program that owns it, whether it signed the transaction, and its bytes.
#[derive(Debug)]
pub struct AccountInput {
    pub key: [u8; 32],
    pub owner: [u8; 32],
    pub is_signer: bool,
    pub data: Vec<u8>,
}

/// `first`, and where it passes, `rest`.
pub open spec fn check(first: Result<(), RegistryError>, rest: Result<(), RegistryError>) -> Result<
    (),
    RegistryError,
> {
    if first is Err {
        first
    } else {
        rest
    }
}

pub open spec fn fail(e: RegistryError) -> Result<(), RegistryError> {
    Err(e)
}

pub open spec fn pass() -> Result<(), RegistryError> {
    Ok(())
}

/// The instruction was given exactly `expected` accounts.
pub open spec fn count_gate(n: int, expected: int) -> Result<(), RegistryError> {
    if n != expected {
        fail(RegistryError::InvalidNumberOfAccounts)
    } else {
        pass()
    }
}

/// The account belongs to the base account-ownership program.
pub open spec fn system_account_gate(a: AccountInput) -> Result<(), RegistryError> {
    if a.owner@ != system_program_key() {
        fail(RegistryError::InvalidSystemAccount)
    } else {
        pass()
    }
}

/// The account signed, and is externally owned.
pub open spec fn user_gate(a: AccountInput) -> Result<(), RegistryError> {
    if !a.is_signer {
        fail(RegistryError::InvalidUserAccount)
    } else {
        system_account_gate(a)
    }
}

/// The account is a mint: owned by the token program, and not empty.
pub open spec fn mint_gate(a: AccountInput) -> Result<(), RegistryError> {
    if a.owner@ != token_program_key() {
        fail(RegistryError::InvalidMint)
    } else if a.data@.len() == 0 {
        fail(RegistryError::UninitializedMint)
    } else {
        pass()
    }
}

/// The account is the associated token account of `wallet` for `mint`.
pub open spec fn ata_gate(wallet: Seq<u8>, mint: Seq<u8>, a: AccountInput) -> Result<
    (),
    RegistryError,
> {
    if ata_of(wallet, mint) != Some(a.key@) {
        fail(RegistryError::InvalidAssociatedTokenAccount)
    } else {
        pass()
    }
}

/// The token account holds data.
pub open spec fn initialized_ata_gate(a: AccountInput) -> Result<(), RegistryError> {
    if a.data@.len() == 0 {
        fail(RegistryError::UninitializedAssociatedTokenAccount)
    } else {
        pass()
    }
}

/// The account is the program at `expected`.
pub open spec fn program_gate(a: AccountInput, expected: Seq<u8>, e: RegistryError) -> Result<
    (),
    RegistryError,
> {
    if a.key@ != expected {
        fail(e)
    } else {
        pass()
    }
}

/// The account's address is the one derived for `tag`.
pub open spec fn pda_gate(program_id: Seq<u8>, a: AccountInput, tag: Seq<u8>) -> Result<
    (),
    RegistryError,
> {
    match pda_check(program_id, a.key@, tag) {
        Ok(_) => pass(),
        Err(e) => fail(e),
    }
}

/// The metadata slot holds a record whose `initialized` flag is set.
pub open spec fn initialized_gate(a: AccountInput) -> Result<(), RegistryError> {
    match meta_slot(a.data@) {
        Err(e) => fail(e),
        Ok(m) => if m.initialized {
            pass()
        } else {
            fail(RegistryError::NotYetInitialized)
        },
    }
}

/// The node slot holds a node.
pub open spec fn node_gate(a: AccountInput) -> Result<(), RegistryError> {
    match node_slot(a.data@) {
        Err(e) => fail(e),
        Ok(_) => pass(),
    }
}

/// The account named as the first node is the one the head sentinel points
/// to, and points back to the head.
pub open spec fn first_gate(head: AccountInput, first: AccountInput) -> Result<(), RegistryError> {
    match node_slot(head.data@) {
        Err(e) => fail(e),
        Ok(h) => match node_slot(first.data@) {
            Err(e) => fail(e),
            Ok(f) => if h.next != first.key@ || f.prev != head.key@ {
                fail(RegistryError::InvalidRegistryNodeFirst)
            } else {
                pass()
            },
        },
    }
}

/// The metadata record in an account that passed `initialized_gate`.
pub open spec fn meta_of(a: AccountInput) -> MetaView {
    meta_slot(a.data@)->Ok_0
}

/// The node in an account that passed `node_gate`.
pub open spec fn node_of(a: AccountInput) -> NodeView {
    node_slot(a.data@)->Ok_0
}

pub fn assert_number_of_accounts(n: usize, expected: usize) -> (r: Result<(), RegistryError>)
    ensures
        r == count_gate(n as int, expected as int),
{
    if n != expected {
        return Err(RegistryError::InvalidNumberOfAccounts);
    }
    Ok(())
}

pub fn assert_valid_system_account(a: &AccountInput) -> (r: Result<(), RegistryError>)
    ensures
        r == system_account_gate(*a),
{
    let id = system_program_id();
    if !same_key(&a.owner, &id) {
        return Err(RegistryError::InvalidSystemAccount);
    }
    Ok(())
}

pub fn assert_valid_account_user(a: &AccountInput) -> (r: Result<(), RegistryError>)
    ensures
        r == user_gate(*a),
{
    if !a.is_signer {
        return Err(RegistryError::InvalidUserAccount);
    }
    assert_valid_system_account(a)
}

pub fn assert_valid_mint(a: &AccountInput) -> (r: Result<(), RegistryError>)
    ensures
        r == mint_gate(*a),
{
    let id = token_program_id();
    if !same_key(&a.owner, &id) {
        return Err(RegistryError::InvalidMint);
    }
    if a.data.len() == 0 {
        return Err(RegistryError::UninitializedMint);
    }
    Ok(())
}

pub fn assert_valid_ata(wallet: &[u8; 32], mint: &[u8; 32], a: &AccountInput) -> (r: Result<
    (),
    RegistryError,
>)
    ensures
        r == ata_gate(wallet@, mint@, *a),
{
    match derive_associated_token_address(wallet, mint) {
        Some(k) => if same_key(&k, &a.key) {
            Ok(())
        } else {
            Err(RegistryError::InvalidAssociatedTokenAccount)
        },
        None => Err(RegistryError::InvalidAssociatedTokenAccount),
    }
}

pub fn assert_initialized_ata(a: &AccountInput) -> (r: Result<(), RegistryError>)
    ensures
        r == initialized_ata_gate(*a),
{
    if a.data.len() == 0 {
        return Err(RegistryError::UninitializedAssociatedTokenAccount);
    }
    Ok(())
}

pub fn assert_valid_system_program(a: &AccountInput) -> (r: Result<(), RegistryError>)
    ensures
        r == program_gate(*a, system_program_key(), RegistryError::InvalidSystemProgram),
{
    let id = system_program_id();
    if !same_key(&a.key, &id) {
        return Err(RegistryError::InvalidSystemProgram);
    }
    Ok(())
}

pub fn assert_valid_token_program(a: &AccountInput) -> (r: Result<(), RegistryError>)
    ensures
        r == program_gate(*a, token_program_key(), RegistryError::InvalidTokenProgram),
{
    let id = token_program_id();
    if !same_key(&a.key, &id) {
        return Err(RegistryError::InvalidTokenProgram);
    }
    Ok(())
}

pub fn assert_valid_ata_program(a: &AccountInput) -> (r: Result<(), RegistryError>)
    ensures
        r == program_gate(*a, ata_program_key(), RegistryError::InvalidATAProgram),
{
    let id = ata_program_id();
    if !same_key(&a.key, &id) {
        return Err(RegistryError::InvalidATAProgram);
    }
    Ok(())
}

pub fn assert_valid_sysvar_rent(a: &AccountInput) -> (r: Result<(), RegistryError>)
    ensures
        r == program_gate(*a, rent_sysvar_key(), RegistryError::InvalidSysvarRentProgram),
{
    let id = rent_sysvar_id();
    if !same_key(&a.key, &id) {
        return Err(RegistryError::InvalidSysvarRentProgram);
    }
    Ok(())
}

/// Checks the account's derived address; gives the bump seed.
pub fn assert_valid_pda(program_id: &[u8; 32], a: &AccountInput, tag: &[u8]) -> (r: Result<
    u8,
    RegistryError,
>)
    ensures
        r == pda_check(program_id@, a.key@, tag@),
{
    verify(program_id, &a.key, tag)
}

/// Checks that the metadata slot is set up; gives its record.
pub fn assert_initialized(a: &AccountInput) -> (r: Result<RegistryMetaAccount, RegistryError>)
    ensures
        match initialized_gate(*a) {
            Ok(_) => r matches Ok(m) && m@ == meta_of(*a),
            Err(e) => r matches Err(x) && x == e,
        },
{
    let m = match read_meta_slot(a.data.as_slice()) {
        Ok(m) => m,
        Err(e) => return Err(e),
    };
    if !m.initialized {
        return Err(RegistryError::NotYetInitialized);
    }
    Ok(m)
}

/// Reads the node in a slot.
pub fn read_node(a: &AccountInput) -> (r: Result<RegistryNodeAccount, RegistryError>)
    ensures
        match node_gate(*a) {
            Ok(_) => r matches Ok(n) && n@ == node_of(*a),
            Err(e) => r matches Err(x) && x == e,
        },
{
    read_node_slot(a.data.as_slice())
}

/// Checks the head sentinel and the node named as the first.
pub fn assert_valid_registry_first(head: &AccountInput, first: &AccountInput) -> (r: Result<
    (RegistryNodeAccount, RegistryNodeAccount),
    RegistryError,
>)
    ensures
        match first_gate(*head, *first) {
            Ok(_) => r matches Ok((h, f)) && h@ == node_of(*head) && f@ == node_of(*first),
            Err(e) => r matches Err(x) && x == e,
        },
{
    let h = match read_node_slot(head.data.as_slice()) {
        Ok(n) => n,
        Err(e) => return Err(e),
    };
    let f = match read_node_slot(first.data.as_slice()) {
        Ok(n) => n,
        Err(e) => return Err(e),
    };
    if !same_key(&h.next_registry_node, &first.key) || !same_key(&f.prev_registry_node, &head.key) {
        return Err(RegistryError::InvalidRegistryNodeFirst);
    }
    Ok((h, f))
}

} // verus!
