use solana_program::pubkey::Pubkey;
use spl_associated_token_account::get_associated_token_address;
use std::collections::HashMap;
use token_registry::addressing::derive_address;
use token_registry::error::RegistryError;
use token_registry::gate::AccountInput;
use token_registry::processor::{Effect, Processor};
use token_registry::slot::{read_meta_slot, read_node_slot};
use token_registry::state::{CreateUpdateEntryInstructionData, RegistryNodeAccount};

const PROGRAM: [u8; 32] = [7; 32];

struct Slot {
    owner: [u8; 32],
    data: Vec<u8>,
}

/// A small stand-in for the host: slots by address, token balances by account.
struct Ledger {
    slots: HashMap<[u8; 32], Slot>,
    balances: HashMap<[u8; 32], u64>,
}

fn pda(tag: &[u8]) -> [u8; 32] {
    Pubkey::find_program_address(&[tag], &Pubkey::new_from_array(PROGRAM)).0.to_bytes()
}

fn ata(wallet: [u8; 32], mint: [u8; 32]) -> [u8; 32] {
    get_associated_token_address(&Pubkey::new_from_array(wallet), &Pubkey::new_from_array(mint))
        .to_bytes()
}

fn system() -> [u8; 32] {
    solana_program::system_program::id().to_bytes()
}

fn token() -> [u8; 32] {
    spl_token::id().to_bytes()
}

const FEE_MINT: [u8; 32] = [11; 32];
const COLLECTOR: [u8; 32] = [12; 32];
const ADMIN: [u8; 32] = [13; 32];
const PAYER: [u8; 32] = [14; 32];
const MINT_A: [u8; 32] = [21; 32];
const MINT_B: [u8; 32] = [22; 32];

impl Ledger {
    fn new() -> Ledger {
        let mut l = Ledger { slots: HashMap::new(), balances: HashMap::new() };
        l.put(FEE_MINT, token(), vec![1; 82]);
        l.put(MINT_A, token(), vec![1; 82]);
        l.put(MINT_B, token(), vec![1; 82]);
        for w in [COLLECTOR, ADMIN, PAYER] {
            l.put(w, system(), vec![]);
        }
        l.put(ata(PAYER, FEE_MINT), token(), vec![1; 165]);
        l.put(ata(ADMIN, FEE_MINT), token(), vec![1; 165]);
        l.balances.insert(ata(PAYER, FEE_MINT), 5000);
        l
    }

    fn put(&mut self, key: [u8; 32], owner: [u8; 32], data: Vec<u8>) {
        self.slots.insert(key, Slot { owner, data });
    }

    fn input(&self, key: [u8; 32], signer: bool) -> AccountInput {
        match self.slots.get(&key) {
            Some(s) => AccountInput { key, owner: s.owner, is_signer: signer, data: s.data.clone() },
            None => AccountInput { key, owner: system(), is_signer: signer, data: vec![] },
        }
    }

    fn inputs(&self, keys: &[[u8; 32]], signer: usize) -> Vec<AccountInput> {
        keys.iter().enumerate().map(|(i, k)| self.input(*k, i == signer)).collect()
    }

    /// Runs an instruction and applies its effects; all or nothing.
    fn run(&mut self, keys: &[[u8; 32]], input: &[u8]) -> Result<Vec<Effect>, RegistryError> {
        let effects = Processor::process(&PROGRAM, &self.inputs(keys, 0), input)?;
        for e in &effects {
            if let Effect::Transfer { source, amount, .. } = e {
                if *self.balances.get(&keys[*source]).unwrap_or(&0) < *amount {
                    return Err(RegistryError::InvalidAssociatedTokenAccount);
                }
            }
        }
        for e in &effects {
            match e {
                Effect::CreateTokenAccount { account, .. } => {
                    self.put(keys[*account], token(), vec![1; 165]);
                }
                Effect::CreateSlot { account, space, .. } => {
                    self.put(keys[*account], PROGRAM, vec![0; *space as usize]);
                }
                Effect::Transfer { source, destination, amount, .. } => {
                    *self.balances.entry(keys[*source]).or_insert(0) -= amount;
                    *self.balances.entry(keys[*destination]).or_insert(0) += amount;
                }
                Effect::Write { account, data } => {
                    let slot = self.slots.get_mut(&keys[*account]).unwrap();
                    slot.data[..data.len()].copy_from_slice(data);
                }
            }
        }
        Ok(effects)
    }

    fn node(&self, key: [u8; 32]) -> RegistryNodeAccount {
        read_node_slot(&self.slots[&key].data).unwrap()
    }
}

fn fee_input(tag: u8, fee: u64) -> Vec<u8> {
    let mut v = vec![tag];
    v.extend_from_slice(&fee.to_be_bytes());
    v
}

fn entry_input(tag: u8, symbol: &str) -> Vec<u8> {
    let e = CreateUpdateEntryInstructionData {
        token_symbol: symbol.to_string(),
        token_name: "US Dollar X".to_string(),
        token_logo_url: "https://x/logo.png".to_string(),
        token_tags: vec!["stablecoin".to_string()],
        token_extensions: vec![vec!["website".to_string(), "https://x".to_string()]],
    };
    let mut v = vec![tag];
    v.extend_from_slice(&e.encode());
    v
}

fn init_keys(user: [u8; 32]) -> Vec<[u8; 32]> {
    vec![
        user,
        FEE_MINT,
        COLLECTOR,
        ata(COLLECTOR, FEE_MINT),
        system(),
        token(),
        spl_associated_token_account::id().to_bytes(),
        solana_program::sysvar::rent::id().to_bytes(),
        pda(b"meta"),
        pda(b"head"),
        pda(b"tail"),
    ]
}

fn initialized() -> Ledger {
    let mut l = Ledger::new();
    l.run(&init_keys(ADMIN), &fee_input(0, 1000)).unwrap();
    l
}

fn first_node(l: &Ledger) -> [u8; 32] {
    l.node(pda(b"head")).next_registry_node
}

fn create_keys(l: &Ledger, user: [u8; 32], mint: [u8; 32]) -> Vec<[u8; 32]> {
    vec![
        user,
        mint,
        ata(user, FEE_MINT),
        ata(COLLECTOR, FEE_MINT),
        system(),
        token(),
        pda(b"meta"),
        pda(b"head"),
        first_node(l),
        pda(&mint),
    ]
}

fn node_keys(user: [u8; 32], mint: [u8; 32]) -> Vec<[u8; 32]> {
    vec![user, mint, pda(b"meta"), pda(&mint)]
}

#[test]
fn initialize_sets_up_meta_and_sentinels() {
    let l = initialized();
    let meta = read_meta_slot(&l.slots[&pda(b"meta")].data).unwrap();
    assert_eq!(meta.head_registry_node, pda(b"head"));
    assert_eq!(meta.fee_amount, 1000);
    assert_eq!(meta.fee_mint, FEE_MINT);
    assert_eq!(meta.fee_destination, COLLECTOR);
    assert_eq!(meta.fee_update_authority, ADMIN);
    assert!(meta.initialized);
    assert_eq!(l.node(pda(b"head")).next_registry_node, pda(b"tail"));
    assert_eq!(l.node(pda(b"tail")).prev_registry_node, pda(b"head"));
    assert_eq!(l.slots[&pda(b"head")].data.len(), 2025);
    assert!(l.slots.contains_key(&ata(COLLECTOR, FEE_MINT)));
}

#[test]
fn initialize_twice_fails() {
    let mut l = initialized();
    let r = l.run(&init_keys(ADMIN), &fee_input(0, 5));
    assert!(matches!(r, Err(RegistryError::AlreadyInitialized)));
}

#[test]
fn scenario_usdx_by_paying_user() {
    let mut l = initialized();
    let keys = create_keys(&l, PAYER, MINT_A);
    let effects = l.run(&keys, &entry_input(2, "USDX")).unwrap();
    assert!(matches!(
        effects[0],
        Effect::Transfer { source: 2, destination: 3, authority: 0, amount: 1000 }
    ));
    assert_eq!(l.balances[&ata(PAYER, FEE_MINT)], 4000);
    assert_eq!(l.balances[&ata(COLLECTOR, FEE_MINT)], 1000);
    assert_eq!(first_node(&l), pda(&MINT_A));
    let n = l.node(pda(&MINT_A));
    assert_eq!(n.token_symbol, "USDX");
    assert_eq!(n.token_update_authority, PAYER);
    assert_eq!(n.token_mint, MINT_A);
    assert!(!n.deleted);
}

#[test]
fn created_node_is_reachable_from_head() {
    let mut l = initialized();
    let keys = create_keys(&l, PAYER, MINT_A);
    l.run(&keys, &entry_input(2, "AAA")).unwrap();
    let keys = create_keys(&l, PAYER, MINT_B);
    l.run(&keys, &entry_input(2, "BBB")).unwrap();
    let mut at = pda(b"head");
    let mut seen = vec![];
    while at != pda(b"tail") {
        at = l.node(at).next_registry_node;
        seen.push(at);
    }
    assert_eq!(seen, vec![pda(&MINT_B), pda(&MINT_A), pda(b"tail")]);
    assert_eq!(l.node(pda(&MINT_A)).prev_registry_node, pda(&MINT_B));
    assert_eq!(l.node(pda(b"tail")).prev_registry_node, pda(&MINT_A));
}

#[test]
fn create_twice_fails_and_keeps_node() {
    let mut l = initialized();
    let keys = create_keys(&l, PAYER, MINT_A);
    l.run(&keys, &entry_input(2, "USDX")).unwrap();
    let keys = create_keys(&l, PAYER, MINT_A);
    let before = l.slots[&pda(&MINT_A)].data.clone();
    let r = l.run(&keys, &entry_input(2, "OTHER"));
    assert!(matches!(r, Err(RegistryError::PreviouslyRegisteredMint)));
    assert_eq!(l.slots[&pda(&MINT_A)].data, before);
    assert_eq!(l.balances[&ata(PAYER, FEE_MINT)], 4000);
}

#[test]
fn delete_then_revive_reuses_slot() {
    let mut l = initialized();
    let keys = create_keys(&l, PAYER, MINT_A);
    l.run(&keys, &entry_input(2, "AAA")).unwrap();
    let keys = create_keys(&l, PAYER, MINT_B);
    l.run(&keys, &entry_input(2, "BBB")).unwrap();
    let b_before = l.node(pda(&MINT_B));
    l.run(&node_keys(PAYER, MINT_A), &[3]).unwrap();
    assert!(l.node(pda(&MINT_A)).deleted);
    let keys = create_keys(&l, PAYER, MINT_A);
    let effects = l.run(&keys, &entry_input(2, "AAA2")).unwrap();
    assert_eq!(effects.len(), 2);
    assert!(matches!(effects[1], Effect::Write { account: 9, .. }));
    let a = l.node(pda(&MINT_A));
    assert!(!a.deleted);
    assert_eq!(a.token_symbol, "AAA2");
    assert_eq!(a.prev_registry_node, pda(&MINT_B));
    assert_eq!(a.next_registry_node, pda(b"tail"));
    let b_after = l.node(pda(&MINT_B));
    assert_eq!(b_after.next_registry_node, b_before.next_registry_node);
    assert_eq!(b_after.prev_registry_node, b_before.prev_registry_node);
    assert_eq!(first_node(&l), pda(&MINT_B));
}

#[test]
fn delete_twice_fails() {
    let mut l = initialized();
    let keys = create_keys(&l, PAYER, MINT_A);
    l.run(&keys, &entry_input(2, "AAA")).unwrap();
    l.run(&node_keys(PAYER, MINT_A), &[3]).unwrap();
    let r = l.run(&node_keys(PAYER, MINT_A), &[3]);
    assert!(matches!(r, Err(RegistryError::PreviouslyDeletedMint)));
}

#[test]
fn authority_gate_on_node_instructions() {
    let mut l = initialized();
    let keys = create_keys(&l, PAYER, MINT_A);
    l.run(&keys, &entry_input(2, "AAA")).unwrap();
    let before = l.slots[&pda(&MINT_A)].data.clone();
    let r = l.run(&node_keys(ADMIN, MINT_A), &entry_input(4, "HACK"));
    assert!(matches!(r, Err(RegistryError::InvalidTokenUpdateAuthority)));
    let r = l.run(&node_keys(ADMIN, MINT_A), &[3]);
    assert!(matches!(r, Err(RegistryError::InvalidTokenUpdateAuthority)));
    let mut keys = node_keys(ADMIN, MINT_A);
    keys.push(ADMIN);
    let r = l.run(&keys, &[6]);
    assert!(matches!(r, Err(RegistryError::InvalidTokenUpdateAuthority)));
    assert_eq!(l.slots[&pda(&MINT_A)].data, before);
}

#[test]
fn update_and_transfer_token_authority() {
    let mut l = initialized();
    let keys = create_keys(&l, PAYER, MINT_A);
    l.run(&keys, &entry_input(2, "AAA")).unwrap();
    l.run(&node_keys(PAYER, MINT_A), &entry_input(4, "NEW")).unwrap();
    let n = l.node(pda(&MINT_A));
    assert_eq!(n.token_symbol, "NEW");
    assert_eq!(n.token_update_authority, PAYER);
    let mut keys = node_keys(PAYER, MINT_A);
    keys.push(ADMIN);
    l.run(&keys, &[6]).unwrap();
    assert_eq!(l.node(pda(&MINT_A)).token_update_authority, ADMIN);
    l.run(&node_keys(ADMIN, MINT_A), &[3]).unwrap();
    assert!(l.node(pda(&MINT_A)).deleted);
}

#[test]
fn fee_authority_is_exempt() {
    let mut l = initialized();
    let keys = create_keys(&l, ADMIN, MINT_A);
    let effects = l.run(&keys, &entry_input(2, "AAA")).unwrap();
    assert!(effects.iter().all(|e| !matches!(e, Effect::Transfer { .. })));
    assert_eq!(l.balances.get(&ata(COLLECTOR, FEE_MINT)), None);
    assert_eq!(l.node(pda(&MINT_A)).token_update_authority, ADMIN);
}

#[test]
fn payer_without_funds_leaves_node_absent() {
    let mut l = initialized();
    l.balances.insert(ata(PAYER, FEE_MINT), 10);
    let keys = create_keys(&l, PAYER, MINT_A);
    assert!(l.run(&keys, &entry_input(2, "AAA")).is_err());
    assert!(!l.slots.contains_key(&pda(&MINT_A)));
    assert_eq!(first_node(&l), pda(b"tail"));
}

#[test]
fn update_fees_and_transfer_fee_authority() {
    let mut l = initialized();
    let mut keys = init_keys(ADMIN);
    keys.truncate(9);
    l.run(&keys, &fee_input(1, 7)).unwrap();
    let meta = read_meta_slot(&l.slots[&pda(b"meta")].data).unwrap();
    assert_eq!(meta.fee_amount, 7);
    let r = l.run(&keys.iter().map(|k| if *k == ADMIN { PAYER } else { *k }).collect::<Vec<_>>(), &fee_input(1, 9));
    assert!(matches!(r, Err(RegistryError::InvalidFeeUpdateAuthority)));
    l.run(&[ADMIN, PAYER, pda(b"meta")], &[5]).unwrap();
    let meta = read_meta_slot(&l.slots[&pda(b"meta")].data).unwrap();
    assert_eq!(meta.fee_update_authority, PAYER);
    let r = l.run(&[ADMIN, PAYER, pda(b"meta")], &[5]);
    assert!(matches!(r, Err(RegistryError::InvalidFeeUpdateAuthority)));
}

#[test]
fn gate_errors() {
    let mut l = initialized();
    let keys = create_keys(&l, PAYER, MINT_A);
    let input = entry_input(2, "AAA");
    assert!(matches!(l.run(&keys[..9], &input), Err(RegistryError::InvalidNumberOfAccounts)));
    let mut bad = keys.clone();
    bad[1] = PAYER;
    assert!(matches!(l.run(&bad, &input), Err(RegistryError::InvalidMint)));
    l.put([30; 32], token(), vec![]);
    bad[1] = [30; 32];
    assert!(matches!(l.run(&bad, &input), Err(RegistryError::UninitializedMint)));
    let mut bad = keys.clone();
    bad[4] = token();
    assert!(matches!(l.run(&bad, &input), Err(RegistryError::InvalidSystemProgram)));
    let mut bad = keys.clone();
    bad[5] = system();
    assert!(matches!(l.run(&bad, &input), Err(RegistryError::InvalidTokenProgram)));
    let mut bad = keys.clone();
    bad[6] = pda(b"head");
    assert!(matches!(l.run(&bad, &input), Err(RegistryError::InvalidProgramDerivedAccount)));
    let mut bad = keys.clone();
    bad[8] = pda(b"head");
    assert!(matches!(l.run(&bad, &input), Err(RegistryError::InvalidRegistryNodeFirst)));
    let mut bad = keys.clone();
    bad[2] = ata(ADMIN, FEE_MINT);
    assert!(matches!(l.run(&bad, &input), Err(RegistryError::InvalidAssociatedTokenAccount)));
    let mut bad = keys.clone();
    bad[0] = COLLECTOR;
    bad[2] = ata(COLLECTOR, FEE_MINT);
    l.slots.remove(&ata(COLLECTOR, FEE_MINT));
    assert!(matches!(
        l.run(&bad, &input),
        Err(RegistryError::UninitializedAssociatedTokenAccount)
    ));
}

#[test]
fn user_account_errors() {
    let mut l = initialized();
    let keys = create_keys(&l, PAYER, MINT_A);
    let input = entry_input(2, "AAA");
    let accounts = l.inputs(&keys, 99);
    assert!(matches!(
        Processor::process(&PROGRAM, &accounts, &input),
        Err(RegistryError::InvalidUserAccount)
    ));
    l.put(PAYER, token(), vec![]);
    assert!(matches!(l.run(&keys, &input), Err(RegistryError::InvalidSystemAccount)));
}

#[test]
fn initialize_program_errors() {
    let mut l = Ledger::new();
    let keys = init_keys(ADMIN);
    let mut bad = keys.clone();
    bad[6] = system();
    assert!(matches!(l.run(&bad, &fee_input(0, 1)), Err(RegistryError::InvalidATAProgram)));
    let mut bad = keys.clone();
    bad[7] = system();
    assert!(matches!(l.run(&bad, &fee_input(0, 1)), Err(RegistryError::InvalidSysvarRentProgram)));
    let r = l.run(&node_keys(PAYER, MINT_A), &[3]);
    assert!(matches!(r, Err(RegistryError::NotYetInitialized)));
}

#[test]
fn delete_of_unregistered_mint() {
    let mut l = initialized();
    let r = l.run(&node_keys(PAYER, MINT_A), &[3]);
    assert!(matches!(r, Err(RegistryError::NotYetRegisteredMint)));
}

#[test]
fn derived_addresses_match_the_host() {
    let (k, b) = derive_address(&PROGRAM, b"meta").unwrap();
    let (pk, pb) = Pubkey::find_program_address(&[b"meta"], &Pubkey::new_from_array(PROGRAM));
    assert_eq!(k, pk.to_bytes());
    assert_eq!(b, pb);
    let long = [5u8; 40];
    let (k, _) = derive_address(&PROGRAM, &long).unwrap();
    assert_eq!(k, pda(&long[..32]));
    assert_eq!(
        token_registry::addressing::derive_associated_token_address(&PAYER, &FEE_MINT).unwrap(),
        ata(PAYER, FEE_MINT)
    );
}

#[test]
fn program_ids_are_the_documented_bytes() {
    assert_eq!(system(), [0u8; 32]);
    assert_eq!(
        token(),
        [
            6, 221, 246, 225, 215, 101, 161, 147, 217, 203, 225, 70, 206, 235, 121, 172, 28, 180,
            133, 237, 95, 91, 55, 145, 58, 140, 245, 133, 126, 255, 0, 169
        ]
    );
    assert_eq!(
        spl_associated_token_account::id().to_bytes(),
        [
            140, 151, 37, 143, 78, 36, 137, 241, 187, 61, 16, 41, 20, 142, 13, 131, 11, 90, 19,
            153, 218, 255, 16, 132, 4, 142, 123, 216, 219, 233, 248, 89
        ]
    );
    assert_eq!(
        solana_program::sysvar::rent::id().to_bytes(),
        [
            6, 167, 213, 23, 25, 44, 92, 81, 33, 140, 201, 76, 61, 74, 241, 127, 88, 218, 238, 8,
            155, 161, 253, 68, 227, 219, 217, 138, 0, 0, 0, 0
        ]
    );
}
