use lazy_storage::key::Key;
use lazy_storage::lazy_cell::LazyCell;
use lazy_storage::off_chain::{
    advance_block, default_accounts, get_account_balance, get_contract_rent_allowance,
    get_contract_storage_rw, initialize_or_reset_as_default, pop_execution_context,
    push_execution_context, recorded_events, run_test, set_account_balance,
    set_block_entropy, set_contract_rent_allowance, update_chain_spec, AccountId, ChainSpec,
    OffChainEnv, OffChainError,
};

fn fresh_env() -> OffChainEnv {
    let mut env = OffChainEnv::new();
    initialize_or_reset_as_default(&mut env).unwrap();
    env
}

fn contract_id() -> AccountId {
    AccountId::from_bytes([0x07; 32])
}

#[test]
fn default_accounts_have_repeated_bytes() {
    let d = default_accounts().unwrap();
    assert_eq!(d.alice, AccountId::from_bytes([0x01; 32]));
    assert_eq!(d.bob, AccountId::from_bytes([0x02; 32]));
    assert_eq!(d.charlie, AccountId::from_bytes([0x03; 32]));
    assert_eq!(d.django, AccountId::from_bytes([0x04; 32]));
    assert_eq!(d.eve, AccountId::from_bytes([0x05; 32]));
    assert_eq!(d.frank, AccountId::from_bytes([0x06; 32]));
}

#[test]
fn reset_gives_default_balances() {
    let env = fresh_env();
    let d = default_accounts().unwrap();
    assert_eq!(get_account_balance(&env, d.alice), Ok(1_000_000));
    assert_eq!(get_account_balance(&env, d.bob), Ok(1_000));
    assert_eq!(get_account_balance(&env, d.frank), Ok(0));
    assert_eq!(get_account_balance(&env, contract_id()), Ok(20));
    assert_eq!(env.exec_context.len(), 1);
    assert_eq!(env.exec_context[0].caller, d.alice);
    assert_eq!(env.exec_context[0].callee, contract_id());
    assert_eq!(env.blocks.len(), 1);
    assert_eq!(env.chain_spec.block_time, 5);
    assert_eq!(recorded_events(&env).len(), 0);
}

#[test]
fn balances_can_be_set() {
    let mut env = fresh_env();
    let d = default_accounts().unwrap();
    assert_eq!(set_account_balance(&mut env, d.eve, 77), Ok(()));
    assert_eq!(get_account_balance(&env, d.eve), Ok(77));
    assert_eq!(get_account_balance(&env, d.bob), Ok(1_000));
}

#[test]
fn unknown_accounts_are_reported() {
    let mut env = fresh_env();
    let nobody = AccountId::from_bytes([0x99; 32]);
    assert_eq!(
        set_account_balance(&mut env, nobody, 1),
        Err(OffChainError::NoAccountForId(nobody))
    );
    assert_eq!(
        get_account_balance(&env, nobody),
        Err(OffChainError::NoAccountForId(nobody))
    );
    assert_eq!(
        get_contract_storage_rw(&env, &nobody),
        Err(OffChainError::NoAccountForId(nobody))
    );
}

#[test]
fn rent_allowance_is_for_contracts_only() {
    let mut env = fresh_env();
    let d = default_accounts().unwrap();
    assert_eq!(get_contract_rent_allowance(&env, contract_id()), Ok(0));
    assert_eq!(set_contract_rent_allowance(&mut env, contract_id(), 9), Ok(()));
    assert_eq!(get_contract_rent_allowance(&env, contract_id()), Ok(9));
    assert_eq!(
        set_contract_rent_allowance(&mut env, d.alice, 9),
        Err(OffChainError::UnexpectedUserAccount)
    );
    assert_eq!(
        get_contract_rent_allowance(&env, d.alice),
        Err(OffChainError::UnexpectedUserAccount)
    );
}

#[test]
fn contract_storage_counts_cell_access() {
    let mut env = fresh_env();
    assert_eq!(get_contract_storage_rw(&env, &contract_id()), Ok((0, 0)));
    {
        let store = &mut env.accounts[6].contract.as_mut().unwrap().storage;
        let mut cell = <LazyCell<u8>>::lazy(Key::from_bytes([0x42; 32]));
        assert_eq!(cell.get(store), None);
        cell.set(1);
        cell.push_spread(&mut lazy_storage::key_ptr::KeyPtr::from_key(Key::from_bytes([0x42; 32])), store);
    }
    assert_eq!(get_contract_storage_rw(&env, &contract_id()), Ok((1, 1)));
}

#[test]
fn execution_contexts_nest() {
    let mut env = fresh_env();
    let d = default_accounts().unwrap();
    push_execution_context(&mut env, d.bob, d.charlie, 10, 2, vec![1, 2]);
    assert_eq!(env.exec_context.len(), 2);
    assert_eq!(env.exec_context[1].caller, d.bob);
    assert_eq!(env.exec_context[1].call_data, vec![1, 2]);
    pop_execution_context(&mut env);
    pop_execution_context(&mut env);
    pop_execution_context(&mut env);
    assert_eq!(env.exec_context.len(), 0);
}

#[test]
fn blocks_advance_by_the_block_time() {
    let mut env = fresh_env();
    assert_eq!(set_block_entropy(&mut env, [0x33; 32]), Ok(()));
    assert_eq!(env.blocks[0].entropy, [0x33; 32]);
    assert_eq!(advance_block(&mut env), Ok(()));
    assert_eq!(advance_block(&mut env), Ok(()));
    assert_eq!(env.blocks.len(), 3);
    assert_eq!(env.blocks[2].number, 2);
    assert_eq!(env.blocks[2].timestamp, 10);
    assert_eq!(env.blocks[2].entropy, [0; 32]);
}

#[test]
fn blocks_must_exist() {
    let mut env = OffChainEnv::new();
    assert_eq!(advance_block(&mut env), Err(OffChainError::UninitializedBlocks));
    assert_eq!(
        set_block_entropy(&mut env, [0; 32]),
        Err(OffChainError::UninitializedBlocks)
    );
}

#[test]
fn chain_spec_is_updated_by_the_closure() {
    let mut env = fresh_env();
    let r = update_chain_spec(&mut env, |c: ChainSpec| ChainSpec { block_time: 12, ..c });
    assert_eq!(r, Ok(()));
    assert_eq!(env.chain_spec.block_time, 12);
    assert_eq!(env.chain_spec.minimum_balance, 42);
}

#[test]
fn run_test_hands_over_a_default_environment() {
    let r = run_test(|env, accounts| {
        assert_eq!(get_account_balance(&env, accounts.alice), Ok(1_000_000));
        Err(OffChainError::UninitializedBlocks)
    });
    assert_eq!(r, Err(OffChainError::UninitializedBlocks));
    assert_eq!(run_test(|_, _| Ok(())), Ok(()));
}
