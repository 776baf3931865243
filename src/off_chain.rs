use vstd::prelude::*;

use crate::key::{bytes_value, Key};
use crate::storage::Storage;

verus! {

/// A 32-byte account address.
#[derive(Clone, Copy, Debug, PartialEq, Eq, Structural)]
pub struct AccountId(pub Key);

impl AccountId {
    /// The account whose 32 address bytes are `bytes`.
    pub fn from_bytes(bytes: [u8; 32]) -> (r: AccountId)
        ensures
            r.0.value() == bytes_value(bytes@),
    {
        AccountId(Key::from_bytes(bytes))
    }

    /// The account whose 32 address bytes all equal `b`.
    pub open spec fn spec_repeated(b: u8) -> AccountId {
        let w = (b as u64) * 0x0101_0101_0101_0101u64;
        AccountId(Key { w0: w as u64, w1: w as u64, w2: w as u64, w3: w as u64 })
    }

    fn repeated(b: u8) -> (r: AccountId)
        ensures
            r == AccountId::spec_repeated(b),
    {
        let w = (b as u64) * 0x0101_0101_0101_0101u64;
        AccountId(Key { w0: w, w1: w, w2: w, w3: w })
    }
}

/// A 32-byte hash.
pub type Hash = [u8; 32];

/// An amount of value.
pub type Balance = u128;

/// The data behind one contract call.
#[derive(Debug)]
pub struct ExecContext {
    pub caller: AccountId,
    pub callee: AccountId,
    pub gas: Balance,
    pub transferred_value: Balance,
    pub call_data: Vec<u8>,
}

/// What a contract account holds beyond its balance.
pub struct ContractAccount {
    pub rent_allowance: Balance,
    pub storage: Storage,
}

/// A user account (`contract` is `None`) or a contract account.
pub struct Account {
    pub id: AccountId,
    pub balance: Balance,
    pub contract: Option<ContractAccount>,
}

/// One block of the chain.
#[derive(Clone, Copy, Debug)]
pub struct Block {
    pub number: u64,
    pub timestamp: u64,
    pub entropy: Hash,
}

/// Chain parameters.
#[derive(Clone, Copy, Debug, PartialEq, Eq, Structural)]
pub struct ChainSpec {
    pub gas_price: Balance,
    pub minimum_balance: Balance,
    pub tombstone_deposit: Balance,
    pub block_time: u64,
}

/// An event emitted by a contract: its topics and its encoded data.
#[derive(Debug)]
pub struct EmittedEvent {
    pub topics: Vec<Hash>,
    pub data: Vec<u8>,
}

/// Errors of the off-chain environment.
#[derive(Clone, Copy, Debug, PartialEq, Eq, Structural)]
pub enum OffChainError {
    /// No account has the given id.
    NoAccountForId(AccountId),
    /// The account is a user account where a contract account is needed.
    UnexpectedUserAccount,
    /// The chain has no block yet.
    UninitializedBlocks,
}

/// The in-process environment that contracts run against in tests: the
/// call stack, the accounts with their storage, the blocks, the chain
/// parameters and the events emitted so far.
pub struct OffChainEnv {
    pub exec_context: Vec<ExecContext>,
    pub accounts: Vec<Account>,
    pub blocks: Vec<Block>,
    pub chain_spec: ChainSpec,
    pub emitted_events: Vec<EmittedEvent>,
}

/// The predefined accounts of a fresh environment.
#[derive(Clone, Copy, Debug, PartialEq, Eq, Structural)]
pub struct DefaultAccounts {
    /// Holds substantial amounts of value.
    pub alice: AccountId,
    /// Holds some value.
    pub bob: AccountId,
    /// Holds some value.
    pub charlie: AccountId,
    /// Holds no value.
    pub django: AccountId,
    /// Holds no value.
    pub eve: AccountId,
    /// Holds no value.
    pub frank: AccountId,
}

/// `i` is the first position of `accounts` whose id is `id`.
pub open spec fn first_with(accounts: Seq<Account>, id: AccountId, i: int) -> bool {
    &&& 0 <= i < accounts.len()
    &&& accounts[i].id == id
    &&& forall|j: int| 0 <= j < i ==> accounts[j].id != id
}

/// Some account of `accounts` has the id `id`.
pub open spec fn has_account(accounts: Seq<Account>, id: AccountId) -> bool {
    exists|i: int| 0 <= i < accounts.len() && accounts[i].id == id
}

/// The first position of `accounts` whose id is `id`.
fn find_account(accounts: &Vec<Account>, id: &AccountId) -> (r: Option<usize>)
    ensures
        match r {
            Some(i) => first_with(accounts@, *id, i as int),
            None => !has_account(accounts@, *id),
        },
{
    let mut i: usize = 0;
    while i < accounts.len()
        invariant
            i <= accounts@.len(),
            forall|j: int| 0 <= j < i ==> accounts@[j].id != *id,
        decreases accounts@.len() - i,
    {
        if accounts[i].id == *id {
            return Some(i);
        }
        i = i + 1;
    }
    None
}

/// Pushes a contract execution context; with `pop_execution_context` this
/// emulates nested calls.
pub fn push_execution_context(
    env: &mut OffChainEnv,
    caller: AccountId,
    callee: AccountId,
    gas_limit: Balance,
    endowment: Balance,
    call_data: Vec<u8>,
)
    ensures
        final(env).exec_context@.len() == old(env).exec_context@.len() + 1,
        final(env).exec_context@.drop_last() == old(env).exec_context@,
        final(env).exec_context@.last().caller == caller,
        final(env).exec_context@.last().callee == callee,
        final(env).exec_context@.last().gas == gas_limit,
        final(env).exec_context@.last().transferred_value == endowment,
        final(env).exec_context@.last().call_data@ == call_data@,
        final(env).accounts == old(env).accounts,
        final(env).blocks == old(env).blocks,
        final(env).chain_spec == old(env).chain_spec,
        final(env).emitted_events == old(env).emitted_events,
{
    env.exec_context.push(
        ExecContext { caller, callee, gas: gas_limit, transferred_value: endowment, call_data },
    );
    assert(env.exec_context@.drop_last() =~= old(env).exec_context@);
}

/// Pops the top contract execution context, if there is one.
pub fn pop_execution_context(env: &mut OffChainEnv)
    ensures
        final(env).exec_context@ == if old(env).exec_context@.len() > 0 {
            old(env).exec_context@.drop_last()
        } else {
            old(env).exec_context@
        },
        final(env).accounts == old(env).accounts,
        final(env).blocks == old(env).blocks,
        final(env).chain_spec == old(env).chain_spec,
        final(env).emitted_events == old(env).emitted_events,
{
    let _ = env.exec_context.pop();
}


/// All of the environment but the accounts is as before.
pub open spec fn same_but_accounts(a: &OffChainEnv, b: &OffChainEnv) -> bool {
    &&& a.exec_context == b.exec_context
    &&& a.blocks == b.blocks
    &&& a.chain_spec == b.chain_spec
    &&& a.emitted_events == b.emitted_events
}

/// All of the environment but the blocks is as before.
pub open spec fn same_but_blocks(a: &OffChainEnv, b: &OffChainEnv) -> bool {
    &&& a.exec_context == b.exec_context
    &&& a.accounts == b.accounts
    &&& a.chain_spec == b.chain_spec
    &&& a.emitted_events == b.emitted_events
}

/// Sets the balance of a user or contract account.
pub fn set_account_balance(env: &mut OffChainEnv, account_id: AccountId, new_balance: Balance) -> (r:
    Result<(), OffChainError>)
    ensures
        same_but_accounts(final(env), old(env)),
        r is Ok <==> has_account(old(env).accounts@, account_id),
        r is Err ==> r == Err::<(), OffChainError>(OffChainError::NoAccountForId(account_id))
            && final(env).accounts == old(env).accounts,
        forall|i: int|
            first_with(old(env).accounts@, account_id, i) ==> final(env).accounts@
                == old(env).accounts@.update(
                i,
                Account {
                    id: account_id,
                    balance: new_balance,
                    contract: old(env).accounts@[i].contract,
                },
            ),
{
    match find_account(&env.accounts, &account_id) {
        Some(i) => {
            env.accounts[i].balance = new_balance;
            assert(env.accounts@ =~= old(env).accounts@.update(
                i as int,
                Account {
                    id: account_id,
                    balance: new_balance,
                    contract: old(env).accounts@[i as int].contract,
                },
            ));
            Ok(())
        },
        None => Err(OffChainError::NoAccountForId(account_id)),
    }
}

/// The balance of a user or contract account.
pub fn get_account_balance(env: &OffChainEnv, account_id: AccountId) -> (r: Result<
    Balance,
    OffChainError,
>)
    ensures
        r is Ok <==> has_account(env.accounts@, account_id),
        r is Err ==> r == Err::<Balance, OffChainError>(OffChainError::NoAccountForId(account_id)),
        forall|i: int|
            first_with(env.accounts@, account_id, i) ==> r == Ok::<Balance, OffChainError>(
                env.accounts@[i].balance,
            ),
{
    match find_account(&env.accounts, &account_id) {
        Some(i) => Ok(env.accounts[i].balance),
        None => Err(OffChainError::NoAccountForId(account_id)),
    }
}

/// Sets the rent allowance of a contract account.
pub fn set_contract_rent_allowance(
    env: &mut OffChainEnv,
    account_id: AccountId,
    new_rent_allowance: Balance,
) -> (r: Result<(), OffChainError>)
    ensures
        same_but_accounts(final(env), old(env)),
        !has_account(old(env).accounts@, account_id) ==> r == Err::<(), OffChainError>(
            OffChainError::NoAccountForId(account_id),
        ),
        r is Err ==> final(env).accounts == old(env).accounts,
        forall|i: int|
            first_with(old(env).accounts@, account_id, i) ==> match old(env).accounts@[i].contract {
                None => r == Err::<(), OffChainError>(OffChainError::UnexpectedUserAccount),
                Some(c) => r is Ok && final(env).accounts@ == old(env).accounts@.update(
                    i,
                    Account {
                        id: account_id,
                        balance: old(env).accounts@[i].balance,
                        contract: Some(
                            ContractAccount {
                                rent_allowance: new_rent_allowance,
                                storage: c.storage,
                            },
                        ),
                    },
                ),
            },
{
    match find_account(&env.accounts, &account_id) {
        Some(i) => {
            if env.accounts[i].contract.is_none() {
                return Err(OffChainError::UnexpectedUserAccount);
            }
            match &mut env.accounts[i].contract {
                Some(c) => {
                    c.rent_allowance = new_rent_allowance;
                },
                None => {},
            }
            let ghost c = old(env).accounts@[i as int].contract.unwrap();
            assert(env.accounts@ =~= old(env).accounts@.update(
                i as int,
                Account {
                    id: account_id,
                    balance: old(env).accounts@[i as int].balance,
                    contract: Some(
                        ContractAccount { rent_allowance: new_rent_allowance, storage: c.storage },
                    ),
                },
            ));
            Ok(())
        },
        None => Err(OffChainError::NoAccountForId(account_id)),
    }
}

/// The rent allowance of a contract account.
pub fn get_contract_rent_allowance(env: &OffChainEnv, account_id: AccountId) -> (r: Result<
    Balance,
    OffChainError,
>)
    ensures
        !has_account(env.accounts@, account_id) ==> r == Err::<Balance, OffChainError>(
            OffChainError::NoAccountForId(account_id),
        ),
        forall|i: int|
            first_with(env.accounts@, account_id, i) ==> r == match env.accounts@[i].contract {
                None => Err::<Balance, OffChainError>(OffChainError::UnexpectedUserAccount),
                Some(c) => Ok(c.rent_allowance),
            },
{
    match find_account(&env.accounts, &account_id) {
        Some(i) => match &env.accounts[i].contract {
            Some(c) => Ok(c.rent_allowance),
            None => Err(OffChainError::UnexpectedUserAccount),
        },
        None => Err(OffChainError::NoAccountForId(account_id)),
    }
}

/// The numbers of reads and writes made on a contract account's storage.
pub fn get_contract_storage_rw(env: &OffChainEnv, account_id: &AccountId) -> (r: Result<
    (usize, usize),
    OffChainError,
>)
    ensures
        !has_account(env.accounts@, *account_id) ==> r == Err::<(usize, usize), OffChainError>(
            OffChainError::NoAccountForId(*account_id),
        ),
        forall|i: int|
            first_with(env.accounts@, *account_id, i) ==> r == match env.accounts@[i].contract {
                None => Err::<(usize, usize), OffChainError>(OffChainError::UnexpectedUserAccount),
                Some(c) => Ok((c.storage.spec_reads(), c.storage.spec_writes())),
            },
{
    match find_account(&env.accounts, account_id) {
        Some(i) => match &env.accounts[i].contract {
            Some(c) => Ok((c.storage.reads(), c.storage.writes())),
            None => Err(OffChainError::UnexpectedUserAccount),
        },
        None => Err(OffChainError::NoAccountForId(*account_id)),
    }
}

/// Sets the entropy of the current block, the last one.
pub fn set_block_entropy(env: &mut OffChainEnv, entropy: Hash) -> (r: Result<(), OffChainError>)
    ensures
        same_but_blocks(final(env), old(env)),
        old(env).blocks@.len() == 0 ==> r == Err::<(), OffChainError>(
            OffChainError::UninitializedBlocks,
        ) && final(env).blocks@ == old(env).blocks@,
        old(env).blocks@.len() > 0 ==> r is Ok && final(env).blocks@ == old(env).blocks@.update(
            old(env).blocks@.len() - 1,
            Block {
                number: old(env).blocks@.last().number,
                timestamp: old(env).blocks@.last().timestamp,
                entropy,
            },
        ),
{
    let n = env.blocks.len();
    if n == 0 {
        return Err(OffChainError::UninitializedBlocks);
    }
    let cur = env.blocks[n - 1];
    env.blocks.set(n - 1, Block { number: cur.number, timestamp: cur.timestamp, entropy });
    Ok(())
}

/// Advances the chain by one block: the new block is numbered by the
/// count of blocks so far, comes one block time after the current one,
/// and starts with zero entropy.
pub fn advance_block(env: &mut OffChainEnv) -> (r: Result<(), OffChainError>)
    requires
        old(env).blocks@.len() > 0 ==> old(env).blocks@.last().timestamp
            + old(env).chain_spec.block_time <= u64::MAX,
    ensures
        same_but_blocks(final(env), old(env)),
        old(env).blocks@.len() == 0 ==> r == Err::<(), OffChainError>(
            OffChainError::UninitializedBlocks,
        ) && final(env).blocks@ == old(env).blocks@,
        old(env).blocks@.len() > 0 ==> r is Ok && final(env).blocks@.drop_last()
            == old(env).blocks@ && final(env).blocks@.len() == old(env).blocks@.len() + 1
            && final(env).blocks@.last().number == old(env).blocks@.len() as u64
            && final(env).blocks@.last().timestamp == old(env).blocks@.last().timestamp
            + old(env).chain_spec.block_time && final(env).blocks@.last().entropy@ == Seq::new(
            32,
            |i: int| 0u8,
        ),
{
    let n = env.blocks.len();
    if n == 0 {
        return Err(OffChainError::UninitializedBlocks);
    }
    let timestamp = env.blocks[n - 1].timestamp + env.chain_spec.block_time;
    let entropy: Hash = [0u8; 32];
    assert(entropy@ =~= Seq::new(32, |i: int| 0u8));
    env.blocks.push(Block { number: n as u64, timestamp, entropy });
    assert(env.blocks@.drop_last() =~= old(env).blocks@);
    Ok(())
}

/// Updates the chain parameters with `f`.
pub fn update_chain_spec<F>(env: &mut OffChainEnv, f: F) -> (r: Result<(), OffChainError>) where
    F: FnOnce(ChainSpec) -> ChainSpec,

    requires
        f.requires((old(env).chain_spec,)),
    ensures
        r is Ok,
        f.ensures((old(env).chain_spec,), final(env).chain_spec),
        final(env).exec_context == old(env).exec_context,
        final(env).accounts == old(env).accounts,
        final(env).blocks == old(env).blocks,
        final(env).emitted_events == old(env).emitted_events,
{
    env.chain_spec = f(env.chain_spec);
    Ok(())
}

/// The events emitted so far, in order.
pub fn recorded_events(env: &OffChainEnv) -> (r: &[EmittedEvent])
    ensures
        r@ == env.emitted_events@,
{
    env.emitted_events.as_slice()
}


/// Alice, Bob, Charlie, Django, Eve and Frank: the accounts whose address
/// bytes are all `1`, `2`, `3`, `4`, `5` and `6`.
pub open spec fn spec_default_accounts() -> DefaultAccounts {
    DefaultAccounts {
        alice: AccountId::spec_repeated(1),
        bob: AccountId::spec_repeated(2),
        charlie: AccountId::spec_repeated(3),
        django: AccountId::spec_repeated(4),
        eve: AccountId::spec_repeated(5),
        frank: AccountId::spec_repeated(6),
    }
}

/// The contract account of a fresh environment, whose address bytes are
/// all `7`.
pub open spec fn spec_default_contract() -> AccountId {
    AccountId::spec_repeated(7)
}

/// `a` is a user account with id `id` and balance `balance`.
pub open spec fn is_user(a: Account, id: AccountId, balance: Balance) -> bool {
    a.id == id && a.balance == balance && a.contract.is_none()
}

/// `env` is a freshly initialised environment: the six default user
/// accounts (Alice with 1 000 000, Bob and Charlie with 1 000, the others
/// with nothing), a contract account with 20 and an empty storage, one call
/// from Alice to that contract, one block, and the default chain
/// parameters.
pub open spec fn is_default_env(env: &OffChainEnv) -> bool {
    let d = spec_default_accounts();
    let a = env.accounts@;
    &&& a.len() == 7
    &&& is_user(a[0], d.alice, 1_000_000)
    &&& is_user(a[1], d.bob, 1_000)
    &&& is_user(a[2], d.charlie, 1_000)
    &&& is_user(a[3], d.django, 0)
    &&& is_user(a[4], d.eve, 0)
    &&& is_user(a[5], d.frank, 0)
    &&& a[6].id == spec_default_contract()
    &&& a[6].balance == 20
    &&& a[6].contract matches Some(c) && c.rent_allowance == 0 && c.storage.wf() && c.storage@
        == Map::<Key, Seq<u8>>::empty() && c.storage.spec_reads() == 0
        && c.storage.spec_writes() == 0
    &&& env.exec_context@.len() == 1
    &&& env.exec_context@[0].caller == d.alice
    &&& env.exec_context@[0].callee == spec_default_contract()
    &&& env.exec_context@[0].gas == 500_000
    &&& env.exec_context@[0].transferred_value == 500
    &&& env.exec_context@[0].call_data@ == seq![0u8, 0u8, 0u8, 0u8]
    &&& env.blocks@.len() == 1
    &&& env.blocks@[0].number == 0
    &&& env.blocks@[0].timestamp == 0
    &&& env.blocks@[0].entropy@ == Seq::new(32, |i: int| 0u8)
    &&& env.chain_spec == ChainSpec {
        gas_price: 100,
        minimum_balance: 42,
        tombstone_deposit: 16,
        block_time: 5,
    }
    &&& env.emitted_events@.len() == 0
}

impl OffChainEnv {
    /// An environment with nothing in it.
    pub fn new() -> (r: OffChainEnv)
        ensures
            r.exec_context@.len() == 0,
            r.accounts@.len() == 0,
            r.blocks@.len() == 0,
            r.emitted_events@.len() == 0,
            r.chain_spec == (ChainSpec {
                gas_price: 0,
                minimum_balance: 0,
                tombstone_deposit: 0,
                block_time: 0,
            }),
    {
        OffChainEnv {
            exec_context: Vec::new(),
            accounts: Vec::new(),
            blocks: Vec::new(),
            chain_spec: ChainSpec {
                gas_price: 0,
                minimum_balance: 0,
                tombstone_deposit: 0,
                block_time: 0,
            },
            emitted_events: Vec::new(),
        }
    }
}

/// The default accounts for testing: Alice, Bob, Charlie, Django, Eve and
/// Frank.
pub fn default_accounts() -> (r: Result<DefaultAccounts, OffChainError>)
    ensures
        r == Ok::<DefaultAccounts, OffChainError>(spec_default_accounts()),
{
    Ok(
        DefaultAccounts {
            alice: AccountId::repeated(1),
            bob: AccountId::repeated(2),
            charlie: AccountId::repeated(3),
            django: AccountId::repeated(4),
            eve: AccountId::repeated(5),
            frank: AccountId::repeated(6),
        },
    )
}

/// Resets the whole environment to the default state that fits most
/// tests.
pub fn initialize_or_reset_as_default(env: &mut OffChainEnv) -> (r: Result<(), OffChainError>)
    ensures
        r is Ok,
        is_default_env(final(env)),
{
    let d = match default_accounts() {
        Ok(d) => d,
        Err(e) => {
            return Err(e);
        },
    };
    let mut accounts: Vec<Account> = Vec::new();
    accounts.push(Account { id: d.alice, balance: 1_000_000, contract: None });
    accounts.push(Account { id: d.bob, balance: 1_000, contract: None });
    accounts.push(Account { id: d.charlie, balance: 1_000, contract: None });
    accounts.push(Account { id: d.django, balance: 0, contract: None });
    accounts.push(Account { id: d.eve, balance: 0, contract: None });
    accounts.push(Account { id: d.frank, balance: 0, contract: None });
    let contract = AccountId::repeated(7);
    accounts.push(
        Account {
            id: contract,
            balance: 20,
            contract: Some(ContractAccount { rent_allowance: 0, storage: Storage::new() }),
        },
    );
    let mut call_data: Vec<u8> = Vec::new();
    call_data.push(0);
    call_data.push(0);
    call_data.push(0);
    call_data.push(0);
    assert(call_data@ =~= seq![0u8, 0u8, 0u8, 0u8]);
    let mut exec_context: Vec<ExecContext> = Vec::new();
    exec_context.push(
        ExecContext {
            caller: d.alice,
            callee: contract,
            gas: 500_000,
            transferred_value: 500,
            call_data,
        },
    );
    let mut blocks: Vec<Block> = Vec::new();
    let entropy: Hash = [0u8; 32];
    assert(entropy@ =~= Seq::new(32, |i: int| 0u8));
    blocks.push(Block { number: 0, timestamp: 0, entropy });
    *env =
    OffChainEnv {
        exec_context,
        accounts,
        blocks,
        chain_spec: ChainSpec {
            gas_price: 100,
            minimum_balance: 42,
            tombstone_deposit: 16,
            block_time: 5,
        },
        emitted_events: Vec::new(),
    };
    Ok(())
}

/// Runs the test `f` on a freshly initialised environment, handing it the
/// default accounts, and returns what `f` returns.
pub fn run_test<F>(f: F) -> (r: Result<(), OffChainError>) where
    F: FnOnce(OffChainEnv, DefaultAccounts) -> Result<(), OffChainError>,

    requires
        forall|env: OffChainEnv| is_default_env(&env) ==> f.requires((env, spec_default_accounts())),
    ensures
        exists|env: OffChainEnv| is_default_env(&env) && f.ensures((env, spec_default_accounts()), r),
{
    let mut env = OffChainEnv::new();
    match initialize_or_reset_as_default(&mut env) {
        Ok(()) => {},
        Err(e) => {
            return Err(e);
        },
    }
    let accounts = match default_accounts() {
        Ok(d) => d,
        Err(e) => {
            return Err(e);
        },
    };
    f(env, accounts)
}

} // verus!
