use vstd::prelude::*;
use crate::word::{be_value, pow256, Word};
use alloy_primitives::{Address, Bytes, U256};
use core::convert::Infallible;
use revm::db::{CacheDB, EmptyDBTyped};
use revm::primitives::{AccountInfo, Bytecode, TxEnv, TxKind};
use revm::{Evm, InMemoryDB};

verus! {

#[verifier::external_type_specification]
#[verifier::external_body]
#[verifier::reject_recursive_types(ExtDB)]
pub struct ExCacheDB<ExtDB>(CacheDB<ExtDB>);

#[verifier::external_type_specification]
#[verifier::external_body]
#[verifier::reject_recursive_types(E)]
pub struct ExEmptyDBTyped<E>(EmptyDBTyped<E>);

/// The accounts that revm's in-memory database holds: for each address, its
/// balance and nonce.
pub uninterp spec fn ledger_accounts(db: CacheDB<EmptyDBTyped<Infallible>>) -> Map<Seq<u8>, (nat, nat)>;

/// The code that revm's in-memory database holds for each address: the
/// bytecode that `contracts` keeps under the account's code hash.
pub uninterp spec fn ledger_code(db: CacheDB<EmptyDBTyped<Infallible>>) -> Map<Seq<u8>, Seq<u8>>;

/// The storage slots, as address and slot number, that revm's in-memory
/// database holds a value for.
pub uninterp spec fn ledger_slots(db: CacheDB<EmptyDBTyped<Infallible>>) -> Set<(Seq<u8>, nat)>;

/// What revm makes of a transaction on a database that holds these balances
/// and nonces, this code and no storage, with the default block and
/// configuration: the outcome, and the balances and nonces afterwards.
pub uninterp spec fn engine_run(
    accounts: Map<Seq<u8>, (nat, nat)>,
    code: Map<Seq<u8>, Seq<u8>>,
    tx: Transaction,
) -> (Outcome, Map<Seq<u8>, (nat, nat)>);

/// An account to place in the database before a run.
#[derive(Clone, Debug)]
pub struct Account {
    pub address: [u8; 20],
    pub balance: Word,
    pub nonce: u64,
    pub code: Option<Vec<u8>>,
}

impl Account {
    /// Its code, if any, is legacy bytecode: it does not open with the byte
    /// `0xEF` that marks the EOF and delegation formats.
    pub open spec fn wf(self) -> bool {
        self.code matches Some(c) ==> (c@.len() == 0 || c@[0] != 0xEF)
    }

    /// Its code; an account without code has the empty code.
    pub open spec fn code_of(self) -> Seq<u8> {
        match self.code {
            Some(c) => c@,
            None => Seq::empty(),
        }
    }

    /// An account with a balance, nonce 0 and no code.
    pub fn funded(address: [u8; 20], balance: Word) -> (r: Account)
        ensures
            r.address == address,
            r.balance == balance,
            r.nonce == 0,
            r.code.is_none(),
            r.wf(),
    {
        Account { address, balance, nonce: 0, code: None }
    }

    /// An account with no balance, nonce 0 and the given code.
    pub fn contract(address: [u8; 20], code: Vec<u8>) -> (r: Account)
        requires
            code@.len() == 0 || code@[0] != 0xEF,
        ensures
            r.address == address,
            r.balance.value() == 0,
            r.nonce == 0,
            r.code == Some(code),
            r.wf(),
    {
        Account { address, balance: Word::from_u128(0), nonce: 0, code: Some(code) }
    }
}

/// The map from address to balance and nonce that inserting `accts` in order
/// into an empty database leaves: a later entry for an address replaces an
/// earlier one.
pub open spec fn accounts_map(accts: Seq<Account>) -> Map<Seq<u8>, (nat, nat)>
    decreases accts.len(),
{
    if accts.len() == 0 {
        Map::empty()
    } else {
        let a = accts.last();
        accounts_map(accts.drop_last()).insert(a.address@, (a.balance.value(), a.nonce as nat))
    }
}

/// The map from address to code that inserting `accts` in order into an
/// empty database leaves.
pub open spec fn code_map(accts: Seq<Account>) -> Map<Seq<u8>, Seq<u8>>
    decreases accts.len(),
{
    if accts.len() == 0 {
        Map::empty()
    } else {
        let a = accts.last();
        code_map(accts.drop_last()).insert(a.address@, a.code_of())
    }
}

/// A call from `caller` to `to`, carrying `value`, with no input data.
#[derive(Clone, Copy, Debug, PartialEq, Eq)]
pub struct Transaction {
    pub caller: [u8; 20],
    pub to: [u8; 20],
    pub value: Word,
    pub gas_limit: u64,
    pub gas_price: Word,
    /// The nonce that the caller must have, or `None` to skip that check.
    pub nonce: Option<u64>,
}

impl Transaction {
    /// A call that does not check the caller's nonce.
    pub fn call(caller: [u8; 20], to: [u8; 20], value: Word, gas_limit: u64, gas_price: Word) -> (r: Transaction)
        ensures
            r.caller == caller,
            r.to == to,
            r.value == value,
            r.gas_limit == gas_limit,
            r.gas_price == gas_price,
            r.nonce.is_none(),
    {
        Transaction { caller, to, value, gas_limit, gas_price, nonce: None }
    }
}

/// What the engine made of a transaction.
#[derive(Clone, Debug)]
pub enum Outcome {
    /// The transaction was not valid (funds, gas, nonce) and changed nothing;
    /// `reason` describes the engine's error.
    Rejected { reason: String },
    /// The transaction ran and its changes were committed: `success` tells
    /// whether it ended without revert or halt, `output` is the returned data
    /// of a call or revert.
    Executed { success: bool, output: Option<Vec<u8>> },
}

/// The number that the output of an executed run spells as a big-endian
/// word, where there is an output and the number fits in 256 bits.
pub open spec fn output_value(outcome: Outcome) -> Option<nat> {
    match outcome {
        Outcome::Executed { output: Some(o), .. } => if be_value(o@) < pow256(32) {
            Some(be_value(o@))
        } else {
            None
        },
        _ => None,
    }
}

/// What a run reports.
#[derive(Clone, Debug)]
pub struct Report {
    pub outcome: Outcome,
    /// The output read as a big-endian word, where there is one and it fits.
    pub return_word: Option<Word>,
    /// The balance of the transaction's target after the run, where the run
    /// executed and the database holds that account.
    pub target_balance: Option<Word>,
}

/// The report on an outcome, given the target's balance read after the run.
pub fn report_of(outcome: Outcome, target_balance: Option<Word>) -> (r: Report)
    ensures
        r.outcome == outcome,
        outcome is Rejected ==> r.return_word.is_none() && r.target_balance.is_none(),
        outcome is Executed ==> r.target_balance == target_balance,
        r.return_word.is_some() <==> output_value(outcome).is_some(),
        r.return_word matches Some(w) ==> output_value(outcome) == Some(w.value()),
{
    match &outcome {
        Outcome::Rejected { .. } => Report { outcome, return_word: None, target_balance: None },
        Outcome::Executed { success, output } => {
            let return_word = match output {
                Some(o) => Word::from_be_bytes(o.as_slice()),
                None => None,
            };
            Report { outcome, return_word, target_balance }
        },
    }
}

/// A database that holds the given accounts, inserted in order.
pub fn seed_ledger(accts: &Vec<Account>) -> (r: InMemoryDB)
    requires
        forall|i: int| 0 <= i < accts@.len() ==> (#[trigger] accts@[i]).wf(),
    ensures
        ledger_accounts(r) == accounts_map(accts@),
        ledger_code(r) == code_map(accts@),
        ledger_slots(r).is_empty(),
{
    let mut db = new_ledger();
    let mut i: usize = 0;
    while i < accts.len()
        invariant
            i <= accts@.len(),
            forall|j: int| 0 <= j < accts@.len() ==> (#[trigger] accts@[j]).wf(),
            ledger_accounts(db) == accounts_map(accts@.take(i as int)),
            ledger_code(db) == code_map(accts@.take(i as int)),
            ledger_slots(db).is_empty(),
        decreases accts@.len() - i,
    {
        insert_account(&mut db, &accts[i]);
        assert(accts@.take(i + 1).drop_last() =~= accts@.take(i as int));
        i = i + 1;
    }
    assert(accts@.take(i as int) =~= accts@);
    db
}

/// Places the accounts in a fresh database, runs the transaction on it and
/// commits, then reports the outcome, the output read as a word, and the
/// target's balance afterwards.
pub fn execute(accts: &Vec<Account>, tx: &Transaction) -> (r: Report)
    requires
        forall|i: int| 0 <= i < accts@.len() ==> (#[trigger] accts@[i]).wf(),
    ensures
        ({
            let run = engine_run(accounts_map(accts@), code_map(accts@), *tx);
            &&& r.outcome == run.0
            &&& r.target_balance.is_some() <==> (run.0 is Executed && run.1.contains_key(tx.to@))
            &&& r.target_balance matches Some(w) ==> w.value() == run.1[tx.to@].0
        }),
        r.outcome is Rejected ==> r.return_word.is_none() && r.target_balance.is_none(),
        r.return_word.is_some() <==> output_value(r.outcome).is_some(),
        r.return_word matches Some(w) ==> output_value(r.outcome) == Some(w.value()),
{
    let db = seed_ledger(accts);
    let (outcome, db) = transact_commit(db, tx);
    let target_balance = match outcome {
        Outcome::Executed { .. } => account_balance(&db, &tx.to),
        Outcome::Rejected { .. } => None,
    };
    report_of(outcome, target_balance)
}

/// Relies on `CacheDB::default`, which starts with no accounts.
#[verifier::external_body]
fn new_ledger() -> (r: InMemoryDB)
    ensures
        ledger_accounts(r).dom().is_empty(),
        ledger_code(r).dom().is_empty(),
        ledger_slots(r).is_empty(),
{
    InMemoryDB::default()
}

/// Relies on `CacheDB::insert_account_info`, which sets the balance, nonce and
/// code of the address's entry and keeps its storage (a new entry has none),
/// and on `Bytecode::new_raw`, which keeps the bytes of legacy code and panics
/// only on code that opens with `0xEF`.
#[verifier::external_body]
fn insert_account(db: &mut InMemoryDB, a: &Account)
    requires
        a.wf(),
    ensures
        ledger_accounts(*final(db)) == ledger_accounts(*old(db)).insert(
            a.address@,
            (a.balance.value(), a.nonce as nat),
        ),
        ledger_code(*final(db)) == ledger_code(*old(db)).insert(a.address@, a.code_of()),
        ledger_slots(*final(db)) == ledger_slots(*old(db)),
{
    let info = AccountInfo {
        balance: U256::from_limbs(a.balance.limbs),
        nonce: a.nonce,
        code: a.code.clone().map(Bytes::from).map(Bytecode::new_raw),
        ..Default::default()
    };
    db.insert_account_info(Address::from(a.address), info);
}

/// Relies on the `accounts` map of `CacheDB`: the entry of an address, and
/// its balance.
#[verifier::external_body]
fn account_balance(db: &InMemoryDB, address: &[u8; 20]) -> (r: Option<Word>)
    ensures
        r.is_some() <==> ledger_accounts(*db).contains_key(address@),
        r matches Some(w) ==> w.value() == ledger_accounts(*db)[address@].0,
{
    db.accounts.get(&Address::from(*address)).map(|acc| Word { limbs: *acc.info.balance.as_limbs() })
}

/// Relies on revm's `Evm::transact_commit`, run on the database with the
/// default block and configuration: whether the transaction was valid (and the
/// `Debug` text of the error where not), and if so whether it succeeded and
/// what it returned. The database comes back with the changes committed.
#[verifier::external_body]
fn transact_commit(db: InMemoryDB, tx: &Transaction) -> (r: (Outcome, InMemoryDB))
    requires
        ledger_slots(db).is_empty(),
    ensures
        r.0 == engine_run(ledger_accounts(db), ledger_code(db), *tx).0,
        ledger_accounts(r.1) == engine_run(ledger_accounts(db), ledger_code(db), *tx).1,
{
    let env = TxEnv {
        caller: Address::from(tx.caller),
        transact_to: TxKind::Call(Address::from(tx.to)),
        value: U256::from_limbs(tx.value.limbs),
        gas_limit: tx.gas_limit,
        gas_price: U256::from_limbs(tx.gas_price.limbs),
        nonce: tx.nonce,
        ..Default::default()
    };
    let mut evm = Evm::builder().with_db(db).with_tx_env(env).build();
    let outcome = match evm.transact_commit() {
        Ok(res) => Outcome::Executed { success: res.is_success(), output: res.output().map(|o| o.to_vec()) },
        Err(e) => Outcome::Rejected { reason: format!("{:?}", e) },
    };
    (outcome, evm.into_context().evm.inner.db)
}

} // verus!
