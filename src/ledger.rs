//! The execution ledger and its bootstrap: the configuration used for tests,
//! the accounts of the genesis state, the faucet funding, and the fork overlay.

use vstd::prelude::*;

verus! {

/// 2^128, the base of the two halves of a 256-bit word.
pub open spec fn half_base() -> nat {
    0x1_0000_0000_0000_0000_0000_0000_0000_0000nat
}

/// The largest value a 256-bit word can hold.
pub open spec fn max_word() -> nat {
    (half_base() * half_base() - 1) as nat
}

/// An unsigned 256-bit word, as a high and a low half.
#[derive(Clone, Copy, Debug, PartialEq, Eq, Structural)]
pub struct Word256 {
    pub hi: u128,
    pub lo: u128,
}

impl Word256 {
    pub open spec fn value(&self) -> nat {
        self.hi as nat * half_base() + self.lo as nat
    }

    /// Zero.
    pub fn zero() -> (r: Word256)
        ensures
            r.value() == 0,
    {
        Word256 { hi: 0, lo: 0 }
    }

    /// The largest representable value.
    pub fn max() -> (r: Word256)
        ensures
            r.value() == max_word(),
    {
        let r = Word256 { hi: u128::MAX, lo: u128::MAX };
        assert(r.value() == max_word()) by (nonlinear_arith)
            requires
                r.hi as nat == half_base() - 1,
                r.lo as nat == half_base() - 1,
        ;
        r
    }
}

/// A 20-byte account address.
#[derive(Clone, Copy, Debug)]
pub struct Address {
    pub bytes: [u8; 20],
}

/// Two addresses name the same account.
pub open spec fn same_address(a: Address, b: Address) -> bool {
    a.bytes@ == b.bytes@
}

impl Address {
    /// Whether `self` and `other` name the same account.
    pub fn same_as(&self, other: &Address) -> (r: bool)
        ensures
            r == same_address(*self, *other),
    {
        let mut i: usize = 0;
        while i < 20
            invariant
                0 <= i <= 20,
                self.bytes@.len() == 20,
                other.bytes@.len() == 20,
                forall|k: int| 0 <= k < i ==> self.bytes@[k] == other.bytes@[k],
            decreases 20 - i,
        {
            if self.bytes[i] != other.bytes[i] {
                return false;
            }
            i += 1;
        }
        assert(self.bytes@ =~= other.bytes@);
        true
    }
}

/// The state of one account.
pub struct AccountState {
    pub nonce: u64,
    pub balance: Word256,
    pub code: Vec<u8>,
}

/// One account of the ledger and its address.
pub struct LedgerEntry {
    pub address: Address,
    pub account: AccountState,
}

/// The chain and block context a ledger is set in.
#[derive(Clone, Copy, Debug)]
pub struct Vicinity {
    pub chain_id: u64,
    pub block_number: u64,
    pub block_timestamp: u64,
    pub block_gas_limit: u64,
    pub base_fee: Word256,
    pub gas_price: Word256,
    pub coinbase: Address,
    pub origin: Address,
}

/// An in-memory ledger: its context and its accounts, each address once.
pub struct Ledger {
    pub vicinity: Vicinity,
    pub accounts: Vec<LedgerEntry>,
}

/// No address occurs twice.
pub open spec fn distinct_addresses(entries: Seq<LedgerEntry>) -> bool {
    forall|i: int, j: int|
        0 <= i < j < entries.len() ==> !same_address(entries[i].address, entries[j].address)
}

/// Some entry holds the account at `a`.
pub open spec fn has_account(entries: Seq<LedgerEntry>, a: Address) -> bool {
    exists|i: int| 0 <= i < entries.len() && same_address(#[trigger] entries[i].address, a)
}

/// The account at `faucet` exists and holds the largest balance.
pub open spec fn faucet_saturated(entries: Seq<LedgerEntry>, faucet: Address) -> bool {
    &&& has_account(entries, faucet)
    &&& forall|i: int|
        0 <= i < entries.len() && same_address(#[trigger] entries[i].address, faucet)
            ==> entries[i].account.balance.value() == max_word()
}

/// `after` is `before` with the faucet's balance overwritten by the largest
/// value: an existing faucet keeps its nonce and code, a missing one is added
/// last as a fresh account, and every other account is left as it was.
pub open spec fn funded(before: Seq<LedgerEntry>, after: Seq<LedgerEntry>, faucet: Address) -> bool {
    &&& forall|i: int|
        0 <= i < before.len() ==> (#[trigger] after[i]).address == before[i].address
    &&& forall|i: int|
        0 <= i < before.len() && !same_address(before[i].address, faucet) ==> #[trigger] after[i]
            == before[i]
    &&& forall|i: int|
        0 <= i < before.len() && same_address(before[i].address, faucet) ==> {
            &&& (#[trigger] after[i]).account.balance.value() == max_word()
            &&& after[i].account.nonce == before[i].account.nonce
            &&& after[i].account.code == before[i].account.code
        }
    &&& if has_account(before, faucet) {
        after.len() == before.len()
    } else {
        &&& after.len() == before.len() + 1
        &&& same_address(after.last().address, faucet)
        &&& after.last().account.balance.value() == max_word()
        &&& after.last().account.nonce == 0
        &&& after.last().account.code@.len() == 0
    }
}

/// Two ledgers hold the same accounts, in the same order.
pub open spec fn same_entries(a: Seq<LedgerEntry>, b: Seq<LedgerEntry>) -> bool {
    &&& a.len() == b.len()
    &&& forall|i: int|
        0 <= i < a.len() ==> {
            &&& same_address((#[trigger] a[i]).address, b[i].address)
            &&& a[i].account.nonce == b[i].account.nonce
            &&& a[i].account.balance == b[i].account.balance
            &&& a[i].account.code@ == b[i].account.code@
        }
}

impl Ledger {
    pub open spec fn wf(&self) -> bool {
        distinct_addresses(self.accounts@)
    }

    /// A ledger in context `vicinity` with no account.
    pub fn empty(vicinity: Vicinity) -> (r: Ledger)
        ensures
            r.wf(),
            r.vicinity == vicinity,
            r.accounts@.len() == 0,
    {
        Ledger { vicinity, accounts: Vec::new() }
    }

    /// The position of the account at `a`, if the ledger holds it.
    pub fn find(&self, a: &Address) -> (r: Option<usize>)
        requires
            self.wf(),
        ensures
            r.is_none() <==> !has_account(self.accounts@, *a),
            r matches Some(i) ==> i < self.accounts@.len() && same_address(
                self.accounts@[i as int].address,
                *a,
            ),
    {
        let n = self.accounts.len();
        let mut i: usize = 0;
        while i < n
            invariant
                n == self.accounts@.len(),
                0 <= i <= n,
                forall|k: int| 0 <= k < i ==> !same_address(#[trigger] self.accounts@[k].address, *a),
            decreases n - i,
        {
            if self.accounts[i].address.same_as(a) {
                return Some(i);
            }
            i += 1;
        }
        None
    }

    /// Adds the account at `address`, which the ledger must not hold yet.
    pub fn insert_account(&mut self, address: Address, account: AccountState)
        requires
            old(self).wf(),
            !has_account(old(self).accounts@, address),
        ensures
            final(self).wf(),
            final(self).vicinity == old(self).vicinity,
            final(self).accounts@ == old(self).accounts@.push(LedgerEntry { address, account }),
    {
        self.accounts.push(LedgerEntry { address, account });
        assert forall|i: int, j: int|
            0 <= i < j < self.accounts@.len() implies !same_address(
            self.accounts@[i].address,
            self.accounts@[j].address,
        ) by {
            if j == self.accounts@.len() - 1 {
                assert(!same_address(old(self).accounts@[i].address, address));
            }
        }
    }

    /// Sets the faucet's balance to the largest value, overwriting any earlier
    /// balance, and creates the faucet's account if the ledger lacks it.
    pub fn fund_faucet(&mut self, faucet: &Address)
        requires
            old(self).wf(),
        ensures
            final(self).wf(),
            final(self).vicinity == old(self).vicinity,
            funded(old(self).accounts@, final(self).accounts@, *faucet),
            faucet_saturated(final(self).accounts@, *faucet),
    {
        let ghost before = self.accounts@;
        match self.find(faucet) {
            Some(i) => {
                let mut e = self.accounts.remove(i);
                e.account.balance = Word256::max();
                self.accounts.insert(i, e);
                assert forall|k: int|
                    0 <= k < before.len() && same_address(
                        #[trigger] self.accounts@[k].address,
                        *faucet,
                    ) implies k == i by {
                    if k != i {
                        assert(self.accounts@[k] == before[k]);
                        if k < i {
                            assert(!same_address(before[k].address, before[i as int].address));
                        } else {
                            assert(!same_address(before[i as int].address, before[k].address));
                        }
                    }
                }
                assert(same_address(self.accounts@[i as int].address, *faucet));
            },
            None => {
                let account = AccountState { nonce: 0, balance: Word256::max(), code: Vec::new() };
                self.insert_account(*faucet, account);
                assert(same_address(self.accounts@[before.len() as int].address, *faucet));
            },
        }
    }
}

/// The configuration profile of the virtual machine.
#[derive(Clone, Copy, Debug)]
pub struct EvmConfig {
    pub gas_limit: u64,
    /// Largest size of deployed code, or `None` for no limit.
    pub create_contract_limit: Option<usize>,
}

/// `cfg` with the contract-size limit switched off, as test contracts
/// routinely exceed production size limits.
pub fn test_config(cfg: EvmConfig) -> (r: EvmConfig)
    ensures
        r.gas_limit == cfg.gas_limit,
        r.create_contract_limit.is_none(),
{
    EvmConfig { create_contract_limit: None, ..cfg }
}

/// A remote chain to fork: its endpoint and the block to pin, or the head.
pub struct ForkSpec {
    pub endpoint: String,
    pub block: Option<u64>,
}

/// The fork decorator: where unknown accounts are read from, and the ledger's
/// accounts as they stood when it was wrapped.
pub struct ForkOverlay {
    pub fork: ForkSpec,
    pub snapshot: Vec<LedgerEntry>,
}

/// An execution environment ready to run tests.
pub struct Backend {
    pub config: EvmConfig,
    pub ledger: Ledger,
    pub fork: Option<ForkOverlay>,
}

fn copy_bytes(v: &Vec<u8>) -> (r: Vec<u8>)
    ensures
        r@ == v@,
{
    let mut r: Vec<u8> = Vec::new();
    let n = v.len();
    let mut i: usize = 0;
    while i < n
        invariant
            n == v@.len(),
            0 <= i <= n,
            r@ == v@.take(i as int),
        decreases n - i,
    {
        r.push(v[i]);
        assert(r@ =~= v@.take(i + 1));
        i += 1;
    }
    assert(v@.take(n as int) =~= v@);
    r
}

/// A copy of the accounts of a ledger.
pub fn copy_entries(entries: &Vec<LedgerEntry>) -> (r: Vec<LedgerEntry>)
    ensures
        same_entries(r@, entries@),
{
    let mut r: Vec<LedgerEntry> = Vec::new();
    let n = entries.len();
    let mut i: usize = 0;
    while i < n
        invariant
            n == entries@.len(),
            0 <= i <= n,
            same_entries(r@, entries@.take(i as int)),
        decreases n - i,
    {
        let e = &entries[i];
        let account = AccountState {
            nonce: e.account.nonce,
            balance: e.account.balance,
            code: copy_bytes(&e.account.code),
        };
        r.push(LedgerEntry { address: e.address, account });
        assert(same_entries(r@, entries@.take(i + 1)));
        i += 1;
    }
    assert(entries@.take(n as int) =~= entries@);
    r
}

/// `b` runs under the test configuration derived from `cfg`.
pub open spec fn test_configured(cfg: EvmConfig, b: Backend) -> bool {
    b.config.gas_limit == cfg.gas_limit && b.config.create_contract_limit.is_none()
}

/// `b` is the environment bootstrapped from synthetic state `genesis`.
pub open spec fn local_backend(cfg: EvmConfig, genesis: Ledger, faucet: Address, b: Backend) -> bool {
    &&& test_configured(cfg, b)
    &&& b.ledger.wf()
    &&& b.ledger.vicinity == genesis.vicinity
    &&& funded(genesis.accounts@, b.ledger.accounts@, faucet)
    &&& faucet_saturated(b.ledger.accounts@, faucet)
    &&& b.fork.is_none()
}

/// `b` is the environment bootstrapped by forking `fork` in context `vicinity`.
pub open spec fn forked_backend(
    cfg: EvmConfig,
    fork: ForkSpec,
    vicinity: Vicinity,
    faucet: Address,
    b: Backend,
) -> bool {
    &&& test_configured(cfg, b)
    &&& b.ledger.wf()
    &&& b.ledger.vicinity == vicinity
    &&& b.ledger.accounts@.len() == 1
    &&& faucet_saturated(b.ledger.accounts@, faucet)
    &&& b.fork matches Some(o) && o.fork == fork && same_entries(o.snapshot@, b.ledger.accounts@)
}

/// The environment for a run on synthetic state: `genesis` with the faucet
/// funded, under the test configuration, with no fork.
pub fn bootstrap_local(cfg: EvmConfig, genesis: Ledger, faucet: &Address) -> (r: Backend)
    requires
        genesis.wf(),
    ensures
        local_backend(cfg, genesis, *faucet, r),
{
    let mut ledger = genesis;
    ledger.fund_faucet(faucet);
    Backend { config: test_config(cfg), ledger, fork: None }
}

/// The environment for a run on a forked chain: a ledger in the fetched
/// `vicinity` holding only the funded faucet, wrapped by the fork decorator,
/// whose snapshot is that ledger's accounts.
pub fn bootstrap_forked(cfg: EvmConfig, fork: ForkSpec, vicinity: Vicinity, faucet: &Address) -> (r:
    Backend)
    ensures
        forked_backend(cfg, fork, vicinity, *faucet, r),
{
    let mut ledger = Ledger::empty(vicinity);
    ledger.fund_faucet(faucet);
    let snapshot = copy_entries(&ledger.accounts);
    Backend { config: test_config(cfg), ledger, fork: Some(ForkOverlay { fork, snapshot }) }
}

/// Funding the faucet saturates its balance whatever it held before, in a
/// ledger built from synthetic state or from a fork alike.
pub proof fn lemma_funding_saturates(before: Seq<LedgerEntry>, after: Seq<LedgerEntry>, faucet: Address)
    requires
        distinct_addresses(before),
        funded(before, after, faucet),
    ensures
        faucet_saturated(after, faucet),
{
    if has_account(before, faucet) {
        let i = choose|i: int| 0 <= i < before.len() && same_address(#[trigger] before[i].address, faucet);
        assert(same_address(after[i].address, faucet));
    } else {
        assert(same_address(after[after.len() - 1].address, faucet));
        assert forall|i: int|
            0 <= i < after.len() && same_address(#[trigger] after[i].address, faucet)
                implies after[i].account.balance.value() == max_word() by {
            if i < before.len() {
                assert(after[i].address == before[i].address);
            }
        }
    }
}

} // verus!
