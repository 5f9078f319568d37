//! The contract's environment: its storage, and the record of what it has
//! asked of the host (authorisations, token transfers, events, upgrades).
use vstd::prelude::*;
use crate::data::{Address, ErrandData, Rates};
use crate::events::Event;
use crate::table::Table;

verus! {

/// A request that the contract makes of its host, in the order made.
#[derive(Debug, PartialEq, Eq)]
pub enum HostCall {
    /// The address must have authorised the invocation; the host aborts it otherwise.
    RequireAuth(Address),
    /// Transfer `amount` of the token `asset` from `from` to this contract.
    TakeAsset { from: Address, asset: Address, amount: i128 },
    /// Transfer `amount` of the token `asset` from this contract to `to`.
    SendAsset { to: Address, asset: Address, amount: i128 },
    /// Publish an event.
    Publish(Event),
    /// Replace the contract's code by the code with this hash.
    UpdateContractWasm([u8; 32]),
    /// Extend the lifetime of the contract instance to `extend_to` ledgers
    /// when fewer than `threshold` remain.
    ExtendInstanceTtl { threshold: u32, extend_to: u32 },
    /// Extend the lifetime of the reserve deposit entry of `asset` to
    /// `extend_to` ledgers when fewer than `threshold` remain.
    ExtendReserveTtl { asset: Address, threshold: u32, extend_to: u32 },
}

/// The environment as a mathematical value.
#[verifier::ext_equal]
pub struct EnvView {
    pub admin: Option<Address>,
    pub errandgo_account: Option<Address>,
    pub paymaster: Option<Address>,
    pub payment_asset: Option<Address>,
    pub rates: Option<Rates>,
    /// The reserve deposit tracked for each asset, by the asset's strkey.
    pub reserve_deposits: Map<Seq<char>, i128>,
    /// The errands in escrow, by errand id.
    pub errands: Map<Seq<char>, ErrandData>,
    /// What the contract has asked of the host, oldest first.
    pub calls: Seq<HostCall>,
}

impl EnvView {
    /// An environment in which nothing is stored and nothing was asked.
    pub open spec fn empty() -> EnvView {
        EnvView {
            admin: None,
            errandgo_account: None,
            paymaster: None,
            payment_asset: None,
            rates: None,
            reserve_deposits: Map::empty(),
            errands: Map::empty(),
            calls: Seq::empty(),
        }
    }

    /// The same environment with one more request to the host.
    pub open spec fn call(self, c: HostCall) -> EnvView {
        EnvView { calls: self.calls.push(c), ..self }
    }
}

/// The storage of one contract instance and the record of its host requests.
pub struct Env {
    admin: Option<Address>,
    errandgo_account: Option<Address>,
    paymaster: Option<Address>,
    payment_asset: Option<Address>,
    rates: Option<Rates>,
    reserve_deposits: Table<i128>,
    errands: Table<ErrandData>,
    calls: Vec<HostCall>,
}

fn clone_address_option(a: &Option<Address>) -> (r: Option<Address>)
    ensures
        r == *a,
{
    match a {
        Some(x) => Some(x.clone()),
        None => None,
    }
}

impl View for Env {
    type V = EnvView;

    closed spec fn view(&self) -> EnvView {
        EnvView {
            admin: self.admin,
            errandgo_account: self.errandgo_account,
            paymaster: self.paymaster,
            payment_asset: self.payment_asset,
            rates: self.rates,
            reserve_deposits: self.reserve_deposits@,
            errands: self.errands@,
            calls: self.calls@,
        }
    }
}

impl Env {
    /// A fresh environment: empty storage, no requests.
    pub fn new() -> (e: Env)
        ensures
            e@ == EnvView::empty(),
    {
        let e = Env {
            admin: None,
            errandgo_account: None,
            paymaster: None,
            payment_asset: None,
            rates: None,
            reserve_deposits: Table::new(),
            errands: Table::new(),
            calls: Vec::new(),
        };
        assert(e@ =~= EnvView::empty());
        e
    }

    /// The requests made of the host so far, oldest first.
    pub fn calls(&self) -> (r: &Vec<HostCall>)
        ensures
            r@ == self@.calls,
    {
        &self.calls
    }

    /// Records a request to the host.
    pub fn record(&mut self, c: HostCall)
        ensures
            final(self)@ == old(self)@.call(c),
    {
        self.calls.push(c);
        assert(self@ =~= old(self)@.call(c));
    }

    /// The stored administrator.
    pub fn stored_admin(&self) -> (r: Option<Address>)
        ensures
            r == self@.admin,
    {
        clone_address_option(&self.admin)
    }

    /// Stores the administrator.
    pub fn store_admin(&mut self, a: Address)
        ensures
            final(self)@ == (EnvView { admin: Some(a), ..old(self)@ }),
    {
        self.admin = Some(a);
        assert(self@ =~= (EnvView { admin: Some(a), ..old(self)@ }));
    }

    /// The stored treasury account.
    pub fn stored_errandgo_account(&self) -> (r: Option<Address>)
        ensures
            r == self@.errandgo_account,
    {
        clone_address_option(&self.errandgo_account)
    }

    /// Stores the treasury account.
    pub fn store_errandgo_account(&mut self, a: Address)
        ensures
            final(self)@ == (EnvView { errandgo_account: Some(a), ..old(self)@ }),
    {
        self.errandgo_account = Some(a);
        assert(self@ =~= (EnvView { errandgo_account: Some(a), ..old(self)@ }));
    }

    /// The stored paymaster.
    pub fn stored_paymaster(&self) -> (r: Option<Address>)
        ensures
            r == self@.paymaster,
    {
        clone_address_option(&self.paymaster)
    }

    /// Stores the paymaster.
    pub fn store_paymaster(&mut self, a: Address)
        ensures
            final(self)@ == (EnvView { paymaster: Some(a), ..old(self)@ }),
    {
        self.paymaster = Some(a);
        assert(self@ =~= (EnvView { paymaster: Some(a), ..old(self)@ }));
    }

    /// The stored payment asset.
    pub fn stored_payment_asset(&self) -> (r: Option<Address>)
        ensures
            r == self@.payment_asset,
    {
        clone_address_option(&self.payment_asset)
    }

    /// Stores the payment asset.
    pub fn store_payment_asset(&mut self, a: Address)
        ensures
            final(self)@ == (EnvView { payment_asset: Some(a), ..old(self)@ }),
    {
        self.payment_asset = Some(a);
        assert(self@ =~= (EnvView { payment_asset: Some(a), ..old(self)@ }));
    }

    /// The stored rates.
    pub fn stored_rates(&self) -> (r: Option<Rates>)
        ensures
            r == self@.rates,
    {
        self.rates
    }

    /// Stores the rates.
    pub fn store_rates(&mut self, r: Rates)
        ensures
            final(self)@ == (EnvView { rates: Some(r), ..old(self)@ }),
    {
        self.rates = Some(r);
        assert(self@ =~= (EnvView { rates: Some(r), ..old(self)@ }));
    }

    /// The reserve deposit stored for `asset`.
    pub fn stored_reserve_deposit(&self, asset: &Address) -> (r: Option<i128>)
        ensures
            r == (if self@.reserve_deposits.contains_key(asset.strkey@) {
                Some(self@.reserve_deposits[asset.strkey@])
            } else {
                None
            }),
    {
        match self.reserve_deposits.get(&asset.strkey) {
            Some(d) => Some(*d),
            None => None,
        }
    }

    /// Stores the reserve deposit for `asset`.
    pub fn store_reserve_deposit(&mut self, asset: &Address, amount: i128)
        ensures
            final(self)@ == (EnvView {
                reserve_deposits: old(self)@.reserve_deposits.insert(asset.strkey@, amount),
                ..old(self)@
            }),
    {
        self.reserve_deposits.set(asset.strkey.clone(), amount);
        assert(self@ =~= (EnvView {
            reserve_deposits: old(self)@.reserve_deposits.insert(asset.strkey@, amount),
            ..old(self)@
        }));
    }

    /// Whether an errand is stored under `id`.
    pub fn has_errand(&self, id: &String) -> (b: bool)
        ensures
            b == self@.errands.contains_key(id@),
    {
        self.errands.contains_key(id)
    }

    /// The errand stored under `id`.
    pub fn stored_errand(&self, id: &String) -> (r: Option<ErrandData>)
        ensures
            r == (if self@.errands.contains_key(id@) {
                Some(self@.errands[id@])
            } else {
                None
            }),
    {
        match self.errands.get(id) {
            Some(d) => Some(d.clone()),
            None => None,
        }
    }

    /// Stores an errand under `id`.
    pub fn store_errand(&mut self, id: String, d: ErrandData)
        ensures
            final(self)@ == (EnvView { errands: old(self)@.errands.insert(id@, d), ..old(self)@ }),
    {
        let ghost k = id@;
        self.errands.set(id, d);
        assert(self@ =~= (EnvView { errands: old(self)@.errands.insert(k, d), ..old(self)@ }));
    }

    /// Removes the errand stored under `id`; says whether there was one.
    pub fn delete_errand(&mut self, id: &String) -> (found: bool)
        ensures
            found == old(self)@.errands.contains_key(id@),
            final(self)@ == (EnvView { errands: old(self)@.errands.remove(id@), ..old(self)@ }),
    {
        let found = self.errands.remove(id);
        assert(self@ =~= (EnvView { errands: old(self)@.errands.remove(id@), ..old(self)@ }));
        found
    }
}

} // verus!
