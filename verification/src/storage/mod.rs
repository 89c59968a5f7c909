//! The contract's storage, the ledger it runs on, and the effects that a
//! call asks of the host (authorizations and token transfers).

pub mod table;

use vstd::prelude::*;

use crate::agent::{Agent, EscrowConfig};
use crate::dispute::Dispute;
use crate::limits::{DailySpending, MonthlySpending, SpendingLimits, SpendingLimitsView, WeeklySpending};
use crate::overseer::{HumanOverseer, HumanOverseerView};
use crate::payment::Transaction;
use table::{Table, TableKey};

verus! {

/// An account or contract address, held as its strkey text
/// (such as `G...` or `C...`).
#[derive(Debug, PartialEq, Eq)]
pub struct Address {
    pub strkey: String,
}

impl View for Address {
    type V = Seq<char>;

    open spec fn view(&self) -> Seq<char> {
        self.strkey@
    }
}

impl TableKey for Address {
    fn same_key(&self, other: &Self) -> (r: bool) {
        self.strkey == other.strkey
    }
}

impl Address {
    /// The address with the given strkey.
    pub fn from_strkey(strkey: String) -> (a: Address)
        ensures
            a.strkey == strkey,
    {
        Address { strkey }
    }

    /// A copy of this address.
    pub fn duplicate(&self) -> (a: Address)
        ensures
            a == *self,
    {
        Address { strkey: self.strkey.clone() }
    }
}

/// The keys under which the contract stores its data.
#[derive(Debug, PartialEq, Eq)]
pub enum DataKey {
    Agent(u64),
    AgentByAddress(Address),
    AgentCount,
    NextAgentId,
    SpendingLimits(u64),
    DailySpending(u64, u64),
    WeeklySpending(u64, u64),
    MonthlySpending(u64, u64),
    Transaction(u64),
    TransactionCount,
    Dispute(u64),
    DisputeCount,
    Overseer(Address),
    OverseerCount,
    Config,
    Paused,
    Version,
}

/// What the ledger tells a call about its context.
#[derive(Debug)]
pub struct Ledger {
    /// The ledger's close time, in seconds.
    pub timestamp: u64,
    /// The address of this contract.
    pub contract: Address,
}

/// A token transfer that a call asks the host to make.
///
/// With `spender` set it is a `transfer_from` that draws on an allowance
/// that `from` granted to `spender`; otherwise a plain `transfer`.
#[derive(Debug, PartialEq, Eq)]
pub struct TokenTransfer {
    pub token: Address,
    pub spender: Option<Address>,
    pub from: Address,
    pub to: Address,
    pub amount: i128,
}

/// The contract's storage: instance entries as optional values, persistent
/// entries as tables.
pub struct Storage {
    pub config: Option<EscrowConfig>,
    pub paused: Option<bool>,
    pub version: Option<u32>,
    pub agent_count: Option<u64>,
    pub next_agent_id: Option<u64>,
    pub transaction_count: Option<u64>,
    pub dispute_count: Option<u64>,
    pub overseer_count: Option<u64>,
    pub agents: Table<u64, Agent>,
    pub agent_ids: Table<Address, u64>,
    pub limits: Table<u64, SpendingLimits>,
    pub daily: Table<(u64, u64), DailySpending>,
    pub weekly: Table<(u64, u64), WeeklySpending>,
    pub monthly: Table<(u64, u64), MonthlySpending>,
    pub transactions: Table<u64, Transaction>,
    pub disputes: Table<u64, Dispute>,
    pub overseers: Table<Address, HumanOverseer>,
}

/// The mathematical model of the storage: what each key holds.
pub struct EscrowState {
    pub config: Option<EscrowConfig>,
    pub paused: Option<bool>,
    pub version: Option<u32>,
    pub agent_count: Option<u64>,
    pub next_agent_id: Option<u64>,
    pub transaction_count: Option<u64>,
    pub dispute_count: Option<u64>,
    pub overseer_count: Option<u64>,
    pub agents: Map<u64, Agent>,
    pub agent_ids: Map<Seq<char>, u64>,
    pub limits: Map<u64, SpendingLimitsView>,
    pub daily: Map<(u64, u64), DailySpending>,
    pub weekly: Map<(u64, u64), WeeklySpending>,
    pub monthly: Map<(u64, u64), MonthlySpending>,
    pub transactions: Map<u64, Transaction>,
    pub disputes: Map<u64, Dispute>,
    pub overseers: Map<Seq<char>, HumanOverseerView>,
}

impl View for Storage {
    type V = EscrowState;

    open spec fn view(&self) -> EscrowState {
        EscrowState {
            config: self.config,
            paused: self.paused,
            version: self.version,
            agent_count: self.agent_count,
            next_agent_id: self.next_agent_id,
            transaction_count: self.transaction_count,
            dispute_count: self.dispute_count,
            overseer_count: self.overseer_count,
            agents: self.agents@,
            agent_ids: self.agent_ids@,
            limits: self.limits@,
            daily: self.daily@,
            weekly: self.weekly@,
            monthly: self.monthly@,
            transactions: self.transactions@,
            disputes: self.disputes@,
            overseers: self.overseers@,
        }
    }
}

impl EscrowState {
    /// Storage in which nothing has been written.
    pub open spec fn empty() -> EscrowState {
        EscrowState {
            config: None,
            paused: None,
            version: None,
            agent_count: None,
            next_agent_id: None,
            transaction_count: None,
            dispute_count: None,
            overseer_count: None,
            agents: Map::empty(),
            agent_ids: Map::empty(),
            limits: Map::empty(),
            daily: Map::empty(),
            weekly: Map::empty(),
            monthly: Map::empty(),
            transactions: Map::empty(),
            disputes: Map::empty(),
            overseers: Map::empty(),
        }
    }

    /// Whether the contract is paused (unset reads as not paused).
    pub open spec fn is_paused(self) -> bool {
        match self.paused {
            Some(p) => p,
            None => false,
        }
    }

    /// The number of agents created (unset reads as zero).
    pub open spec fn agent_count_value(self) -> u64 {
        match self.agent_count {
            Some(n) => n,
            None => 0,
        }
    }

    /// The id the next agent gets (unset reads as one).
    pub open spec fn next_agent_id_value(self) -> u64 {
        match self.next_agent_id {
            Some(n) => n,
            None => 1,
        }
    }

    /// The id of the last transaction recorded (unset reads as zero).
    pub open spec fn transaction_count_value(self) -> u64 {
        match self.transaction_count {
            Some(n) => n,
            None => 0,
        }
    }

    /// The id of the last dispute raised (unset reads as zero).
    pub open spec fn dispute_count_value(self) -> u64 {
        match self.dispute_count {
            Some(n) => n,
            None => 0,
        }
    }

    /// The number of overseers added (unset reads as zero).
    pub open spec fn overseer_count_value(self) -> u64 {
        match self.overseer_count {
            Some(n) => n,
            None => 0,
        }
    }

    /// Whether the storage holds an entry under `key`.
    pub open spec fn holds(self, key: DataKey) -> bool {
        match key {
            DataKey::Agent(id) => self.agents.contains_key(id),
            DataKey::AgentByAddress(a) => self.agent_ids.contains_key(a@),
            DataKey::AgentCount => self.agent_count is Some,
            DataKey::NextAgentId => self.next_agent_id is Some,
            DataKey::SpendingLimits(id) => self.limits.contains_key(id),
            DataKey::DailySpending(id, day) => self.daily.contains_key((id, day)),
            DataKey::WeeklySpending(id, week) => self.weekly.contains_key((id, week)),
            DataKey::MonthlySpending(id, month) => self.monthly.contains_key((id, month)),
            DataKey::Transaction(id) => self.transactions.contains_key(id),
            DataKey::TransactionCount => self.transaction_count is Some,
            DataKey::Dispute(id) => self.disputes.contains_key(id),
            DataKey::DisputeCount => self.dispute_count is Some,
            DataKey::Overseer(a) => self.overseers.contains_key(a@),
            DataKey::OverseerCount => self.overseer_count is Some,
            DataKey::Config => self.config is Some,
            DataKey::Paused => self.paused is Some,
            DataKey::Version => self.version is Some,
        }
    }
}

impl Storage {
    /// Storage in which nothing has been written.
    pub fn new() -> (s: Storage)
        ensures
            s@ == EscrowState::empty(),
    {
        Storage {
            config: None,
            paused: None,
            version: None,
            agent_count: None,
            next_agent_id: None,
            transaction_count: None,
            dispute_count: None,
            overseer_count: None,
            agents: Table::new(),
            agent_ids: Table::new(),
            limits: Table::new(),
            daily: Table::new(),
            weekly: Table::new(),
            monthly: Table::new(),
            transactions: Table::new(),
            disputes: Table::new(),
            overseers: Table::new(),
        }
    }

    /// Whether the storage holds an entry under `key`.
    pub fn has(&self, key: &DataKey) -> (r: bool)
        ensures
            r == self@.holds(*key),
    {
        match key {
            DataKey::Agent(id) => self.agents.has(id),
            DataKey::AgentByAddress(a) => self.agent_ids.has(a),
            DataKey::AgentCount => self.agent_count.is_some(),
            DataKey::NextAgentId => self.next_agent_id.is_some(),
            DataKey::SpendingLimits(id) => self.limits.has(id),
            DataKey::DailySpending(id, day) => self.daily.has(&(*id, *day)),
            DataKey::WeeklySpending(id, week) => self.weekly.has(&(*id, *week)),
            DataKey::MonthlySpending(id, month) => self.monthly.has(&(*id, *month)),
            DataKey::Transaction(id) => self.transactions.has(id),
            DataKey::TransactionCount => self.transaction_count.is_some(),
            DataKey::Dispute(id) => self.disputes.has(id),
            DataKey::DisputeCount => self.dispute_count.is_some(),
            DataKey::Overseer(a) => self.overseers.has(a),
            DataKey::OverseerCount => self.overseer_count.is_some(),
            DataKey::Config => self.config.is_some(),
            DataKey::Paused => self.paused.is_some(),
            DataKey::Version => self.version.is_some(),
        }
    }
}

/// The environment a contract call runs in: the ledger, the storage, and
/// the effects the call asks of the host, in the order it asked for them.
pub struct Env {
    pub ledger: Ledger,
    pub storage: Storage,
    /// Addresses whose authorization the calls required.
    pub auths: Vec<Address>,
    /// Token transfers the calls asked for.
    pub transfers: Vec<TokenTransfer>,
}

impl Env {
    /// A fresh environment with empty storage and no effects.
    pub fn new(timestamp: u64, contract: Address) -> (env: Env)
        ensures
            env.ledger.timestamp == timestamp,
            env.ledger.contract == contract,
            env.storage@ == EscrowState::empty(),
            env.auths@ == Seq::<Address>::empty(),
            env.transfers@ == Seq::<TokenTransfer>::empty(),
    {
        Env { ledger: Ledger { timestamp, contract }, storage: Storage::new(), auths: Vec::new(), transfers: Vec::new() }
    }
}

} // verus!
