//! Agents, their balances and status, and the escrow's configuration.

use vstd::prelude::*;

use crate::limits::{default_limits, SpendingLimits, DEFAULT_DAILY_LIMIT, DEFAULT_MAX_PER_TRANSACTION, DEFAULT_MONTHLY_LIMIT, DEFAULT_WEEKLY_LIMIT};
use crate::storage::{Address, DataKey, Env, EscrowState, TokenTransfer};
use crate::EscrowError;

verus! {

/// An AI agent that pays out of the funds deposited for it.
#[derive(Debug, PartialEq, Eq)]
pub struct Agent {
    pub id: u64,
    pub address: Address,
    pub name: String,
    pub status: AgentStatus,
    pub total_deposited: i128,
    pub total_spent: i128,
    pub remaining_balance: i128,
    pub created_at: u64,
    pub last_activity: u64,
}

/// Whether an agent may pay.
#[derive(Clone, Copy, Debug, PartialEq, Eq, Structural)]
pub enum AgentStatus {
    Active,
    Paused,
    Suspended,
    Terminated,
}

/// The escrow's settings, fixed at initialization.
#[derive(Debug, PartialEq, Eq)]
pub struct EscrowConfig {
    pub platform_fee_bps: u32,
    pub min_deposit: i128,
    pub max_deposit: i128,
    pub treasury: Address,
    pub paused: bool,
    pub version: u32,
}

impl View for Agent {
    type V = Agent;

    open spec fn view(&self) -> Agent {
        *self
    }
}

impl Agent {
    /// A copy of this agent.
    pub fn duplicate(&self) -> (a: Agent)
        ensures
            a == *self,
    {
        Agent {
            id: self.id,
            address: self.address.duplicate(),
            name: self.name.clone(),
            status: self.status,
            total_deposited: self.total_deposited,
            total_spent: self.total_spent,
            remaining_balance: self.remaining_balance,
            created_at: self.created_at,
            last_activity: self.last_activity,
        }
    }
}

impl EscrowConfig {
    /// A copy of this configuration.
    pub fn duplicate(&self) -> (c: EscrowConfig)
        ensures
            c == *self,
    {
        EscrowConfig {
            platform_fee_bps: self.platform_fee_bps,
            min_deposit: self.min_deposit,
            max_deposit: self.max_deposit,
            treasury: self.treasury.duplicate(),
            paused: self.paused,
            version: self.version,
        }
    }
}

/// The configuration that `initialize` writes.
pub open spec fn initial_config(treasury: Address, platform_fee_bps: u32, min_deposit: i128, max_deposit: i128) -> EscrowConfig {
    EscrowConfig { platform_fee_bps, min_deposit, max_deposit, treasury, paused: false, version: 1 }
}

/// What `initialize` leaves in storage and returns.
pub open spec fn initialize_outcome(
    s: EscrowState,
    treasury: Address,
    platform_fee_bps: u32,
    min_deposit: i128,
    max_deposit: i128,
) -> (EscrowState, Result<(), EscrowError>) {
    if s.version is Some {
        (s, Err(EscrowError::AlreadyInitialized))
    } else {
        (
            EscrowState {
                config: Some(initial_config(treasury, platform_fee_bps, min_deposit, max_deposit)),
                paused: Some(false),
                version: Some(1),
                agent_count: Some(0),
                transaction_count: Some(0),
                dispute_count: Some(0),
                next_agent_id: Some(1),
                ..s
            },
            Ok(()),
        )
    }
}

/// Sets the escrow up: its configuration, unpaused, with counters at their
/// start. Requires the treasury's authorization. The initial overseer is
/// added by the contract's own `initialize`, not here.
///
/// Fails with `AlreadyInitialized` where it was set up before.
#[allow(unused_variables)]
pub fn initialize(
    env: &mut Env,
    treasury: Address,
    platform_fee_bps: u32,
    min_deposit: i128,
    max_deposit: i128,
    initial_overseer: Address,
) -> (r: Result<(), EscrowError>)
    ensures
        (final(env).storage@, r) == initialize_outcome(old(env).storage@, treasury, platform_fee_bps, min_deposit, max_deposit),
        r is Err ==> final(env).storage@ == old(env).storage@,
        r is Ok ==> final(env).auths@ == old(env).auths@.push(treasury),
        r is Err ==> final(env).auths@ == old(env).auths@,
        final(env).transfers@ == old(env).transfers@,
        final(env).ledger == old(env).ledger,
{
    if env.storage.has(&DataKey::Version) {
        return Err(EscrowError::AlreadyInitialized);
    }
    env.auths.push(treasury.duplicate());
    let config = EscrowConfig {
        platform_fee_bps,
        min_deposit,
        max_deposit,
        treasury,
        paused: false,
        version: 1,
    };
    env.storage.config = Some(config);
    env.storage.paused = Some(false);
    env.storage.version = Some(1);
    env.storage.agent_count = Some(0);
    env.storage.transaction_count = Some(0);
    env.storage.dispute_count = Some(0);
    env.storage.next_agent_id = Some(1);
    Ok(())
}

/// The agent that `create_agent` stores.
pub open spec fn new_agent(id: u64, address: Address, name: String, now: u64) -> Agent {
    Agent {
        id,
        address,
        name,
        status: AgentStatus::Active,
        total_deposited: 0,
        total_spent: 0,
        remaining_balance: 0,
        created_at: now,
        last_activity: now,
    }
}

/// What `create_agent` leaves in storage and returns.
pub open spec fn create_agent_outcome(
    s: EscrowState,
    now: u64,
    overseer: Address,
    agent_address: Address,
    name: String,
) -> (EscrowState, Result<u64, EscrowError>) {
    if s.is_paused() {
        (s, Err(EscrowError::ContractPaused))
    } else {
        let id = s.next_agent_id_value();
        (
            EscrowState {
                agents: s.agents.insert(id, new_agent(id, agent_address, name, now)),
                agent_ids: s.agent_ids.insert(agent_address@, id),
                limits: s.limits.insert(id, default_limits(id, overseer, now)),
                agent_count: Some((s.agent_count_value() + 1) as u64),
                next_agent_id: Some((id + 1) as u64),
                ..s
            },
            Ok(id),
        )
    }
}

/// The counters that `create_agent` advances stay in range.
pub open spec fn create_agent_fits(s: EscrowState) -> bool {
    s.is_paused() || (s.agent_count_value() < u64::MAX && s.next_agent_id_value() < u64::MAX)
}

/// Whether the counters that `create_agent` advances stay in range, so
/// that it may be called.
pub fn create_agent_in_range(env: &Env) -> (r: bool)
    ensures
        r == create_agent_fits(env.storage@),
{
    is_paused(env) || (env.storage.agent_count.unwrap_or(0) < u64::MAX && env.storage.next_agent_id.unwrap_or(1) < u64::MAX)
}

/// Creates an active agent at `agent_address` with the next id, no funds
/// and the default limits. Requires the overseer's authorization.
///
/// Fails with `ContractPaused` while the escrow is paused.
pub fn create_agent(env: &mut Env, overseer: Address, agent_address: Address, name: String) -> (r: Result<u64, EscrowError>)
    requires
        create_agent_fits(old(env).storage@),
    ensures
        (final(env).storage@, r) == create_agent_outcome(old(env).storage@, old(env).ledger.timestamp, overseer, agent_address, name),
        r is Err ==> final(env).storage@ == old(env).storage@,
        final(env).auths@ == old(env).auths@.push(overseer),
        final(env).transfers@ == old(env).transfers@,
        final(env).ledger == old(env).ledger,
{
    env.auths.push(overseer.duplicate());
    if is_paused(env) {
        return Err(EscrowError::ContractPaused);
    }
    let agent_id: u64 = env.storage.next_agent_id.unwrap_or(1);
    let now = env.ledger.timestamp;
    let limits = SpendingLimits {
        agent_id,
        max_per_transaction: DEFAULT_MAX_PER_TRANSACTION,
        daily_limit: DEFAULT_DAILY_LIMIT,
        weekly_limit: DEFAULT_WEEKLY_LIMIT,
        monthly_limit: DEFAULT_MONTHLY_LIMIT,
        allowed_recipients: None,
        updated_at: now,
        updated_by: overseer,
    };
    let agent = Agent {
        id: agent_id,
        address: agent_address.duplicate(),
        name,
        status: AgentStatus::Active,
        total_deposited: 0,
        total_spent: 0,
        remaining_balance: 0,
        created_at: now,
        last_activity: now,
    };
    env.storage.agents.set(agent_id, agent);
    env.storage.agent_ids.set(agent_address, agent_id);
    env.storage.limits.set(agent_id, limits);
    let count: u64 = env.storage.agent_count.unwrap_or(0);
    env.storage.agent_count = Some(count + 1);
    env.storage.next_agent_id = Some(agent_id + 1);
    Ok(agent_id)
}

/// The agent with id `agent_id`, if there is one.
pub fn get_agent(env: &Env, agent_id: u64) -> (r: Option<Agent>)
    ensures
        r == env.storage@.agents.get(agent_id),
{
    match env.storage.agents.get(&agent_id) {
        Some(a) => Some(a.duplicate()),
        None => None,
    }
}

/// The number of agents created since initialization.
pub fn get_agent_count(env: &Env) -> (r: u64)
    ensures
        r == env.storage@.agent_count_value(),
{
    env.storage.agent_count.unwrap_or(0)
}

/// `a` with its status set to `status` at `now`.
pub open spec fn with_status(a: Agent, status: AgentStatus, now: u64) -> Agent {
    Agent { status, last_activity: now, ..a }
}

/// What setting an agent's status leaves in storage and returns.
pub open spec fn set_status_outcome(s: EscrowState, now: u64, agent_id: u64, status: AgentStatus) -> (EscrowState, Result<(), EscrowError>) {
    if !s.agents.contains_key(agent_id) {
        (s, Err(EscrowError::AgentNotFound))
    } else {
        (EscrowState { agents: s.agents.insert(agent_id, with_status(s.agents[agent_id], status, now)), ..s }, Ok(()))
    }
}

/// Sets agent `agent_id`'s status, on the authority of `overseer`.
fn set_status(env: &mut Env, overseer: Address, agent_id: u64, status: AgentStatus) -> (r: Result<(), EscrowError>)
    ensures
        (final(env).storage@, r) == set_status_outcome(old(env).storage@, old(env).ledger.timestamp, agent_id, status),
        r is Err ==> final(env).storage@ == old(env).storage@,
        final(env).auths@ == old(env).auths@.push(overseer),
        final(env).transfers@ == old(env).transfers@,
        final(env).ledger == old(env).ledger,
{
    env.auths.push(overseer);
    let mut agent = match get_agent(env, agent_id) {
        Some(a) => a,
        None => return Err(EscrowError::AgentNotFound),
    };
    agent.status = status;
    agent.last_activity = env.ledger.timestamp;
    env.storage.agents.set(agent_id, agent);
    Ok(())
}

/// Pauses agent `agent_id`: it cannot pay until resumed. Requires the
/// overseer's authorization.
///
/// Fails with `AgentNotFound` where there is no such agent.
pub fn pause_agent(env: &mut Env, overseer: Address, agent_id: u64) -> (r: Result<(), EscrowError>)
    ensures
        (final(env).storage@, r) == set_status_outcome(old(env).storage@, old(env).ledger.timestamp, agent_id, AgentStatus::Paused),
        r is Err ==> final(env).storage@ == old(env).storage@,
        final(env).auths@ == old(env).auths@.push(overseer),
        final(env).transfers@ == old(env).transfers@,
        final(env).ledger == old(env).ledger,
{
    set_status(env, overseer, agent_id, AgentStatus::Paused)
}

/// Makes agent `agent_id` active again. Requires the overseer's
/// authorization.
///
/// Fails with `AgentNotFound` where there is no such agent.
pub fn resume_agent(env: &mut Env, overseer: Address, agent_id: u64) -> (r: Result<(), EscrowError>)
    ensures
        (final(env).storage@, r) == set_status_outcome(old(env).storage@, old(env).ledger.timestamp, agent_id, AgentStatus::Active),
        r is Err ==> final(env).storage@ == old(env).storage@,
        final(env).auths@ == old(env).auths@.push(overseer),
        final(env).transfers@ == old(env).transfers@,
        final(env).ledger == old(env).ledger,
{
    set_status(env, overseer, agent_id, AgentStatus::Active)
}

/// Why `deposit` refuses, if it does.
pub open spec fn deposit_error(s: EscrowState, agent_id: u64, amount: i128) -> Option<EscrowError> {
    if s.is_paused() {
        Some(EscrowError::ContractPaused)
    } else if s.config is None {
        Some(EscrowError::NotInitialized)
    } else if amount < s.config.unwrap().min_deposit {
        Some(EscrowError::InvalidAmount)
    } else if !s.agents.contains_key(agent_id) {
        Some(EscrowError::AgentNotFound)
    } else {
        None
    }
}

/// `a` credited with a deposit of `amount` at `now`.
pub open spec fn credited(a: Agent, amount: i128, now: u64) -> Agent {
    Agent {
        total_deposited: (a.total_deposited + amount) as i128,
        remaining_balance: (a.remaining_balance + amount) as i128,
        last_activity: now,
        ..a
    }
}

/// What `deposit` leaves in storage and returns.
pub open spec fn deposit_outcome(s: EscrowState, now: u64, agent_id: u64, amount: i128) -> (EscrowState, Result<(), EscrowError>) {
    match deposit_error(s, agent_id, amount) {
        Some(e) => (s, Err(e)),
        None => (EscrowState { agents: s.agents.insert(agent_id, credited(s.agents[agent_id], amount, now)), ..s }, Ok(())),
    }
}

/// The transfer that a deposit asks for: the escrow draws `amount` of
/// `token` from the depositor's allowance to itself.
pub open spec fn deposit_transfer(contract: Address, depositor: Address, token: Address, amount: i128) -> TokenTransfer {
    TokenTransfer { token, spender: Some(contract), from: depositor, to: contract, amount }
}

/// The agent's totals stay in range when `amount` is credited.
pub open spec fn deposit_fits(s: EscrowState, agent_id: u64, amount: i128) -> bool {
    deposit_error(s, agent_id, amount) is None ==> {
        let a = s.agents[agent_id];
        &&& i128::MIN <= a.total_deposited + amount <= i128::MAX
        &&& i128::MIN <= a.remaining_balance + amount <= i128::MAX
    }
}

/// Whether the agent's totals stay in range when `amount` is deposited,
/// so that `deposit` may be called.
pub fn deposit_in_range(env: &Env, agent_id: u64, amount: i128) -> (r: bool)
    ensures
        r == deposit_fits(env.storage@, agent_id, amount),
{
    if is_paused(env) {
        return true;
    }
    let min_deposit = match &env.storage.config {
        Some(config) => config.min_deposit,
        None => return true,
    };
    if amount < min_deposit {
        return true;
    }
    match env.storage.agents.get(&agent_id) {
        Some(a) => a.total_deposited.checked_add(amount).is_some() && a.remaining_balance.checked_add(amount).is_some(),
        None => true,
    }
}

/// Funds agent `agent_id` with `amount` of `token`, drawn from the
/// depositor's allowance to the escrow. Requires the depositor's
/// authorization.
///
/// Fails with `ContractPaused` while the escrow is paused, `NotInitialized`
/// before it is set up, `InvalidAmount` below the minimum deposit and
/// `AgentNotFound` where there is no such agent, in that order.
pub fn deposit(env: &mut Env, depositor: Address, agent_id: u64, token_address: Address, amount: i128) -> (r: Result<(), EscrowError>)
    requires
        deposit_fits(old(env).storage@, agent_id, amount),
    ensures
        (final(env).storage@, r) == deposit_outcome(old(env).storage@, old(env).ledger.timestamp, agent_id, amount),
        r is Err ==> final(env).storage@ == old(env).storage@,
        final(env).auths@ == old(env).auths@.push(depositor),
        r is Ok ==> final(env).transfers@ == old(env).transfers@.push(
            deposit_transfer(old(env).ledger.contract, depositor, token_address, amount),
        ),
        r is Err ==> final(env).transfers@ == old(env).transfers@,
        final(env).ledger == old(env).ledger,
{
    env.auths.push(depositor.duplicate());
    if is_paused(env) {
        return Err(EscrowError::ContractPaused);
    }
    let min_deposit = match &env.storage.config {
        Some(config) => config.min_deposit,
        None => return Err(EscrowError::NotInitialized),
    };
    if amount < min_deposit {
        return Err(EscrowError::InvalidAmount);
    }
    let mut agent = match get_agent(env, agent_id) {
        Some(a) => a,
        None => return Err(EscrowError::AgentNotFound),
    };
    let contract = env.ledger.contract.duplicate();
    env.transfers.push(TokenTransfer {
        token: token_address,
        spender: Some(contract.duplicate()),
        from: depositor,
        to: contract,
        amount,
    });
    agent.total_deposited = agent.total_deposited + amount;
    agent.remaining_balance = agent.remaining_balance + amount;
    agent.last_activity = env.ledger.timestamp;
    env.storage.agents.set(agent_id, agent);
    Ok(())
}

/// What `set_paused` leaves in storage and returns.
pub open spec fn set_paused_outcome(s: EscrowState, paused: bool) -> (EscrowState, Result<(), EscrowError>) {
    if s.config is None {
        (s, Err(EscrowError::NotInitialized))
    } else {
        (EscrowState { paused: Some(paused), ..s }, Ok(()))
    }
}

/// Pauses or unpauses the escrow. Requires the treasury's authorization.
///
/// Fails with `NotInitialized` before the escrow is set up.
pub fn set_paused(env: &mut Env, paused: bool) -> (r: Result<(), EscrowError>)
    ensures
        (final(env).storage@, r) == set_paused_outcome(old(env).storage@, paused),
        r is Err ==> final(env).storage@ == old(env).storage@,
        r is Ok ==> final(env).auths@ == old(env).auths@.push(old(env).storage@.config.unwrap().treasury),
        r is Err ==> final(env).auths@ == old(env).auths@,
        final(env).transfers@ == old(env).transfers@,
        final(env).ledger == old(env).ledger,
{
    let treasury = match &env.storage.config {
        Some(config) => config.treasury.duplicate(),
        None => return Err(EscrowError::NotInitialized),
    };
    env.auths.push(treasury);
    env.storage.paused = Some(paused);
    Ok(())
}

/// Whether the escrow is paused.
pub fn is_paused(env: &Env) -> (r: bool)
    ensures
        r == env.storage@.is_paused(),
{
    env.storage.paused.unwrap_or(false)
}

/// The escrow's configuration, once it is set up.
pub fn get_config(env: &Env) -> (r: Option<EscrowConfig>)
    ensures
        r == env.storage@.config,
{
    match &env.storage.config {
        Some(c) => Some(c.duplicate()),
        None => None,
    }
}

} // verus!
