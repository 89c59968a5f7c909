//! An escrow for AI agents: overseers create agents and set their spending
//! limits, depositors fund them, agents pay within their limits, and
//! payments can be disputed and refunded.

pub mod agent;
pub mod dispute;
pub mod laws;
pub mod limits;
pub mod overseer;
pub mod payment;
pub mod storage;

use vstd::prelude::*;

use agent::{Agent, EscrowConfig};
use dispute::{raise_dispute_fits, raise_dispute_outcome, refund_transfers, resolve_dispute_outcome};
use limits::{set_limits_outcome, SpendingLimits};
use overseer::{add_overseer_fits, add_overseer_outcome, HumanOverseer, OverseerRole};
use payment::{pay_fits, pay_outcome, pay_transfers, Transaction};
use storage::{Address, Env, EscrowState};

verus! {

/// Why a call was refused.
#[derive(Clone, Copy, Debug, PartialEq, Eq, Structural)]
pub enum EscrowError {
    NotAuthorized,
    AgentNotFound,
    AgentAlreadyExists,
    AgentPaused,
    InsufficientBalance,
    DailyLimitExceeded,
    WeeklyLimitExceeded,
    MonthlyLimitExceeded,
    PerTransactionLimitExceeded,
    InvalidAmount,
    TransactionNotFound,
    ContractPaused,
    TransferFailed,
    FeeError,
    OverseerNotFound,
    OverseerAlreadyExists,
    NotEnoughAllowance,
    AlreadyInitialized,
    NotInitialized,
    DisputeNotFound,
    DisputeAlreadyResolved,
}

/// The escrow contract: the calls it answers, each on the environment it
/// runs in.
pub struct AgentEscrow;

/// The name under which the initial overseer is added.
pub open spec fn super_admin_name() -> Seq<char> {
    "Super Admin"@
}

/// What `AgentEscrow::initialize` leaves in storage and returns.
pub open spec fn contract_initialize_outcome(
    s: EscrowState,
    now: u64,
    treasury: Address,
    platform_fee_bps: u32,
    min_deposit: i128,
    max_deposit: i128,
    initial_overseer: Address,
) -> (EscrowState, Result<(), EscrowError>) {
    if s.version is Some {
        (s, Err(EscrowError::AlreadyInitialized))
    } else if s.overseers.contains_key(initial_overseer@) {
        (s, Err(EscrowError::OverseerAlreadyExists))
    } else {
        add_overseer_outcome(
            agent::initialize_outcome(s, treasury, platform_fee_bps, min_deposit, max_deposit).0,
            now,
            initial_overseer,
            super_admin_name(),
            OverseerRole::SuperAdmin,
        )
    }
}

impl AgentEscrow {
    /// Sets the escrow up and adds `initial_overseer` as its super admin.
    /// Requires the authorization of the treasury, then of the overseer.
    ///
    /// Fails with `AlreadyInitialized` where it was set up before, and with
    /// `OverseerAlreadyExists` where an overseer is already at that address.
    pub fn initialize(
        env: &mut Env,
        treasury: Address,
        platform_fee_bps: u32,
        min_deposit: i128,
        max_deposit: i128,
        initial_overseer: Address,
    ) -> (r: Result<(), EscrowError>)
        requires
            add_overseer_fits(old(env).storage@, initial_overseer),
        ensures
            (final(env).storage@, r) == contract_initialize_outcome(
                old(env).storage@,
                old(env).ledger.timestamp,
                treasury,
                platform_fee_bps,
                min_deposit,
                max_deposit,
                initial_overseer,
            ),
            r is Err ==> final(env).storage@ == old(env).storage@,
            old(env).storage@.version is Some ==> final(env).auths@ == old(env).auths@,
            old(env).storage@.version is None ==> final(env).auths@ == old(env).auths@.push(treasury).push(
                initial_overseer,
            ),
            final(env).transfers@ == old(env).transfers@,
            final(env).ledger == old(env).ledger,
    {
        let taken = env.storage.has(&storage::DataKey::Overseer(initial_overseer.duplicate()));
        if taken && !env.storage.has(&storage::DataKey::Version) {
            env.auths.push(treasury);
            env.auths.push(initial_overseer);
            return Err(EscrowError::OverseerAlreadyExists);
        }
        agent::initialize(env, treasury, platform_fee_bps, min_deposit, max_deposit, initial_overseer.duplicate())?;
        let name = "Super Admin".to_owned();
        overseer::add_overseer(env, initial_overseer.duplicate(), initial_overseer, name, OverseerRole::SuperAdmin)
    }

    /// See [`agent::create_agent`].
    pub fn create_agent(env: &mut Env, overseer: Address, agent_address: Address, name: String) -> (r: Result<u64, EscrowError>)
        requires
            agent::create_agent_fits(old(env).storage@),
        ensures
            (final(env).storage@, r) == agent::create_agent_outcome(
                old(env).storage@,
                old(env).ledger.timestamp,
                overseer,
                agent_address,
                name,
            ),
            r is Err ==> final(env).storage@ == old(env).storage@,
            final(env).auths@ == old(env).auths@.push(overseer),
            final(env).transfers@ == old(env).transfers@,
            final(env).ledger == old(env).ledger,
    {
        agent::create_agent(env, overseer, agent_address, name)
    }

    /// See [`agent::get_agent`].
    pub fn get_agent(env: &Env, agent_id: u64) -> (r: Option<Agent>)
        ensures
            r == env.storage@.agents.get(agent_id),
    {
        agent::get_agent(env, agent_id)
    }

    /// See [`agent::deposit`].
    pub fn deposit(env: &mut Env, depositor: Address, agent_id: u64, token_address: Address, amount: i128) -> (r: Result<(), EscrowError>)
        requires
            agent::deposit_fits(old(env).storage@, agent_id, amount),
        ensures
            (final(env).storage@, r) == agent::deposit_outcome(old(env).storage@, old(env).ledger.timestamp, agent_id, amount),
            r is Err ==> final(env).storage@ == old(env).storage@,
            final(env).auths@ == old(env).auths@.push(depositor),
            r is Ok ==> final(env).transfers@ == old(env).transfers@.push(
                agent::deposit_transfer(old(env).ledger.contract, depositor, token_address, amount),
            ),
            r is Err ==> final(env).transfers@ == old(env).transfers@,
            final(env).ledger == old(env).ledger,
    {
        agent::deposit(env, depositor, agent_id, token_address, amount)
    }

    /// See [`limits::set_limits`].
    pub fn set_limits(
        env: &mut Env,
        overseer: Address,
        agent_id: u64,
        max_per_tx: Option<i128>,
        daily: Option<i128>,
        weekly: Option<i128>,
        monthly: Option<i128>,
    ) -> (r: Result<(), EscrowError>)
        ensures
            (final(env).storage@, r) == set_limits_outcome(
                old(env).storage@,
                old(env).ledger.timestamp,
                overseer,
                agent_id,
                max_per_tx,
                daily,
                weekly,
                monthly,
            ),
            r is Err ==> final(env).storage@ == old(env).storage@,
            final(env).auths@ == old(env).auths@.push(overseer),
            final(env).transfers@ == old(env).transfers@,
            final(env).ledger == old(env).ledger,
    {
        limits::set_limits(env, overseer, agent_id, max_per_tx, daily, weekly, monthly)
    }

    /// See [`limits::get_limits`].
    pub fn get_limits(env: &Env, agent_id: u64) -> (r: Option<SpendingLimits>)
        ensures
            match r {
                Some(l) => env.storage@.limits.contains_key(agent_id) && l@ == env.storage@.limits[agent_id],
                None => !env.storage@.limits.contains_key(agent_id),
            },
    {
        limits::get_limits(env, agent_id)
    }

    /// See [`payment::pay`].
    pub fn pay(
        env: &mut Env,
        agent_address: Address,
        recipient: Address,
        token_address: Address,
        amount: i128,
        memo: Option<String>,
    ) -> (r: Result<u64, EscrowError>)
        requires
            pay_fits(old(env).storage@, old(env).ledger.timestamp, agent_address, amount),
        ensures
            (final(env).storage@, r) == pay_outcome(
                old(env).storage@,
                old(env).ledger.timestamp,
                agent_address,
                recipient,
                token_address,
                amount,
                memo,
            ),
            r is Err ==> final(env).storage@ == old(env).storage@,
            final(env).auths@ == old(env).auths@.push(agent_address),
            r is Ok ==> final(env).transfers@ == old(env).transfers@ + pay_transfers(
                old(env).storage@,
                old(env).ledger.contract,
                recipient,
                token_address,
                amount,
            ),
            r is Err ==> final(env).transfers@ == old(env).transfers@,
            final(env).ledger == old(env).ledger,
    {
        payment::pay(env, agent_address, recipient, token_address, amount, memo)
    }

    /// See [`payment::get_transaction`].
    pub fn get_transaction(env: &Env, tx_id: u64) -> (r: Option<Transaction>)
        ensures
            r == env.storage@.transactions.get(tx_id),
    {
        payment::get_transaction(env, tx_id)
    }

    /// See [`dispute::raise_dispute`].
    pub fn raise_dispute(env: &mut Env, agent_address: Address, transaction_id: u64, reason: String) -> (r: Result<u64, EscrowError>)
        requires
            raise_dispute_fits(old(env).storage@, agent_address, transaction_id),
        ensures
            (final(env).storage@, r) == raise_dispute_outcome(
                old(env).storage@,
                old(env).ledger.timestamp,
                agent_address,
                transaction_id,
                reason,
            ),
            r is Err ==> final(env).storage@ == old(env).storage@,
            final(env).auths@ == old(env).auths@.push(agent_address),
            final(env).transfers@ == old(env).transfers@,
            final(env).ledger == old(env).ledger,
    {
        dispute::raise_dispute(env, agent_address, transaction_id, reason)
    }

    /// See [`dispute::resolve_dispute`].
    pub fn resolve_dispute(
        env: &mut Env,
        overseer: Address,
        dispute_id: u64,
        resolution: String,
        refund_amount: i128,
    ) -> (r: Result<(), EscrowError>)
        ensures
            (final(env).storage@, r) == resolve_dispute_outcome(
                old(env).storage@,
                old(env).ledger.timestamp,
                overseer,
                dispute_id,
                resolution,
            ),
            r is Err ==> final(env).storage@ == old(env).storage@,
            final(env).auths@ == old(env).auths@.push(overseer),
            r is Ok ==> final(env).transfers@ == old(env).transfers@ + refund_transfers(
                old(env).storage@,
                old(env).ledger.contract,
                dispute_id,
                refund_amount,
            ),
            r is Err ==> final(env).transfers@ == old(env).transfers@,
            final(env).ledger == old(env).ledger,
    {
        dispute::resolve_dispute(env, overseer, dispute_id, resolution, refund_amount)
    }

    /// See [`agent::pause_agent`].
    pub fn pause_agent(env: &mut Env, overseer: Address, agent_id: u64) -> (r: Result<(), EscrowError>)
        ensures
            (final(env).storage@, r) == agent::set_status_outcome(
                old(env).storage@,
                old(env).ledger.timestamp,
                agent_id,
                agent::AgentStatus::Paused,
            ),
            r is Err ==> final(env).storage@ == old(env).storage@,
            final(env).auths@ == old(env).auths@.push(overseer),
            final(env).transfers@ == old(env).transfers@,
            final(env).ledger == old(env).ledger,
    {
        agent::pause_agent(env, overseer, agent_id)
    }

    /// See [`agent::resume_agent`].
    pub fn resume_agent(env: &mut Env, overseer: Address, agent_id: u64) -> (r: Result<(), EscrowError>)
        ensures
            (final(env).storage@, r) == agent::set_status_outcome(
                old(env).storage@,
                old(env).ledger.timestamp,
                agent_id,
                agent::AgentStatus::Active,
            ),
            r is Err ==> final(env).storage@ == old(env).storage@,
            final(env).auths@ == old(env).auths@.push(overseer),
            final(env).transfers@ == old(env).transfers@,
            final(env).ledger == old(env).ledger,
    {
        agent::resume_agent(env, overseer, agent_id)
    }

    /// See [`overseer::add_overseer`].
    pub fn add_overseer(env: &mut Env, admin: Address, new_overseer: Address, name: String, role: OverseerRole) -> (r: Result<(), EscrowError>)
        requires
            add_overseer_fits(old(env).storage@, new_overseer),
        ensures
            (final(env).storage@, r) == add_overseer_outcome(
                old(env).storage@,
                old(env).ledger.timestamp,
                new_overseer,
                name@,
                role,
            ),
            r is Err ==> final(env).storage@ == old(env).storage@,
            final(env).auths@ == old(env).auths@.push(admin),
            final(env).transfers@ == old(env).transfers@,
            final(env).ledger == old(env).ledger,
    {
        overseer::add_overseer(env, admin, new_overseer, name, role)
    }

    /// See [`overseer::get_overseer`].
    pub fn get_overseer(env: &Env, address: Address) -> (r: Option<HumanOverseer>)
        ensures
            match r {
                Some(o) => env.storage@.overseers.contains_key(address@) && o@ == env.storage@.overseers[address@],
                None => !env.storage@.overseers.contains_key(address@),
            },
    {
        overseer::get_overseer(env, address)
    }

    /// See [`agent::set_paused`].
    pub fn set_paused(env: &mut Env, paused: bool) -> (r: Result<(), EscrowError>)
        ensures
            (final(env).storage@, r) == agent::set_paused_outcome(old(env).storage@, paused),
            r is Err ==> final(env).storage@ == old(env).storage@,
            r is Ok ==> final(env).auths@ == old(env).auths@.push(old(env).storage@.config.unwrap().treasury),
            r is Err ==> final(env).auths@ == old(env).auths@,
            final(env).transfers@ == old(env).transfers@,
            final(env).ledger == old(env).ledger,
    {
        agent::set_paused(env, paused)
    }

    /// See [`agent::is_paused`].
    pub fn is_paused(env: &Env) -> (r: bool)
        ensures
            r == env.storage@.is_paused(),
    {
        agent::is_paused(env)
    }

    /// See [`agent::get_agent_count`].
    pub fn get_agent_count(env: &Env) -> (r: u64)
        ensures
            r == env.storage@.agent_count_value(),
    {
        agent::get_agent_count(env)
    }

    /// See [`agent::get_config`].
    pub fn get_config(env: &Env) -> (r: Option<EscrowConfig>)
        ensures
            r == env.storage@.config,
    {
        agent::get_config(env)
    }
}

} // verus!
