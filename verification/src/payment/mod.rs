//! Payments by agents, within their balance and limits, less the platform
//! fee.

use vstd::prelude::*;

use crate::agent::{get_agent, is_paused, Agent, AgentStatus};
use crate::limits::{
    check_daily_limit, check_monthly_limit, check_weekly_limit, daily_fits, daily_record, day_of,
    get_limits, month_of, monthly_fits, monthly_record, record_daily, record_monthly, record_weekly,
    week_of, weekly_fits, weekly_record, within_daily_limit, within_monthly_limit, within_weekly_limit,
    daily_spending_now, monthly_spending_now, weekly_spending_now,
};
use crate::storage::{Address, Env, EscrowState, TokenTransfer};
use crate::EscrowError;

verus! {

/// Basis points in the whole of a payment.
pub const BPS_DENOMINATOR: i128 = 10000;

/// A payment made by an agent.
#[derive(Debug, PartialEq, Eq)]
pub struct Transaction {
    pub id: u64,
    pub agent_id: u64,
    pub from_agent: Address,
    pub to_recipient: Address,
    pub token_address: Address,
    pub amount: i128,
    pub fee: i128,
    pub net_amount: i128,
    pub status: TransactionStatus,
    pub created_at: u64,
    pub processed_at: Option<u64>,
    pub memo: Option<String>,
    pub tx_hash: [u8; 32],
}

/// Where a payment stands.
#[derive(Clone, Copy, Debug, PartialEq, Eq, Structural)]
pub enum TransactionStatus {
    Pending,
    Executed,
    Failed,
    Refunded,
}

impl View for Transaction {
    type V = Transaction;

    open spec fn view(&self) -> Transaction {
        *self
    }
}

impl Transaction {
    /// A copy of this transaction.
    pub fn duplicate(&self) -> (t: Transaction)
        ensures
            t == *self,
    {
        let memo = match &self.memo {
            Some(m) => Some(m.clone()),
            None => None,
        };
        Transaction {
            id: self.id,
            agent_id: self.agent_id,
            from_agent: self.from_agent.duplicate(),
            to_recipient: self.to_recipient.duplicate(),
            token_address: self.token_address.duplicate(),
            amount: self.amount,
            fee: self.fee,
            net_amount: self.net_amount,
            status: self.status,
            created_at: self.created_at,
            processed_at: self.processed_at,
            memo,
            tx_hash: self.tx_hash,
        }
    }
}

/// `x / y` rounded toward zero, as integer division does.
pub open spec fn div_toward_zero(x: int, y: int) -> int {
    if x >= 0 {
        x / y
    } else {
        -((-x) / y)
    }
}

/// The platform's fee on a payment of `amount` at `fee_bps` basis points.
pub open spec fn platform_fee(amount: i128, fee_bps: u32) -> int {
    div_toward_zero(amount * fee_bps, BPS_DENOMINATOR as int)
}

/// The id of the agent at `agent_address`, if one is registered there.
pub open spec fn agent_id_at(s: EscrowState, agent_address: Address) -> u64 {
    s.agent_ids[agent_address@]
}

/// Whether `pay` gets as far as counting the payment against the limits.
pub open spec fn pay_reaches_limits(s: EscrowState, agent_address: Address, amount: i128) -> bool {
    let id = agent_id_at(s, agent_address);
    &&& !s.is_paused()
    &&& s.agent_ids.contains_key(agent_address@)
    &&& s.agents.contains_key(id)
    &&& s.agents[id].status == AgentStatus::Active
    &&& s.agents[id].remaining_balance >= amount
    &&& s.limits.contains_key(id)
    &&& amount <= s.limits[id].max_per_transaction
}

/// Why `pay` refuses, if it does. The checks come in this order.
pub open spec fn pay_error(s: EscrowState, now: u64, agent_address: Address, amount: i128) -> Option<EscrowError> {
    let id = agent_id_at(s, agent_address);
    if s.is_paused() {
        Some(EscrowError::ContractPaused)
    } else if !s.agent_ids.contains_key(agent_address@) {
        Some(EscrowError::AgentNotFound)
    } else if !s.agents.contains_key(id) {
        Some(EscrowError::AgentNotFound)
    } else if s.agents[id].status != AgentStatus::Active {
        Some(EscrowError::AgentPaused)
    } else if s.agents[id].remaining_balance < amount {
        Some(EscrowError::InsufficientBalance)
    } else if !s.limits.contains_key(id) {
        Some(EscrowError::AgentNotFound)
    } else if amount > s.limits[id].max_per_transaction {
        Some(EscrowError::PerTransactionLimitExceeded)
    } else if !within_monthly_limit(s, now, id, amount, s.limits[id]) {
        Some(EscrowError::MonthlyLimitExceeded)
    } else if !within_daily_limit(s, now, id, amount, s.limits[id]) {
        Some(EscrowError::DailyLimitExceeded)
    } else if !within_weekly_limit(s, now, id, amount, s.limits[id]) {
        Some(EscrowError::WeeklyLimitExceeded)
    } else if s.config is None {
        Some(EscrowError::NotInitialized)
    } else {
        None
    }
}

/// `a` debited with a payment of `amount` at `now`.
pub open spec fn debited(a: Agent, amount: i128, now: u64) -> Agent {
    Agent {
        total_spent: (a.total_spent + amount) as i128,
        remaining_balance: (a.remaining_balance - amount) as i128,
        last_activity: now,
        ..a
    }
}

/// The transaction that a successful `pay` records.
pub open spec fn paid_transaction(
    s: EscrowState,
    now: u64,
    agent_address: Address,
    recipient: Address,
    token_address: Address,
    amount: i128,
    memo: Option<String>,
) -> Transaction {
    let fee = platform_fee(amount, s.config.unwrap().platform_fee_bps);
    Transaction {
        id: (s.transaction_count_value() + 1) as u64,
        agent_id: agent_id_at(s, agent_address),
        from_agent: agent_address,
        to_recipient: recipient,
        token_address,
        amount,
        fee: fee as i128,
        net_amount: (amount - fee) as i128,
        status: TransactionStatus::Executed,
        created_at: now,
        processed_at: Some(now),
        memo,
        tx_hash: vstd::array::spec_array_fill_for_copy_type::<u8, 32>(0u8),
    }
}

/// What `pay` leaves in storage and returns.
pub open spec fn pay_outcome(
    s: EscrowState,
    now: u64,
    agent_address: Address,
    recipient: Address,
    token_address: Address,
    amount: i128,
    memo: Option<String>,
) -> (EscrowState, Result<u64, EscrowError>) {
    match pay_error(s, now, agent_address, amount) {
        Some(e) => (s, Err(e)),
        None => {
            let id = agent_id_at(s, agent_address);
            let tx = paid_transaction(s, now, agent_address, recipient, token_address, amount, memo);
            let counted = record_weekly(record_daily(record_monthly(s, now, id, amount), now, id, amount), now, id, amount);
            (
                EscrowState {
                    agents: s.agents.insert(id, debited(s.agents[id], amount, now)),
                    transactions: s.transactions.insert(tx.id, tx),
                    transaction_count: Some(tx.id),
                    ..counted
                },
                Ok(tx.id),
            )
        },
    }
}

/// The transfers that a successful `pay` asks for: the net amount to the
/// recipient, then the fee, where there is one, to the treasury.
pub open spec fn pay_transfers(s: EscrowState, contract: Address, recipient: Address, token_address: Address, amount: i128) -> Seq<TokenTransfer> {
    let config = s.config.unwrap();
    let fee = platform_fee(amount, config.platform_fee_bps);
    let to_recipient = TokenTransfer { token: token_address, spender: None, from: contract, to: recipient, amount: (amount - fee) as i128 };
    let to_treasury = TokenTransfer { token: token_address, spender: None, from: contract, to: config.treasury, amount: fee as i128 };
    if fee > 0 {
        seq![to_recipient, to_treasury]
    } else {
        seq![to_recipient]
    }
}

/// The arithmetic of `pay` stays in range on the way it takes.
pub open spec fn pay_fits(s: EscrowState, now: u64, agent_address: Address, amount: i128) -> bool {
    let id = agent_id_at(s, agent_address);
    let limits = s.limits[id];
    &&& pay_reaches_limits(s, agent_address, amount)
        ==> i128::MIN <= monthly_record(s, id, month_of(now)).amount_spent + amount <= i128::MAX
    &&& pay_reaches_limits(s, agent_address, amount) && within_monthly_limit(s, now, id, amount, limits)
        ==> i128::MIN <= daily_record(s, id, day_of(now)).amount_spent + amount <= i128::MAX
    &&& pay_reaches_limits(s, agent_address, amount) && within_monthly_limit(s, now, id, amount, limits)
        && within_daily_limit(s, now, id, amount, limits)
        ==> i128::MIN <= weekly_record(s, id, week_of(now)).amount_spent + amount <= i128::MAX
    &&& pay_error(s, now, agent_address, amount) is None ==> {
        let a = s.agents[id];
        let fee = platform_fee(amount, s.config.unwrap().platform_fee_bps);
        &&& i128::MIN <= amount * s.config.unwrap().platform_fee_bps <= i128::MAX
        &&& i128::MIN <= amount - fee <= i128::MAX
        &&& i128::MIN <= a.total_spent + amount <= i128::MAX
        &&& i128::MIN <= a.remaining_balance - amount <= i128::MAX
        &&& s.transaction_count_value() < u64::MAX
        &&& monthly_fits(s, now, id, amount)
        &&& weekly_fits(s, now, id, amount)
        &&& daily_fits(s, now, id, amount)
    }
}

/// Whether the arithmetic of paying `amount` from the agent at
/// `agent_address` stays in range, so that `pay` may be called.
pub fn pay_in_range(env: &Env, agent_address: &Address, amount: i128) -> (r: bool)
    ensures
        r == pay_fits(env.storage@, env.ledger.timestamp, *agent_address, amount),
{
    if is_paused(env) {
        return true;
    }
    let id: u64 = match env.storage.agent_ids.get(agent_address) {
        Some(i) => *i,
        None => return true,
    };
    let agent = match env.storage.agents.get(&id) {
        Some(a) => a,
        None => return true,
    };
    match agent.status {
        AgentStatus::Active => {},
        _ => return true,
    }
    if agent.remaining_balance < amount {
        return true;
    }
    let limits = match env.storage.limits.get(&id) {
        Some(l) => l,
        None => return true,
    };
    if amount > limits.max_per_transaction {
        return true;
    }
    let month = monthly_spending_now(env, id);
    let month_total = match month.amount_spent.checked_add(amount) {
        Some(v) => v,
        None => return false,
    };
    if month_total > limits.monthly_limit {
        return true;
    }
    let day = daily_spending_now(env, id);
    let day_total = match day.amount_spent.checked_add(amount) {
        Some(v) => v,
        None => return false,
    };
    if day_total > limits.daily_limit {
        return true;
    }
    let week = weekly_spending_now(env, id);
    let week_total = match week.amount_spent.checked_add(amount) {
        Some(v) => v,
        None => return false,
    };
    if week_total > limits.weekly_limit {
        return true;
    }
    let fee_bps = match &env.storage.config {
        Some(config) => config.platform_fee_bps,
        None => return true,
    };
    let gross = match amount.checked_mul(fee_bps as i128) {
        Some(g) => g,
        None => return false,
    };
    let fee = gross / BPS_DENOMINATOR;
    let tx_count: u64 = env.storage.transaction_count.unwrap_or(0);
    amount.checked_sub(fee).is_some() && agent.total_spent.checked_add(amount).is_some()
        && agent.remaining_balance.checked_sub(amount).is_some() && tx_count < u64::MAX && month.tx_count < u32::MAX
        && day.tx_count < u32::MAX && week.tx_count < u32::MAX
}

/// The fee on `amount` at `fee_bps` basis points, rounded toward zero.
fn fee_on(amount: i128, fee_bps: u32) -> (fee: i128)
    requires
        i128::MIN <= amount * fee_bps <= i128::MAX,
    ensures
        fee == platform_fee(amount, fee_bps),
{
    let gross = amount * (fee_bps as i128);
    gross / BPS_DENOMINATOR
}

/// Pays `amount` of `token_address` from the agent at `agent_address` to
/// `recipient`: the recipient gets the amount less the platform fee, the
/// treasury the fee, and the agent's balance goes down by the amount.
/// Requires the agent's authorization.
///
/// Refuses, in this order, while the escrow is paused (`ContractPaused`),
/// where no agent is at the address (`AgentNotFound`), where the agent is
/// not active (`AgentPaused`), where its balance is short
/// (`InsufficientBalance`), where it has no limits (`AgentNotFound`), and
/// where the payment passes the per-transaction, monthly, daily or weekly
/// cap, or the escrow is not set up (`NotInitialized`).
pub fn pay(
    env: &mut Env,
    agent_address: Address,
    recipient: Address,
    token_address: Address,
    amount: i128,
    memo: Option<String>,
) -> (r: Result<u64, EscrowError>)
    requires
        pay_fits(old(env).storage@, old(env).ledger.timestamp, agent_address, amount),
    ensures
        (final(env).storage@, r) == pay_outcome(
            old(env).storage@,
            old(env).ledger.timestamp,
            agent_address,
            recipient,
            token_address,
            amount,
            memo,
        ),
        r is Err ==> final(env).storage@ == old(env).storage@,
        final(env).auths@ == old(env).auths@.push(agent_address),
        r is Ok ==> final(env).transfers@ == old(env).transfers@ + pay_transfers(
            old(env).storage@,
            old(env).ledger.contract,
            recipient,
            token_address,
            amount,
        ),
        r is Err ==> final(env).transfers@ == old(env).transfers@,
        final(env).ledger == old(env).ledger,
{
    env.auths.push(agent_address.duplicate());
    if is_paused(env) {
        return Err(EscrowError::ContractPaused);
    }
    let agent_id: u64 = match env.storage.agent_ids.get(&agent_address) {
        Some(id) => *id,
        None => return Err(EscrowError::AgentNotFound),
    };
    let mut agent = match get_agent(env, agent_id) {
        Some(a) => a,
        None => return Err(EscrowError::AgentNotFound),
    };
    match agent.status {
        AgentStatus::Active => {},
        _ => return Err(EscrowError::AgentPaused),
    }
    if agent.remaining_balance < amount {
        return Err(EscrowError::InsufficientBalance);
    }
    let limits = match get_limits(env, agent_id) {
        Some(l) => l,
        None => return Err(EscrowError::AgentNotFound),
    };
    if amount > limits.max_per_transaction {
        return Err(EscrowError::PerTransactionLimitExceeded);
    }
    let now = env.ledger.timestamp;
    if monthly_spending_now(env, agent_id).amount_spent + amount > limits.monthly_limit {
        return Err(EscrowError::MonthlyLimitExceeded);
    }
    if daily_spending_now(env, agent_id).amount_spent + amount > limits.daily_limit {
        return Err(EscrowError::DailyLimitExceeded);
    }
    if weekly_spending_now(env, agent_id).amount_spent + amount > limits.weekly_limit {
        return Err(EscrowError::WeeklyLimitExceeded);
    }
    let (fee_bps, treasury) = match &env.storage.config {
        Some(config) => (config.platform_fee_bps, config.treasury.duplicate()),
        None => return Err(EscrowError::NotInitialized),
    };
    let fee = fee_on(amount, fee_bps);
    let net_amount = amount - fee;

    // Every check has passed above, so counting the payment succeeds.
    let counted_monthly = check_monthly_limit(env, agent_id, amount, &limits);
    let counted_daily = check_daily_limit(env, agent_id, amount, &limits);
    let counted_weekly = check_weekly_limit(env, agent_id, amount, &limits);
    assert(counted_monthly is Ok && counted_daily is Ok && counted_weekly is Ok);

    let contract = env.ledger.contract.duplicate();
    env.transfers.push(TokenTransfer {
        token: token_address.duplicate(),
        spender: None,
        from: contract.duplicate(),
        to: recipient.duplicate(),
        amount: net_amount,
    });
    if fee > 0 {
        env.transfers.push(TokenTransfer {
            token: token_address.duplicate(),
            spender: None,
            from: contract,
            to: treasury,
            amount: fee,
        });
    }

    agent.total_spent = agent.total_spent + amount;
    agent.remaining_balance = agent.remaining_balance - amount;
    agent.last_activity = now;
    env.storage.agents.set(agent_id, agent);

    let tx_id: u64 = env.storage.transaction_count.unwrap_or(0);
    let new_tx_id = tx_id + 1;
    let tx = Transaction {
        id: new_tx_id,
        agent_id,
        from_agent: agent_address,
        to_recipient: recipient,
        token_address,
        amount,
        fee,
        net_amount,
        status: TransactionStatus::Executed,
        created_at: now,
        processed_at: Some(now),
        memo,
        tx_hash: [0u8; 32],
    };
    env.storage.transactions.set(new_tx_id, tx);
    env.storage.transaction_count = Some(new_tx_id);
    Ok(new_tx_id)
}

/// The transaction with id `tx_id`, if there is one.
pub fn get_transaction(env: &Env, tx_id: u64) -> (r: Option<Transaction>)
    ensures
        r == env.storage@.transactions.get(tx_id),
{
    match env.storage.transactions.get(&tx_id) {
        Some(t) => Some(t.duplicate()),
        None => None,
    }
}

} // verus!
