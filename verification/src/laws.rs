//! What holds of the escrow across calls.

use vstd::prelude::*;

use crate::agent::{
    deposit_transfer,
    initial_config, initialize_outcome,
    create_agent_fits, create_agent_outcome, deposit_fits, deposit_outcome, new_agent, set_paused_outcome,
    set_status_outcome, AgentStatus,
};
use crate::dispute::{raise_dispute_fits, raise_dispute_outcome, refund_transfers, resolve_dispute_outcome, DisputeStatus};
use crate::limits::{day_of, default_limits, month_of, set_limits_outcome, week_of};
use crate::overseer::{add_overseer_fits, add_overseer_outcome, check_overseer_role_result, role_grants, OverseerRole};
use crate::payment::{agent_id_at, pay_error, pay_fits, pay_outcome, pay_transfers, platform_fee};
use crate::storage::{Address, EscrowState, TokenTransfer};
use crate::{contract_initialize_outcome, EscrowError};

verus! {

/// A call that changes the escrow, with its arguments.
pub enum Call {
    Initialize { treasury: Address, platform_fee_bps: u32, min_deposit: i128, max_deposit: i128, initial_overseer: Address },
    CreateAgent { overseer: Address, agent_address: Address, name: String },
    Deposit { agent_id: u64, amount: i128 },
    SetLimits {
        overseer: Address,
        agent_id: u64,
        max_per_tx: Option<i128>,
        daily: Option<i128>,
        weekly: Option<i128>,
        monthly: Option<i128>,
    },
    Pay { agent_address: Address, recipient: Address, token_address: Address, amount: i128, memo: Option<String> },
    RaiseDispute { agent_address: Address, transaction_id: u64, reason: String },
    ResolveDispute { overseer: Address, dispute_id: u64, resolution: String },
    PauseAgent { agent_id: u64 },
    ResumeAgent { agent_id: u64 },
    AddOverseer { new_overseer: Address, name: String, role: OverseerRole },
    SetPaused { paused: bool },
}

/// Why a call was refused, if it was.
pub open spec fn refusal<T>(r: Result<T, EscrowError>) -> Option<EscrowError> {
    match r {
        Ok(_) => None,
        Err(e) => Some(e),
    }
}

/// The storage that `call` at `now` leaves, and why it was refused, if it
/// was.
pub open spec fn step(s: EscrowState, now: u64, call: Call) -> (EscrowState, Option<EscrowError>) {
    match call {
        Call::Initialize { treasury, platform_fee_bps, min_deposit, max_deposit, initial_overseer } => {
            let (t, r) = contract_initialize_outcome(s, now, treasury, platform_fee_bps, min_deposit, max_deposit, initial_overseer);
            (t, refusal(r))
        },
        Call::CreateAgent { overseer, agent_address, name } => {
            let (t, r) = create_agent_outcome(s, now, overseer, agent_address, name);
            (t, refusal(r))
        },
        Call::Deposit { agent_id, amount } => {
            let (t, r) = deposit_outcome(s, now, agent_id, amount);
            (t, refusal(r))
        },
        Call::SetLimits { overseer, agent_id, max_per_tx, daily, weekly, monthly } => {
            let (t, r) = set_limits_outcome(s, now, overseer, agent_id, max_per_tx, daily, weekly, monthly);
            (t, refusal(r))
        },
        Call::Pay { agent_address, recipient, token_address, amount, memo } => {
            let (t, r) = pay_outcome(s, now, agent_address, recipient, token_address, amount, memo);
            (t, refusal(r))
        },
        Call::RaiseDispute { agent_address, transaction_id, reason } => {
            let (t, r) = raise_dispute_outcome(s, now, agent_address, transaction_id, reason);
            (t, refusal(r))
        },
        Call::ResolveDispute { overseer, dispute_id, resolution } => {
            let (t, r) = resolve_dispute_outcome(s, now, overseer, dispute_id, resolution);
            (t, refusal(r))
        },
        Call::PauseAgent { agent_id } => {
            let (t, r) = set_status_outcome(s, now, agent_id, AgentStatus::Paused);
            (t, refusal(r))
        },
        Call::ResumeAgent { agent_id } => {
            let (t, r) = set_status_outcome(s, now, agent_id, AgentStatus::Active);
            (t, refusal(r))
        },
        Call::AddOverseer { new_overseer, name, role } => {
            let (t, r) = add_overseer_outcome(s, now, new_overseer, name@, role);
            (t, refusal(r))
        },
        Call::SetPaused { paused } => {
            let (t, r) = set_paused_outcome(s, paused);
            (t, refusal(r))
        },
    }
}

/// The arithmetic of `call` stays in range (where it would not, the call
/// cannot be made).
pub open spec fn call_fits(s: EscrowState, now: u64, call: Call) -> bool {
    match call {
        Call::Initialize { initial_overseer, .. } => add_overseer_fits(s, initial_overseer),
        Call::CreateAgent { .. } => create_agent_fits(s),
        Call::Deposit { agent_id, amount } => deposit_fits(s, agent_id, amount),
        Call::Pay { agent_address, amount, .. } => pay_fits(s, now, agent_address, amount),
        Call::RaiseDispute { agent_address, transaction_id, .. } => raise_dispute_fits(s, agent_address, transaction_id),
        Call::AddOverseer { new_overseer, .. } => add_overseer_fits(s, new_overseer),
        _ => true,
    }
}

/// Every agent's remaining balance is what was deposited for it less what
/// it spent.
pub open spec fn balances_consistent(s: EscrowState) -> bool {
    forall|id: u64| #[trigger] s.agents.contains_key(id)
        ==> s.agents[id].remaining_balance == s.agents[id].total_deposited - s.agents[id].total_spent
}

/// Stored transactions, disputes and agents carry ids that their counters
/// have handed out.
pub open spec fn ids_handed_out(s: EscrowState) -> bool {
    &&& forall|id: u64| #[trigger] s.transactions.contains_key(id) ==> 1 <= id <= s.transaction_count_value()
    &&& forall|id: u64| #[trigger] s.disputes.contains_key(id) ==> 1 <= id <= s.dispute_count_value()
    &&& forall|id: u64| #[trigger] s.agents.contains_key(id) ==> 1 <= id < s.next_agent_id_value()
    &&& s.next_agent_id_value() >= 1
}

/// Setting the escrow up resets its counters, so it keeps the ids in step
/// only where nothing was recorded before.
pub open spec fn resets_nothing_recorded(s: EscrowState, call: Call) -> bool {
    call is Initialize && s.version is None ==> {
        &&& s.agents == Map::<u64, crate::agent::Agent>::empty()
        &&& s.transactions == Map::<u64, crate::payment::Transaction>::empty()
        &&& s.disputes == Map::<u64, crate::dispute::Dispute>::empty()
    }
}

/// The history is kept: every call leaves each recorded transaction as it
/// was, keeps every dispute and agent, and hands out only fresh ids.
pub proof fn calls_keep_history(s: EscrowState, now: u64, call: Call)
    requires
        ids_handed_out(s),
        call_fits(s, now, call),
        resets_nothing_recorded(s, call),
    ensures
        ids_handed_out(step(s, now, call).0),
        forall|id: u64| #[trigger] s.transactions.contains_key(id) ==> step(s, now, call).0.transactions.contains_key(id)
            && step(s, now, call).0.transactions[id] == s.transactions[id],
        forall|id: u64| #[trigger] s.disputes.contains_key(id) ==> step(s, now, call).0.disputes.contains_key(id),
        forall|id: u64| #[trigger] s.agents.contains_key(id) ==> step(s, now, call).0.agents.contains_key(id),
{
    match call {
        Call::Pay { agent_address, amount, .. } => {
            if pay_error(s, now, agent_address, amount) is None {
                let fresh = (s.transaction_count_value() + 1) as u64;
                assert(fresh == s.transaction_count_value() + 1);
                assert(!s.transactions.contains_key(fresh));
            }
        },
        Call::RaiseDispute { agent_address, transaction_id, reason } => {
            if raise_dispute_outcome(s, now, agent_address, transaction_id, reason).1 is Ok {
                let fresh = (s.dispute_count_value() + 1) as u64;
                assert(fresh == s.dispute_count_value() + 1);
                assert(!s.disputes.contains_key(fresh));
            }
        },
        _ => {},
    }
}

/// Storage in which nothing was written keeps the invariants that the
/// calls preserve.
pub proof fn empty_storage_is_consistent()
    ensures
        balances_consistent(EscrowState::empty()),
        ids_handed_out(EscrowState::empty()),
{
}

/// A refused call changes nothing in storage.
pub proof fn refused_calls_change_nothing(s: EscrowState, now: u64, call: Call)
    ensures
        step(s, now, call).1 is Some ==> step(s, now, call).0 == s,
{
}

/// Every call keeps each agent's remaining balance equal to what was
/// deposited for it less what it spent.
pub proof fn calls_keep_balances_consistent(s: EscrowState, now: u64, call: Call)
    requires
        balances_consistent(s),
        call_fits(s, now, call),
    ensures
        balances_consistent(step(s, now, call).0),
{
    let t = step(s, now, call).0;
    assert forall|id: u64| #[trigger] t.agents.contains_key(id) implies t.agents[id].remaining_balance
        == t.agents[id].total_deposited - t.agents[id].total_spent by {
        if s.agents.contains_key(id) {
            assert(s.agents[id].remaining_balance == s.agents[id].total_deposited - s.agents[id].total_spent);
        }
    }
}

/// The escrow is set up once: after it is, setting it up again is refused.
pub proof fn initialize_only_once(
    s: EscrowState,
    now: u64,
    treasury: Address,
    platform_fee_bps: u32,
    min_deposit: i128,
    max_deposit: i128,
    initial_overseer: Address,
    later: u64,
    treasury2: Address,
    platform_fee_bps2: u32,
    min_deposit2: i128,
    max_deposit2: i128,
    initial_overseer2: Address,
)
    ensures
        ({
            let (t, r) = contract_initialize_outcome(s, now, treasury, platform_fee_bps, min_deposit, max_deposit, initial_overseer);
            r is Ok ==> contract_initialize_outcome(
                t,
                later,
                treasury2,
                platform_fee_bps2,
                min_deposit2,
                max_deposit2,
                initial_overseer2,
            ).1 == Err::<(), EscrowError>(EscrowError::AlreadyInitialized)
        }),
{
}

/// A freshly set-up escrow is unpaused, has no agents counted, and has the
/// initial overseer as super admin.
pub proof fn initialize_starts_clean(
    s: EscrowState,
    now: u64,
    treasury: Address,
    platform_fee_bps: u32,
    min_deposit: i128,
    max_deposit: i128,
    initial_overseer: Address,
)
    ensures
        ({
            let (t, r) = contract_initialize_outcome(s, now, treasury, platform_fee_bps, min_deposit, max_deposit, initial_overseer);
            r is Ok ==> {
                &&& !t.is_paused()
                &&& t.agent_count_value() == 0
                &&& t.next_agent_id_value() == 1
                &&& t.overseers.contains_key(initial_overseer@)
                &&& t.overseers[initial_overseer@].role == OverseerRole::SuperAdmin
                &&& t.config == Some(crate::agent::initial_config(treasury, platform_fee_bps, min_deposit, max_deposit))
            }
        }),
{
}

/// Creating an agent, unless the escrow is paused, gives it the next id,
/// counts it, and stores it, its address and its default limits, where the
/// getters read them back.
pub proof fn create_agent_then_read(s: EscrowState, now: u64, overseer: Address, agent_address: Address, name: String)
    requires
        !s.is_paused(),
        create_agent_fits(s),
    ensures
        ({
            let (t, r) = create_agent_outcome(s, now, overseer, agent_address, name);
            let id = s.next_agent_id_value();
            &&& r == Ok::<u64, EscrowError>(id)
            &&& t.agents.get(id) == Some(new_agent(id, agent_address, name, now))
            &&& t.agent_ids[agent_address@] == id
            &&& t.limits[id] == default_limits(id, overseer, now)
            &&& t.agent_count_value() == s.agent_count_value() + 1
            &&& t.next_agent_id_value() == id + 1
        }),
{
}

/// A deposit credits the agent's balance and its total deposited with the
/// amount.
pub proof fn deposit_credits_balance(s: EscrowState, now: u64, agent_id: u64, amount: i128)
    requires
        deposit_fits(s, agent_id, amount),
    ensures
        ({
            let (t, r) = deposit_outcome(s, now, agent_id, amount);
            r is Ok ==> {
                &&& t.agents[agent_id].remaining_balance == s.agents[agent_id].remaining_balance + amount
                &&& t.agents[agent_id].total_deposited == s.agents[agent_id].total_deposited + amount
                &&& t.agents[agent_id].total_spent == s.agents[agent_id].total_spent
            }
        }),
{
}

/// A payment debits the agent's balance with the amount and records a
/// transaction under the next id that holds the amount, the recipient, and
/// a fee and net amount that add up to the amount.
pub proof fn pay_debits_and_records(
    s: EscrowState,
    now: u64,
    agent_address: Address,
    recipient: Address,
    token_address: Address,
    amount: i128,
    memo: Option<String>,
)
    requires
        pay_fits(s, now, agent_address, amount),
    ensures
        ({
            let (t, r) = pay_outcome(s, now, agent_address, recipient, token_address, amount, memo);
            let id = agent_id_at(s, agent_address);
            r is Ok ==> {
                let tx_id = r->Ok_0;
                &&& tx_id == s.transaction_count_value() + 1
                &&& t.transactions.contains_key(tx_id)
                &&& t.transactions[tx_id].amount == amount
                &&& t.transactions[tx_id].to_recipient == recipient
                &&& t.transactions[tx_id].agent_id == id
                &&& t.transactions[tx_id].fee + t.transactions[tx_id].net_amount == amount
                &&& t.transactions[tx_id].fee == platform_fee(amount, s.config.unwrap().platform_fee_bps)
                &&& t.agents[id].remaining_balance == s.agents[id].remaining_balance - amount
                &&& t.agents[id].total_spent == s.agents[id].total_spent + amount
                &&& t.agents[id].remaining_balance >= 0
            }
        }),
{
}

/// A payment that goes through keeps within every cap of the agent: the
/// per-transaction cap, and the day's, week's and month's spending,
/// counting this payment.
pub proof fn pay_stays_within_limits(
    s: EscrowState,
    now: u64,
    agent_address: Address,
    recipient: Address,
    token_address: Address,
    amount: i128,
    memo: Option<String>,
)
    requires
        pay_fits(s, now, agent_address, amount),
    ensures
        ({
            let (t, r) = pay_outcome(s, now, agent_address, recipient, token_address, amount, memo);
            let id = agent_id_at(s, agent_address);
            let limits = s.limits[id];
            r is Ok ==> {
                &&& amount <= limits.max_per_transaction
                &&& amount <= s.agents[id].remaining_balance
                &&& t.daily[(id, now / 86400)].amount_spent <= limits.daily_limit
                &&& t.weekly[(id, now / 604800)].amount_spent <= limits.weekly_limit
                &&& t.monthly[(id, now / 2592000)].amount_spent <= limits.monthly_limit
            }
        }),
{
}

/// While the escrow is paused it creates no agents and takes no deposits
/// or payments.
pub proof fn paused_escrow_refuses(
    s: EscrowState,
    now: u64,
    overseer: Address,
    agent_address: Address,
    name: String,
    agent_id: u64,
    amount: i128,
    recipient: Address,
    token_address: Address,
    memo: Option<String>,
)
    requires
        s.is_paused(),
    ensures
        create_agent_outcome(s, now, overseer, agent_address, name).1 == Err::<u64, EscrowError>(EscrowError::ContractPaused),
        deposit_outcome(s, now, agent_id, amount).1 == Err::<(), EscrowError>(EscrowError::ContractPaused),
        pay_outcome(s, now, agent_address, recipient, token_address, amount, memo).1 == Err::<u64, EscrowError>(
            EscrowError::ContractPaused,
        ),
{
}

/// Pausing or unpausing the escrow is what reading its paused flag then
/// gives back.
pub proof fn set_paused_then_is_paused(s: EscrowState, paused: bool)
    requires
        s.config is Some,
    ensures
        set_paused_outcome(s, paused).1 is Ok,
        set_paused_outcome(s, paused).0.is_paused() == paused,
{
}

/// A paused agent cannot pay, while the escrow itself is not paused.
pub proof fn paused_agent_cannot_pay(
    s: EscrowState,
    now: u64,
    later: u64,
    agent_address: Address,
    recipient: Address,
    token_address: Address,
    amount: i128,
    memo: Option<String>,
)
    requires
        !s.is_paused(),
        s.agent_ids.contains_key(agent_address@),
        s.agents.contains_key(agent_id_at(s, agent_address)),
    ensures
        ({
            let id = agent_id_at(s, agent_address);
            let t = set_status_outcome(s, now, id, AgentStatus::Paused).0;
            pay_outcome(t, later, agent_address, recipient, token_address, amount, memo).1 == Err::<u64, EscrowError>(
                EscrowError::AgentPaused,
            )
        }),
{
}

/// Resuming a paused agent makes it active again and changes nothing else
/// of it but its last activity.
pub proof fn resume_undoes_pause(s: EscrowState, now: u64, later: u64, agent_id: u64)
    requires
        s.agents.contains_key(agent_id),
    ensures
        ({
            let paused = set_status_outcome(s, now, agent_id, AgentStatus::Paused).0;
            let (resumed, r) = set_status_outcome(paused, later, agent_id, AgentStatus::Active);
            let a = s.agents[agent_id];
            &&& r is Ok
            &&& resumed.agents[agent_id] == crate::agent::Agent {
                status: AgentStatus::Active,
                last_activity: later,
                ..a
            }
        }),
{
}

/// Setting limits replaces the caps that are given and keeps the others,
/// and reading the limits back gives that.
pub proof fn set_limits_then_get(
    s: EscrowState,
    now: u64,
    overseer: Address,
    agent_id: u64,
    max_per_tx: Option<i128>,
    daily: Option<i128>,
    weekly: Option<i128>,
    monthly: Option<i128>,
)
    requires
        s.limits.contains_key(agent_id),
    ensures
        ({
            let (t, r) = set_limits_outcome(s, now, overseer, agent_id, max_per_tx, daily, weekly, monthly);
            let old_limits = s.limits[agent_id];
            let new_limits = t.limits[agent_id];
            &&& r is Ok
            &&& new_limits.max_per_transaction == (match max_per_tx {
                Some(v) => v,
                None => old_limits.max_per_transaction,
            })
            &&& new_limits.daily_limit == (match daily {
                Some(v) => v,
                None => old_limits.daily_limit,
            })
            &&& new_limits.weekly_limit == (match weekly {
                Some(v) => v,
                None => old_limits.weekly_limit,
            })
            &&& new_limits.monthly_limit == (match monthly {
                Some(v) => v,
                None => old_limits.monthly_limit,
            })
            &&& new_limits.updated_by == overseer
            &&& new_limits.updated_at == now
        }),
{
}

/// A dispute is resolved once: resolving it again is refused.
pub proof fn dispute_resolves_once(
    s: EscrowState,
    now: u64,
    later: u64,
    overseer: Address,
    overseer2: Address,
    dispute_id: u64,
    resolution: String,
    resolution2: String,
)
    ensures
        ({
            let (t, r) = resolve_dispute_outcome(s, now, overseer, dispute_id, resolution);
            r is Ok ==> {
                &&& t.disputes[dispute_id].status == DisputeStatus::Resolved
                &&& resolve_dispute_outcome(t, later, overseer2, dispute_id, resolution2).1 == Err::<(), EscrowError>(
                    EscrowError::DisputeAlreadyResolved,
                )
            }
        }),
{
}

/// Only the agent that made a payment can dispute it, and the dispute it
/// opens is stored under the next id, open.
pub proof fn disputes_come_from_the_payer(s: EscrowState, now: u64, agent_address: Address, transaction_id: u64, reason: String)
    requires
        raise_dispute_fits(s, agent_address, transaction_id),
    ensures
        ({
            let (t, r) = raise_dispute_outcome(s, now, agent_address, transaction_id, reason);
            r is Ok ==> {
                let id = r->Ok_0;
                &&& s.transactions[transaction_id].agent_id == s.agent_ids[agent_address@]
                &&& id == s.dispute_count_value() + 1
                &&& t.disputes[id].status == DisputeStatus::Open
                &&& t.disputes[id].transaction_id == transaction_id
            }
        }),
{
}

/// Roles are ranked: each grants what it and every lower role may do, a
/// super admin everything.
pub proof fn roles_are_ranked(a: OverseerRole, b: OverseerRole, c: OverseerRole)
    ensures
        role_grants(a, a),
        role_grants(a, b) && role_grants(b, c) ==> role_grants(a, c),
        role_grants(a, b) || role_grants(b, a),
        role_grants(a, b) && role_grants(b, a) ==> a == b,
        role_grants(OverseerRole::SuperAdmin, a),
        role_grants(a, OverseerRole::Viewer),
{
}

/// The storage that `call` at `now` leaves where it can be made; a call
/// whose arithmetic would leave its range aborts and leaves storage as it
/// was.
pub open spec fn apply(s: EscrowState, now: u64, call: Call) -> EscrowState {
    if call_fits(s, now, call) {
        step(s, now, call).0
    } else {
        s
    }
}

/// The storage that a sequence of calls, each at its time, leaves.
pub open spec fn run(s: EscrowState, calls: Seq<(u64, Call)>) -> EscrowState
    decreases calls.len(),
{
    if calls.len() == 0 {
        s
    } else {
        run(apply(s, calls[0].0, calls[0].1), calls.drop_first())
    }
}

/// Whether `call` at `now` creates an agent.
pub open spec fn creates_agent(s: EscrowState, now: u64, call: Call) -> bool {
    &&& call is CreateAgent
    &&& call_fits(s, now, call)
    &&& step(s, now, call).1 is None
}

/// How many agents a sequence of calls creates.
pub open spec fn creations(s: EscrowState, calls: Seq<(u64, Call)>) -> nat
    decreases calls.len(),
{
    if calls.len() == 0 {
        0
    } else {
        (if creates_agent(s, calls[0].0, calls[0].1) { 1nat } else { 0nat }) + creations(
            apply(s, calls[0].0, calls[0].1),
            calls.drop_first(),
        )
    }
}

/// The storage of an escrow that is set up: agents, transactions and
/// disputes are stored under exactly the ids 1 to their counters, each
/// record carries its id, and every transaction's fee and net amount add up
/// to its amount.
pub open spec fn settled(s: EscrowState) -> bool {
    &&& s.version is Some
    &&& s.config is Some
    &&& s.next_agent_id_value() == s.agent_count_value() + 1
    &&& forall|k: u64| #[trigger] s.agents.contains_key(k) <==> 1 <= k <= s.agent_count_value()
    &&& forall|k: u64| #[trigger] s.transactions.contains_key(k) <==> 1 <= k <= s.transaction_count_value()
    &&& forall|k: u64| #[trigger] s.transactions.contains_key(k) ==> {
        let t = s.transactions[k];
        &&& t.id == k
        &&& t.fee + t.net_amount == t.amount
    }
    &&& forall|k: u64| #[trigger] s.disputes.contains_key(k) <==> 1 <= k <= s.dispute_count_value()
    &&& forall|k: u64| #[trigger] s.disputes.contains_key(k) ==> s.disputes[k].id == k
}

/// The storage that setting up a fresh escrow leaves.
pub open spec fn fresh_setup(
    now: u64,
    treasury: Address,
    platform_fee_bps: u32,
    min_deposit: i128,
    max_deposit: i128,
    initial_overseer: Address,
) -> EscrowState {
    contract_initialize_outcome(
        EscrowState::empty(),
        now,
        treasury,
        platform_fee_bps,
        min_deposit,
        max_deposit,
        initial_overseer,
    ).0
}

/// A fee rounded toward zero from an amount in range is in range.
proof fn lemma_fee_in_range(amount: i128, fee_bps: u32)
    requires
        i128::MIN <= amount * fee_bps <= i128::MAX,
    ensures
        i128::MIN <= platform_fee(amount, fee_bps) <= i128::MAX,
{
    let x = amount * fee_bps;
    if x >= 0 {
        assert(x / 10000 <= x) by (nonlinear_arith)
            requires
                x >= 0,
        ;
    } else {
        assert((-x) / 10000 <= -x) by (nonlinear_arith)
            requires
                -x > 0,
        ;
    }
}

/// Every call keeps a set-up escrow settled.
pub proof fn calls_keep_settled(s: EscrowState, now: u64, call: Call)
    requires
        settled(s),
    ensures
        settled(apply(s, now, call)),
        agent_count_after(s, now, call),
{
    if call_fits(s, now, call) {
        let t = step(s, now, call).0;
        match call {
            Call::CreateAgent { overseer, agent_address, name } => {
                if !s.is_paused() {
                    let id = s.next_agent_id_value();
                    assert(id == s.agent_count_value() + 1);
                    assert forall|k: u64| #[trigger] t.agents.contains_key(k) <==> 1 <= k <= t.agent_count_value() by {
                        if k != id {
                            assert(t.agents.contains_key(k) == s.agents.contains_key(k));
                        }
                    }
                }
            },
            Call::Pay { agent_address, recipient, token_address, amount, memo } => {
                if pay_error(s, now, agent_address, amount) is None {
                    let fresh = (s.transaction_count_value() + 1) as u64;
                    let fee = platform_fee(amount, s.config.unwrap().platform_fee_bps);
                    lemma_fee_in_range(amount, s.config.unwrap().platform_fee_bps);
                    assert(fresh == s.transaction_count_value() + 1);
                    assert(t.transactions[fresh].fee == fee);
                    assert(t.transactions[fresh].net_amount == amount - fee);
                    assert forall|k: u64| #[trigger] t.transactions.contains_key(k) <==> 1 <= k
                        <= t.transaction_count_value() by {
                        if k != fresh {
                            assert(t.transactions.contains_key(k) == s.transactions.contains_key(k));
                        }
                    }
                    assert forall|k: u64| #[trigger] t.transactions.contains_key(k) implies ({
                        let x = t.transactions[k];
                        &&& x.id == k
                        &&& x.fee + x.net_amount == x.amount
                    }) by {
                        if k != fresh {
                            assert(s.transactions.contains_key(k));
                        }
                    }
                    assert forall|k: u64| #[trigger] t.agents.contains_key(k) <==> 1 <= k <= t.agent_count_value() by {
                        assert(t.agents.contains_key(k) == s.agents.contains_key(k));
                    }
                }
            },
            Call::RaiseDispute { agent_address, transaction_id, reason } => {
                if raise_dispute_outcome(s, now, agent_address, transaction_id, reason).1 is Ok {
                    let fresh = (s.dispute_count_value() + 1) as u64;
                    assert(fresh == s.dispute_count_value() + 1);
                    assert forall|k: u64| #[trigger] t.disputes.contains_key(k) <==> 1 <= k <= t.dispute_count_value() by {
                        if k != fresh {
                            assert(t.disputes.contains_key(k) == s.disputes.contains_key(k));
                        }
                    }
                }
            },
            _ => {},
        }
    }
}

/// How a call changes the agent count: by one where it creates an agent,
/// not at all otherwise.
pub open spec fn agent_count_after(s: EscrowState, now: u64, call: Call) -> bool {
    apply(s, now, call).agent_count_value() == s.agent_count_value() + (if creates_agent(s, now, call) {
        1int
    } else {
        0int
    })
}

/// Any sequence of calls keeps a set-up escrow settled, and its agent count
/// goes up by the agents the calls create.
pub proof fn runs_keep_settled(s: EscrowState, calls: Seq<(u64, Call)>)
    requires
        settled(s),
    ensures
        settled(run(s, calls)),
        run(s, calls).agent_count_value() == s.agent_count_value() + creations(s, calls),
    decreases calls.len(),
{
    if calls.len() > 0 {
        calls_keep_settled(s, calls[0].0, calls[0].1);
        runs_keep_settled(apply(s, calls[0].0, calls[0].1), calls.drop_first());
    }
}

/// Setting up a fresh escrow succeeds and leaves it settled, with its
/// configuration as given and no agents.
pub proof fn fresh_setup_is_settled(
    now: u64,
    treasury: Address,
    platform_fee_bps: u32,
    min_deposit: i128,
    max_deposit: i128,
    initial_overseer: Address,
)
    ensures
        contract_initialize_outcome(
            EscrowState::empty(),
            now,
            treasury,
            platform_fee_bps,
            min_deposit,
            max_deposit,
            initial_overseer,
        ).1 is Ok,
        settled(fresh_setup(now, treasury, platform_fee_bps, min_deposit, max_deposit, initial_overseer)),
        fresh_setup(now, treasury, platform_fee_bps, min_deposit, max_deposit, initial_overseer).config == Some(
            initial_config(treasury, platform_fee_bps, min_deposit, max_deposit),
        ),
        fresh_setup(now, treasury, platform_fee_bps, min_deposit, max_deposit, initial_overseer).agent_count_value() == 0,
{
}

/// Once set up, an escrow stays set up and keeps its configuration,
/// whatever calls follow.
pub proof fn setup_is_final(s: EscrowState, calls: Seq<(u64, Call)>)
    requires
        s.version is Some,
    ensures
        run(s, calls).version == s.version,
        run(s, calls).config == s.config,
    decreases calls.len(),
{
    if calls.len() > 0 {
        let next = apply(s, calls[0].0, calls[0].1);
        assert(next.version == s.version && next.config == s.config);
        setup_is_final(next, calls.drop_first());
    }
}

/// After a successful setup, setting up again is refused at any later time,
/// whatever calls came in between, and the refusal changes nothing; the
/// configuration stays the one first given.
pub proof fn setup_refused_ever_after(
    s: EscrowState,
    now: u64,
    treasury: Address,
    platform_fee_bps: u32,
    min_deposit: i128,
    max_deposit: i128,
    initial_overseer: Address,
    calls: Seq<(u64, Call)>,
    later: u64,
    treasury2: Address,
    platform_fee_bps2: u32,
    min_deposit2: i128,
    max_deposit2: i128,
    initial_overseer2: Address,
)
    requires
        contract_initialize_outcome(s, now, treasury, platform_fee_bps, min_deposit, max_deposit, initial_overseer).1 is Ok,
    ensures
        ({
            let u = run(
                contract_initialize_outcome(s, now, treasury, platform_fee_bps, min_deposit, max_deposit, initial_overseer).0,
                calls,
            );
            &&& contract_initialize_outcome(u, later, treasury2, platform_fee_bps2, min_deposit2, max_deposit2, initial_overseer2)
                == (u, Err::<(), EscrowError>(EscrowError::AlreadyInitialized))
            &&& initialize_outcome(u, treasury2, platform_fee_bps2, min_deposit2, max_deposit2) == (
                u,
                Err::<(), EscrowError>(EscrowError::AlreadyInitialized),
            )
            &&& u.config == Some(initial_config(treasury, platform_fee_bps, min_deposit, max_deposit))
        }),
{
    let t = contract_initialize_outcome(s, now, treasury, platform_fee_bps, min_deposit, max_deposit, initial_overseer).0;
    setup_is_final(t, calls);
}

/// On a fresh escrow that is set up and then called in any sequence, the
/// agent count is the number of agents created, agents are stored under
/// exactly the ids 1 to that count, and transactions under exactly the ids
/// 1 to their counter, each with its id and with fee and net amount adding
/// up to its amount.
pub proof fn counts_after_fresh_setup(
    now: u64,
    treasury: Address,
    platform_fee_bps: u32,
    min_deposit: i128,
    max_deposit: i128,
    initial_overseer: Address,
    calls: Seq<(u64, Call)>,
)
    ensures
        ({
            let t = fresh_setup(now, treasury, platform_fee_bps, min_deposit, max_deposit, initial_overseer);
            let u = run(t, calls);
            let n = creations(t, calls);
            &&& u.agent_count_value() == n
            &&& forall|k: u64| #[trigger] u.agents.contains_key(k) <==> 1 <= k <= n
            &&& forall|k: u64| #[trigger] u.transactions.contains_key(k) <==> 1 <= k <= u.transaction_count_value()
            &&& forall|k: u64| #[trigger] u.transactions.contains_key(k) ==> u.transactions[k].id == k
                && u.transactions[k].fee + u.transactions[k].net_amount == u.transactions[k].amount
        }),
{
    let t = fresh_setup(now, treasury, platform_fee_bps, min_deposit, max_deposit, initial_overseer);
    fresh_setup_is_settled(now, treasury, platform_fee_bps, min_deposit, max_deposit, initial_overseer);
    runs_keep_settled(t, calls);
}

/// A resolved dispute stays resolved, with its resolution, resolver and
/// time, whatever calls follow; resolving it again is refused and changes
/// nothing.
pub proof fn resolved_dispute_stays_resolved(
    s: EscrowState,
    now: u64,
    overseer: Address,
    dispute_id: u64,
    resolution: String,
    calls: Seq<(u64, Call)>,
    later: u64,
    overseer2: Address,
    resolution2: String,
)
    requires
        settled(s),
        resolve_dispute_outcome(s, now, overseer, dispute_id, resolution).1 is Ok,
    ensures
        ({
            let t = resolve_dispute_outcome(s, now, overseer, dispute_id, resolution).0;
            let u = run(t, calls);
            &&& u.disputes.contains_key(dispute_id)
            &&& u.disputes[dispute_id] == t.disputes[dispute_id]
            &&& u.disputes[dispute_id].status == DisputeStatus::Resolved
            &&& resolve_dispute_outcome(u, later, overseer2, dispute_id, resolution2) == (
                u,
                Err::<(), EscrowError>(EscrowError::DisputeAlreadyResolved),
            )
        }),
{
    let t = resolve_dispute_outcome(s, now, overseer, dispute_id, resolution).0;
    calls_keep_settled(s, now, Call::ResolveDispute { overseer, dispute_id, resolution });
    lemma_resolved_kept(t, dispute_id, calls);
}

/// A resolved dispute of a settled escrow is untouched by any sequence of
/// calls.
proof fn lemma_resolved_kept(s: EscrowState, dispute_id: u64, calls: Seq<(u64, Call)>)
    requires
        settled(s),
        s.disputes.contains_key(dispute_id),
        s.disputes[dispute_id].status == DisputeStatus::Resolved,
    ensures
        run(s, calls).disputes.contains_key(dispute_id),
        run(s, calls).disputes[dispute_id] == s.disputes[dispute_id],
    decreases calls.len(),
{
    if calls.len() > 0 {
        let (now, call) = (calls[0].0, calls[0].1);
        let next = apply(s, now, call);
        calls_keep_settled(s, now, call);
        if call_fits(s, now, call) {
            match call {
                Call::RaiseDispute { agent_address, transaction_id, reason } => {
                    if raise_dispute_outcome(s, now, agent_address, transaction_id, reason).1 is Ok {
                        let fresh = (s.dispute_count_value() + 1) as u64;
                        assert(fresh == s.dispute_count_value() + 1);
                        assert(fresh != dispute_id);
                    }
                },
                _ => {},
            }
        }
        assert(next.disputes.contains_key(dispute_id) && next.disputes[dispute_id] == s.disputes[dispute_id]);
        lemma_resolved_kept(next, dispute_id, calls.drop_first());
    }
}

/// Two disputes raised one after the other get consecutive ids, the
/// counter ends at the second, and the first dispute is kept as stored.
pub proof fn consecutive_disputes(
    s: EscrowState,
    now: u64,
    agent_address: Address,
    transaction_id: u64,
    reason: String,
    later: u64,
    agent_address2: Address,
    transaction_id2: u64,
    reason2: String,
)
    requires
        raise_dispute_fits(s, agent_address, transaction_id),
        raise_dispute_outcome(s, now, agent_address, transaction_id, reason).1 is Ok,
        raise_dispute_fits(raise_dispute_outcome(s, now, agent_address, transaction_id, reason).0, agent_address2, transaction_id2),
        raise_dispute_outcome(
            raise_dispute_outcome(s, now, agent_address, transaction_id, reason).0,
            later,
            agent_address2,
            transaction_id2,
            reason2,
        ).1 is Ok,
    ensures
        ({
            let (t, r1) = raise_dispute_outcome(s, now, agent_address, transaction_id, reason);
            let (u, r2) = raise_dispute_outcome(t, later, agent_address2, transaction_id2, reason2);
            let k1 = r1->Ok_0;
            let k2 = r2->Ok_0;
            &&& k2 == k1 + 1
            &&& u.disputes.contains_key(k1)
            &&& u.disputes[k1] == t.disputes[k1]
            &&& u.dispute_count == Some(k2)
        }),
{
}

/// A deposit, refused or not, keeps the agent's remaining balance equal to
/// what was deposited for it less what it spent.
pub proof fn deposit_keeps_balance_consistent(s: EscrowState, now: u64, agent_id: u64, amount: i128)
    requires
        deposit_fits(s, agent_id, amount),
        s.agents.contains_key(agent_id),
        s.agents[agent_id].remaining_balance == s.agents[agent_id].total_deposited - s.agents[agent_id].total_spent,
    ensures
        ({
            let t = deposit_outcome(s, now, agent_id, amount).0;
            &&& t.agents.contains_key(agent_id)
            &&& t.agents[agent_id].remaining_balance == t.agents[agent_id].total_deposited
                - t.agents[agent_id].total_spent
        }),
{
}

/// On a payment of a non-negative amount the fee is the configured basis
/// points of the amount, rounded down.
pub proof fn fee_of_nonnegative_amount(amount: i128, fee_bps: u32)
    requires
        amount >= 0,
    ensures
        platform_fee(amount, fee_bps) == (amount * fee_bps) / 10000,
        0 <= platform_fee(amount, fee_bps) <= amount * fee_bps,
{
    assert(amount * fee_bps >= 0) by (nonlinear_arith)
        requires
            amount >= 0,
    ;
    let x = amount * fee_bps;
    assert(x / 10000 <= x) by (nonlinear_arith)
        requires
            x >= 0,
    ;
}

/// A payment of a non-negative amount records as its fee the configured
/// basis points of the amount, rounded down, and the rest as its net
/// amount; the recipient is sent the net amount and, where the fee is
/// positive, the treasury the fee, in the payment's token from the escrow.
pub proof fn payment_fee_follows_configured_bps(
    s: EscrowState,
    now: u64,
    contract: Address,
    agent_address: Address,
    recipient: Address,
    token_address: Address,
    amount: i128,
    memo: Option<String>,
)
    requires
        pay_fits(s, now, agent_address, amount),
        amount >= 0,
    ensures
        ({
            let (t, r) = pay_outcome(s, now, agent_address, recipient, token_address, amount, memo);
            r is Ok ==> {
                let k = r->Ok_0;
                let config = s.config.unwrap();
                let fee = (amount * config.platform_fee_bps) / 10000;
                let to_recipient = TokenTransfer {
                    token: token_address,
                    spender: None,
                    from: contract,
                    to: recipient,
                    amount: (amount - fee) as i128,
                };
                let to_treasury = TokenTransfer {
                    token: token_address,
                    spender: None,
                    from: contract,
                    to: config.treasury,
                    amount: fee as i128,
                };
                &&& t.transactions[k].fee == fee
                &&& t.transactions[k].net_amount == amount - fee
                &&& t.transactions[k].amount == amount
                &&& pay_transfers(s, contract, recipient, token_address, amount) == if fee > 0 {
                    seq![to_recipient, to_treasury]
                } else {
                    seq![to_recipient]
                }
            }
        }),
{
    if pay_error(s, now, agent_address, amount) is None {
        fee_of_nonnegative_amount(amount, s.config.unwrap().platform_fee_bps);
    }
}

/// Spending is counted per day of 86400 seconds, per week of 604800 seconds
/// and per month of 2592000 seconds of ledger time.
pub proof fn periods_are_days_weeks_and_months(now: u64)
    ensures
        day_of(now) == now / 86400,
        week_of(now) == now / 604800,
        month_of(now) == now / 2592000,
{
}

/// A payment adds its amount to what the agent has spent in the current
/// day, week and month (counted from zero where nothing was spent yet), and
/// leaves the spending of every other period as it was.
pub proof fn payment_adds_to_period_spending(
    s: EscrowState,
    now: u64,
    agent_address: Address,
    recipient: Address,
    token_address: Address,
    amount: i128,
    memo: Option<String>,
)
    requires
        pay_fits(s, now, agent_address, amount),
    ensures
        ({
            let (t, r) = pay_outcome(s, now, agent_address, recipient, token_address, amount, memo);
            let id = agent_id_at(s, agent_address);
            let day = (id, now / 86400);
            let week = (id, now / 604800);
            let month = (id, now / 2592000);
            r is Ok ==> {
                &&& t.daily[day].amount_spent == (if s.daily.contains_key(day) { s.daily[day].amount_spent } else { 0 }) + amount
                &&& t.weekly[week].amount_spent == (if s.weekly.contains_key(week) { s.weekly[week].amount_spent } else { 0 }) + amount
                &&& t.monthly[month].amount_spent == (if s.monthly.contains_key(month) { s.monthly[month].amount_spent } else { 0 }) + amount
                &&& forall|k: (u64, u64)| k != day ==> #[trigger] t.daily.contains_key(k) == s.daily.contains_key(k)
                    && (s.daily.contains_key(k) ==> t.daily[k] == s.daily[k])
                &&& forall|k: (u64, u64)| k != week ==> #[trigger] t.weekly.contains_key(k) == s.weekly.contains_key(k)
                    && (s.weekly.contains_key(k) ==> t.weekly[k] == s.weekly[k])
                &&& forall|k: (u64, u64)| k != month ==> #[trigger] t.monthly.contains_key(k) == s.monthly.contains_key(k)
                    && (s.monthly.contains_key(k) ==> t.monthly[k] == s.monthly[k])
            }
        }),
{
}

/// Resolving a dispute sends, where the refund is positive, exactly that
/// refund in the disputed payment's token from the escrow to the agent that
/// paid, whatever the payment's amounts; where it is not, nothing.
pub proof fn refund_goes_to_the_payer(s: EscrowState, now: u64, contract: Address, overseer: Address, dispute_id: u64, resolution: String, refund_amount: i128)
    ensures
        ({
            let (t, r) = resolve_dispute_outcome(s, now, overseer, dispute_id, resolution);
            let tx = s.transactions[s.disputes[dispute_id].transaction_id];
            r is Ok ==> {
                &&& refund_amount > 0 ==> refund_transfers(s, contract, dispute_id, refund_amount) == seq![
                    TokenTransfer { token: tx.token_address, spender: None, from: contract, to: tx.from_agent, amount: refund_amount },
                ]
                &&& refund_amount <= 0 ==> refund_transfers(s, contract, dispute_id, refund_amount).len() == 0
                &&& t.disputes[dispute_id].resolution == Some(resolution)
                &&& t.disputes[dispute_id].resolved_by == Some(overseer)
                &&& t.disputes[dispute_id].resolved_at == Some(now)
            }
        }),
{
}

/// An agent can dispute any payment it made, at any time: where the agent
/// is registered, the payment exists and is the agent's, the dispute is
/// opened under the next id, open, on that payment, raised by the agent
/// with the reason given and stamped with the time.
pub proof fn payer_can_always_dispute(s: EscrowState, now: u64, agent_address: Address, transaction_id: u64, reason: String)
    requires
        s.agent_ids.contains_key(agent_address@),
        s.transactions.contains_key(transaction_id),
        s.transactions[transaction_id].agent_id == s.agent_ids[agent_address@],
        s.dispute_count_value() < u64::MAX,
    ensures
        ({
            let (t, r) = raise_dispute_outcome(s, now, agent_address, transaction_id, reason);
            let k = (s.dispute_count_value() + 1) as u64;
            &&& r == Ok::<u64, EscrowError>(k)
            &&& k == s.dispute_count_value() + 1
            &&& t.disputes.contains_key(k)
            &&& t.disputes[k].id == k
            &&& t.disputes[k].transaction_id == transaction_id
            &&& t.disputes[k].raised_by == agent_address
            &&& t.disputes[k].reason == reason
            &&& t.disputes[k].status == DisputeStatus::Open
            &&& t.disputes[k].created_at == now
            &&& t.disputes[k].resolved_at is None
            &&& t.dispute_count == Some(k)
        }),
{
}

/// Adding an overseer stores it at its address with the role and name it
/// was given, unless one is already there; its role then grants exactly
/// what that role may do: a super admin everything, an approver approving
/// and viewing, a viewer viewing.
pub proof fn added_overseer_has_given_role(
    s: EscrowState,
    now: u64,
    new_overseer: Address,
    name: Seq<char>,
    role: OverseerRole,
    required: OverseerRole,
)
    requires
        add_overseer_fits(s, new_overseer),
    ensures
        ({
            let (t, r) = add_overseer_outcome(s, now, new_overseer, name, role);
            &&& r is Ok <==> !s.overseers.contains_key(new_overseer@)
            &&& r is Ok ==> {
                &&& t.overseers.contains_key(new_overseer@)
                &&& t.overseers[new_overseer@].role == role
                &&& t.overseers[new_overseer@].name == name
                &&& t.overseers[new_overseer@].address == new_overseer
                &&& t.overseer_count == Some((s.overseer_count_value() + 1) as u64)
                &&& (check_overseer_role_result(t, new_overseer, required) is Ok <==> (role == OverseerRole::SuperAdmin
                    || role == required || (role == OverseerRole::Approver && required == OverseerRole::Viewer)))
            }
        }),
{
}

/// A new agent starts active with nothing deposited, spent or left, and
/// with caps of 1_000_000_000 a day, 7_000_000_000 a week and
/// 20_000_000_000 a month and no per-transaction cap below the largest
/// amount.
pub proof fn new_agents_start_empty_with_default_caps(s: EscrowState, now: u64, overseer: Address, agent_address: Address, name: String)
    requires
        !s.is_paused(),
    ensures
        ({
            let (t, r) = create_agent_outcome(s, now, overseer, agent_address, name);
            let id = r->Ok_0;
            &&& r is Ok
            &&& t.agents[id].status == AgentStatus::Active
            &&& t.agents[id].address == agent_address
            &&& t.agents[id].name == name
            &&& t.agents[id].total_deposited == 0
            &&& t.agents[id].total_spent == 0
            &&& t.agents[id].remaining_balance == 0
            &&& t.limits[id].daily_limit == 1_000_000_000
            &&& t.limits[id].weekly_limit == 7_000_000_000
            &&& t.limits[id].monthly_limit == 20_000_000_000
            &&& t.limits[id].max_per_transaction == i128::MAX
            &&& t.limits[id].agent_id == id
        }),
{
}

/// A deposit draws the amount, in the token given, from the depositor to
/// the escrow, spending the allowance the depositor granted the escrow.
pub proof fn deposit_draws_from_depositor(contract: Address, depositor: Address, token: Address, amount: i128)
    ensures
        deposit_transfer(contract, depositor, token, amount).from == depositor,
        deposit_transfer(contract, depositor, token, amount).to == contract,
        deposit_transfer(contract, depositor, token, amount).spender == Some(contract),
        deposit_transfer(contract, depositor, token, amount).token == token,
        deposit_transfer(contract, depositor, token, amount).amount == amount,
{
}

} // verus!
