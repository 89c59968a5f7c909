//! Spending limits of agents, and the daily, weekly and monthly spending
//! that is counted against them.

use vstd::prelude::*;

use crate::storage::{Address, Env, EscrowState};
use crate::EscrowError;

verus! {

/// Seconds in the day over which daily spending is counted.
pub const SECONDS_PER_DAY: u64 = 86400;

/// Seconds in the week over which weekly spending is counted.
pub const SECONDS_PER_WEEK: u64 = 604800;

/// Seconds in the month over which monthly spending is counted.
pub const SECONDS_PER_MONTH: u64 = 2592000;

/// The per-transaction cap a new agent starts with: none.
pub const DEFAULT_MAX_PER_TRANSACTION: i128 = 170141183460469231731687303715884105727i128;

/// The daily cap a new agent starts with.
pub const DEFAULT_DAILY_LIMIT: i128 = 1000000000i128;

/// The weekly cap a new agent starts with.
pub const DEFAULT_WEEKLY_LIMIT: i128 = 7000000000i128;

/// The monthly cap a new agent starts with.
pub const DEFAULT_MONTHLY_LIMIT: i128 = 20000000000i128;

/// The caps on an agent's payments.
#[derive(Debug, PartialEq, Eq)]
pub struct SpendingLimits {
    pub agent_id: u64,
    pub max_per_transaction: i128,
    pub daily_limit: i128,
    pub weekly_limit: i128,
    pub monthly_limit: i128,
    pub allowed_recipients: Option<Vec<Address>>,
    pub updated_at: u64,
    pub updated_by: Address,
}

/// The caps on an agent's payments, with the allowed recipients as a
/// sequence.
pub struct SpendingLimitsView {
    pub agent_id: u64,
    pub max_per_transaction: i128,
    pub daily_limit: i128,
    pub weekly_limit: i128,
    pub monthly_limit: i128,
    pub allowed_recipients: Option<Seq<Address>>,
    pub updated_at: u64,
    pub updated_by: Address,
}

impl View for SpendingLimits {
    type V = SpendingLimitsView;

    open spec fn view(&self) -> SpendingLimitsView {
        SpendingLimitsView {
            agent_id: self.agent_id,
            max_per_transaction: self.max_per_transaction,
            daily_limit: self.daily_limit,
            weekly_limit: self.weekly_limit,
            monthly_limit: self.monthly_limit,
            allowed_recipients: match self.allowed_recipients {
                Some(v) => Some(v@),
                None => None,
            },
            updated_at: self.updated_at,
            updated_by: self.updated_by,
        }
    }
}

/// What an agent spent on one day.
#[derive(Clone, Copy, Debug, PartialEq, Eq, Structural)]
pub struct DailySpending {
    pub agent_id: u64,
    pub date: u64,
    pub amount_spent: i128,
    pub tx_count: u32,
}

/// What an agent spent in one week.
#[derive(Clone, Copy, Debug, PartialEq, Eq, Structural)]
pub struct WeeklySpending {
    pub agent_id: u64,
    pub week: u64,
    pub amount_spent: i128,
    pub tx_count: u32,
}

/// What an agent spent in one month.
#[derive(Clone, Copy, Debug, PartialEq, Eq, Structural)]
pub struct MonthlySpending {
    pub agent_id: u64,
    pub month: u64,
    pub amount_spent: i128,
    pub tx_count: u32,
}

impl View for DailySpending {
    type V = DailySpending;

    open spec fn view(&self) -> DailySpending {
        *self
    }
}

impl View for WeeklySpending {
    type V = WeeklySpending;

    open spec fn view(&self) -> WeeklySpending {
        *self
    }
}

impl View for MonthlySpending {
    type V = MonthlySpending;

    open spec fn view(&self) -> MonthlySpending {
        *self
    }
}

/// A copy of a list of addresses.
pub fn duplicate_addresses(v: &Vec<Address>) -> (r: Vec<Address>)
    ensures
        r@ == v@,
{
    let mut r: Vec<Address> = Vec::new();
    let mut i: usize = 0;
    while i < v.len()
        invariant
            i <= v.len(),
            r@ == v@.take(i as int),
        decreases v.len() - i,
    {
        r.push(v[i].duplicate());
        proof {
            assert(v@.take(i + 1) =~= v@.take(i as int).push(v@[i as int]));
        }
        i = i + 1;
    }
    proof {
        assert(v@.take(v.len() as int) =~= v@);
    }
    r
}

impl SpendingLimits {
    /// A copy of these limits.
    pub fn duplicate(&self) -> (r: SpendingLimits)
        ensures
            r@ == self@,
    {
        let allowed_recipients = match &self.allowed_recipients {
            Some(v) => Some(duplicate_addresses(v)),
            None => None,
        };
        SpendingLimits {
            agent_id: self.agent_id,
            max_per_transaction: self.max_per_transaction,
            daily_limit: self.daily_limit,
            weekly_limit: self.weekly_limit,
            monthly_limit: self.monthly_limit,
            allowed_recipients,
            updated_at: self.updated_at,
            updated_by: self.updated_by.duplicate(),
        }
    }
}

/// The limits a new agent starts with.
pub open spec fn default_limits(agent_id: u64, overseer: Address, now: u64) -> SpendingLimitsView {
    SpendingLimitsView {
        agent_id,
        max_per_transaction: DEFAULT_MAX_PER_TRANSACTION,
        daily_limit: DEFAULT_DAILY_LIMIT,
        weekly_limit: DEFAULT_WEEKLY_LIMIT,
        monthly_limit: DEFAULT_MONTHLY_LIMIT,
        allowed_recipients: None,
        updated_at: now,
        updated_by: overseer,
    }
}

/// `old` with the caps that are given replaced, stamped with who changed
/// them and when.
pub open spec fn updated_limits(
    old: SpendingLimitsView,
    max_per_tx: Option<i128>,
    daily: Option<i128>,
    weekly: Option<i128>,
    monthly: Option<i128>,
    overseer: Address,
    now: u64,
) -> SpendingLimitsView {
    SpendingLimitsView {
        max_per_transaction: match max_per_tx {
            Some(v) => v,
            None => old.max_per_transaction,
        },
        daily_limit: match daily {
            Some(v) => v,
            None => old.daily_limit,
        },
        weekly_limit: match weekly {
            Some(v) => v,
            None => old.weekly_limit,
        },
        monthly_limit: match monthly {
            Some(v) => v,
            None => old.monthly_limit,
        },
        updated_at: now,
        updated_by: overseer,
        ..old
    }
}

/// What `set_limits` leaves in storage and returns.
pub open spec fn set_limits_outcome(
    s: EscrowState,
    now: u64,
    overseer: Address,
    agent_id: u64,
    max_per_tx: Option<i128>,
    daily: Option<i128>,
    weekly: Option<i128>,
    monthly: Option<i128>,
) -> (EscrowState, Result<(), EscrowError>) {
    if !s.limits.contains_key(agent_id) {
        (s, Err(EscrowError::AgentNotFound))
    } else {
        (
            EscrowState {
                limits: s.limits.insert(
                    agent_id,
                    updated_limits(s.limits[agent_id], max_per_tx, daily, weekly, monthly, overseer, now),
                ),
                ..s
            },
            Ok(()),
        )
    }
}

/// Changes the caps of agent `agent_id` that are given (`Some`), on the
/// authority of `overseer`.
///
/// Fails with `AgentNotFound` where the agent has no limits.
pub fn set_limits(
    env: &mut Env,
    overseer: Address,
    agent_id: u64,
    max_per_tx: Option<i128>,
    daily: Option<i128>,
    weekly: Option<i128>,
    monthly: Option<i128>,
) -> (r: Result<(), EscrowError>)
    ensures
        (final(env).storage@, r) == set_limits_outcome(
            old(env).storage@,
            old(env).ledger.timestamp,
            overseer,
            agent_id,
            max_per_tx,
            daily,
            weekly,
            monthly,
        ),
        r is Err ==> final(env).storage@ == old(env).storage@,
        final(env).auths@ == old(env).auths@.push(overseer),
        final(env).transfers@ == old(env).transfers@,
        final(env).ledger == old(env).ledger,
{
    env.auths.push(overseer.duplicate());
    let mut limits = match get_limits(env, agent_id) {
        Some(l) => l,
        None => return Err(EscrowError::AgentNotFound),
    };
    if let Some(v) = max_per_tx {
        limits.max_per_transaction = v;
    }
    if let Some(v) = daily {
        limits.daily_limit = v;
    }
    if let Some(v) = weekly {
        limits.weekly_limit = v;
    }
    if let Some(v) = monthly {
        limits.monthly_limit = v;
    }
    limits.updated_at = env.ledger.timestamp;
    limits.updated_by = overseer;
    env.storage.limits.set(agent_id, limits);
    Ok(())
}

/// The limits of agent `agent_id`, if it has any.
pub fn get_limits(env: &Env, agent_id: u64) -> (r: Option<SpendingLimits>)
    ensures
        match r {
            Some(l) => env.storage@.limits.contains_key(agent_id) && l@ == env.storage@.limits[agent_id],
            None => !env.storage@.limits.contains_key(agent_id),
        },
{
    match env.storage.limits.get(&agent_id) {
        Some(l) => Some(l.duplicate()),
        None => None,
    }
}

/// The day that a timestamp falls in.
pub open spec fn day_of(now: u64) -> u64 {
    now / SECONDS_PER_DAY
}

/// The week that a timestamp falls in.
pub open spec fn week_of(now: u64) -> u64 {
    now / SECONDS_PER_WEEK
}

/// The month that a timestamp falls in.
pub open spec fn month_of(now: u64) -> u64 {
    now / SECONDS_PER_MONTH
}

/// The spending of agent `agent_id` on `day`, zero where none is stored.
pub open spec fn daily_record(s: EscrowState, agent_id: u64, day: u64) -> DailySpending {
    if s.daily.contains_key((agent_id, day)) {
        s.daily[(agent_id, day)]
    } else {
        DailySpending { agent_id, date: day, amount_spent: 0, tx_count: 0 }
    }
}

/// The spending of agent `agent_id` in `week`, zero where none is stored.
pub open spec fn weekly_record(s: EscrowState, agent_id: u64, week: u64) -> WeeklySpending {
    if s.weekly.contains_key((agent_id, week)) {
        s.weekly[(agent_id, week)]
    } else {
        WeeklySpending { agent_id, week, amount_spent: 0, tx_count: 0 }
    }
}

/// The spending of agent `agent_id` in `month`, zero where none is stored.
pub open spec fn monthly_record(s: EscrowState, agent_id: u64, month: u64) -> MonthlySpending {
    if s.monthly.contains_key((agent_id, month)) {
        s.monthly[(agent_id, month)]
    } else {
        MonthlySpending { agent_id, month, amount_spent: 0, tx_count: 0 }
    }
}

/// Whether `amount` more fits under the daily cap at `now`.
pub open spec fn within_daily_limit(s: EscrowState, now: u64, agent_id: u64, amount: i128, limits: SpendingLimitsView) -> bool {
    daily_record(s, agent_id, day_of(now)).amount_spent + amount <= limits.daily_limit
}

/// Whether `amount` more fits under the weekly cap at `now`.
pub open spec fn within_weekly_limit(s: EscrowState, now: u64, agent_id: u64, amount: i128, limits: SpendingLimitsView) -> bool {
    weekly_record(s, agent_id, week_of(now)).amount_spent + amount <= limits.weekly_limit
}

/// Whether `amount` more fits under the monthly cap at `now`.
pub open spec fn within_monthly_limit(s: EscrowState, now: u64, agent_id: u64, amount: i128, limits: SpendingLimitsView) -> bool {
    monthly_record(s, agent_id, month_of(now)).amount_spent + amount <= limits.monthly_limit
}

/// `s` with `amount` counted against the day of `now`.
pub open spec fn record_daily(s: EscrowState, now: u64, agent_id: u64, amount: i128) -> EscrowState {
    let day = day_of(now);
    let rec = daily_record(s, agent_id, day);
    EscrowState {
        daily: s.daily.insert(
            (agent_id, day),
            DailySpending {
                amount_spent: (rec.amount_spent + amount) as i128,
                tx_count: (rec.tx_count + 1) as u32,
                ..rec
            },
        ),
        ..s
    }
}

/// `s` with `amount` counted against the week of `now`.
pub open spec fn record_weekly(s: EscrowState, now: u64, agent_id: u64, amount: i128) -> EscrowState {
    let week = week_of(now);
    let rec = weekly_record(s, agent_id, week);
    EscrowState {
        weekly: s.weekly.insert(
            (agent_id, week),
            WeeklySpending {
                amount_spent: (rec.amount_spent + amount) as i128,
                tx_count: (rec.tx_count + 1) as u32,
                ..rec
            },
        ),
        ..s
    }
}

/// `s` with `amount` counted against the month of `now`.
pub open spec fn record_monthly(s: EscrowState, now: u64, agent_id: u64, amount: i128) -> EscrowState {
    let month = month_of(now);
    let rec = monthly_record(s, agent_id, month);
    EscrowState {
        monthly: s.monthly.insert(
            (agent_id, month),
            MonthlySpending {
                amount_spent: (rec.amount_spent + amount) as i128,
                tx_count: (rec.tx_count + 1) as u32,
                ..rec
            },
        ),
        ..s
    }
}

/// The arithmetic of counting `amount` against the day stays in range.
pub open spec fn daily_fits(s: EscrowState, now: u64, agent_id: u64, amount: i128) -> bool {
    let rec = daily_record(s, agent_id, day_of(now));
    &&& i128::MIN <= rec.amount_spent + amount <= i128::MAX
    &&& rec.tx_count < u32::MAX
}

/// The arithmetic of counting `amount` against the week stays in range.
pub open spec fn weekly_fits(s: EscrowState, now: u64, agent_id: u64, amount: i128) -> bool {
    let rec = weekly_record(s, agent_id, week_of(now));
    &&& i128::MIN <= rec.amount_spent + amount <= i128::MAX
    &&& rec.tx_count < u32::MAX
}

/// The arithmetic of counting `amount` against the month stays in range.
pub open spec fn monthly_fits(s: EscrowState, now: u64, agent_id: u64, amount: i128) -> bool {
    let rec = monthly_record(s, agent_id, month_of(now));
    &&& i128::MIN <= rec.amount_spent + amount <= i128::MAX
    &&& rec.tx_count < u32::MAX
}

/// What agent `agent_id` has spent in the day the ledger is in, zero
/// where nothing is stored.
pub fn daily_spending_now(env: &Env, agent_id: u64) -> (r: DailySpending)
    ensures
        r == daily_record(env.storage@, agent_id, day_of(env.ledger.timestamp)),
{
    let today = env.ledger.timestamp / SECONDS_PER_DAY;
    match env.storage.daily.get(&(agent_id, today)) {
        Some(rec) => *rec,
        None => DailySpending { agent_id, date: today, amount_spent: 0, tx_count: 0 },
    }
}

/// Counts `amount` against agent `agent_id`'s spending for the day, or
/// fails with `DailyLimitExceeded` where that would pass its daily cap.
pub fn check_daily_limit(env: &mut Env, agent_id: u64, amount: i128, limits: &SpendingLimits) -> (r: Result<(), EscrowError>)
    requires
        i128::MIN <= daily_record(old(env).storage@, agent_id, day_of(old(env).ledger.timestamp)).amount_spent + amount <= i128::MAX,
        within_daily_limit(old(env).storage@, old(env).ledger.timestamp, agent_id, amount, limits@)
            ==> daily_fits(old(env).storage@, old(env).ledger.timestamp, agent_id, amount),
    ensures
        r is Ok <==> within_daily_limit(old(env).storage@, old(env).ledger.timestamp, agent_id, amount, limits@),
        r is Err ==> r == Err::<(), EscrowError>(EscrowError::DailyLimitExceeded),
        r is Ok ==> final(env).storage@ == record_daily(old(env).storage@, old(env).ledger.timestamp, agent_id, amount),
        r is Err ==> final(env).storage@ == old(env).storage@,
        final(env).auths@ == old(env).auths@,
        final(env).transfers@ == old(env).transfers@,
        final(env).ledger == old(env).ledger,
{
    let today = env.ledger.timestamp / SECONDS_PER_DAY;
    let key = (agent_id, today);
    let mut daily = daily_spending_now(env, agent_id);
    if daily.amount_spent + amount > limits.daily_limit {
        return Err(EscrowError::DailyLimitExceeded);
    }
    daily.amount_spent = daily.amount_spent + amount;
    daily.tx_count = daily.tx_count + 1;
    env.storage.daily.set(key, daily);
    Ok(())
}

/// What agent `agent_id` has spent in the week the ledger is in, zero
/// where nothing is stored.
pub fn weekly_spending_now(env: &Env, agent_id: u64) -> (r: WeeklySpending)
    ensures
        r == weekly_record(env.storage@, agent_id, week_of(env.ledger.timestamp)),
{
    let week = env.ledger.timestamp / SECONDS_PER_WEEK;
    match env.storage.weekly.get(&(agent_id, week)) {
        Some(rec) => *rec,
        None => WeeklySpending { agent_id, week: week, amount_spent: 0, tx_count: 0 },
    }
}

/// Counts `amount` against agent `agent_id`'s spending for the week, or
/// fails with `WeeklyLimitExceeded` where that would pass its weekly cap.
pub fn check_weekly_limit(env: &mut Env, agent_id: u64, amount: i128, limits: &SpendingLimits) -> (r: Result<(), EscrowError>)
    requires
        i128::MIN <= weekly_record(old(env).storage@, agent_id, week_of(old(env).ledger.timestamp)).amount_spent + amount <= i128::MAX,
        within_weekly_limit(old(env).storage@, old(env).ledger.timestamp, agent_id, amount, limits@)
            ==> weekly_fits(old(env).storage@, old(env).ledger.timestamp, agent_id, amount),
    ensures
        r is Ok <==> within_weekly_limit(old(env).storage@, old(env).ledger.timestamp, agent_id, amount, limits@),
        r is Err ==> r == Err::<(), EscrowError>(EscrowError::WeeklyLimitExceeded),
        r is Ok ==> final(env).storage@ == record_weekly(old(env).storage@, old(env).ledger.timestamp, agent_id, amount),
        r is Err ==> final(env).storage@ == old(env).storage@,
        final(env).auths@ == old(env).auths@,
        final(env).transfers@ == old(env).transfers@,
        final(env).ledger == old(env).ledger,
{
    let week = env.ledger.timestamp / SECONDS_PER_WEEK;
    let key = (agent_id, week);
    let mut weekly = weekly_spending_now(env, agent_id);
    if weekly.amount_spent + amount > limits.weekly_limit {
        return Err(EscrowError::WeeklyLimitExceeded);
    }
    weekly.amount_spent = weekly.amount_spent + amount;
    weekly.tx_count = weekly.tx_count + 1;
    env.storage.weekly.set(key, weekly);
    Ok(())
}

/// What agent `agent_id` has spent in the month the ledger is in, zero
/// where nothing is stored.
pub fn monthly_spending_now(env: &Env, agent_id: u64) -> (r: MonthlySpending)
    ensures
        r == monthly_record(env.storage@, agent_id, month_of(env.ledger.timestamp)),
{
    let month = env.ledger.timestamp / SECONDS_PER_MONTH;
    match env.storage.monthly.get(&(agent_id, month)) {
        Some(rec) => *rec,
        None => MonthlySpending { agent_id, month: month, amount_spent: 0, tx_count: 0 },
    }
}

/// Counts `amount` against agent `agent_id`'s spending for the month, or
/// fails with `MonthlyLimitExceeded` where that would pass its monthly cap.
pub fn check_monthly_limit(env: &mut Env, agent_id: u64, amount: i128, limits: &SpendingLimits) -> (r: Result<(), EscrowError>)
    requires
        i128::MIN <= monthly_record(old(env).storage@, agent_id, month_of(old(env).ledger.timestamp)).amount_spent + amount <= i128::MAX,
        within_monthly_limit(old(env).storage@, old(env).ledger.timestamp, agent_id, amount, limits@)
            ==> monthly_fits(old(env).storage@, old(env).ledger.timestamp, agent_id, amount),
    ensures
        r is Ok <==> within_monthly_limit(old(env).storage@, old(env).ledger.timestamp, agent_id, amount, limits@),
        r is Err ==> r == Err::<(), EscrowError>(EscrowError::MonthlyLimitExceeded),
        r is Ok ==> final(env).storage@ == record_monthly(old(env).storage@, old(env).ledger.timestamp, agent_id, amount),
        r is Err ==> final(env).storage@ == old(env).storage@,
        final(env).auths@ == old(env).auths@,
        final(env).transfers@ == old(env).transfers@,
        final(env).ledger == old(env).ledger,
{
    let month = env.ledger.timestamp / SECONDS_PER_MONTH;
    let key = (agent_id, month);
    let mut monthly = monthly_spending_now(env, agent_id);
    if monthly.amount_spent + amount > limits.monthly_limit {
        return Err(EscrowError::MonthlyLimitExceeded);
    }
    monthly.amount_spent = monthly.amount_spent + amount;
    monthly.tx_count = monthly.tx_count + 1;
    env.storage.monthly.set(key, monthly);
    Ok(())
}

} // verus!
