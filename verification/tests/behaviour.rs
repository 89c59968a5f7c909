use agent_escrow::agent::{self, AgentStatus};
use agent_escrow::dispute::{self, DisputeStatus};
use agent_escrow::limits::{self, SpendingLimits, DEFAULT_DAILY_LIMIT, DEFAULT_MAX_PER_TRANSACTION, DEFAULT_MONTHLY_LIMIT, DEFAULT_WEEKLY_LIMIT};
use agent_escrow::overseer::{self, OverseerRole};
use agent_escrow::payment::{self, TransactionStatus};
use agent_escrow::storage::table::Table;
use agent_escrow::storage::{Address, DataKey, Env, TokenTransfer};
use agent_escrow::{AgentEscrow, EscrowError};

fn addr(strkey: &str) -> Address {
    Address::from_strkey(strkey.to_string())
}

fn text(t: &str) -> String {
    t.to_string()
}

fn ready_env() -> Env {
    let mut e = Env::new(1_000, addr("CESCROW"));
    AgentEscrow::initialize(&mut e, addr("GTREASURY"), 100, 1_000_000, 10_000_000_000, addr("GOVERSEER")).unwrap();
    e
}

/// An initialized escrow with one funded agent at `GAGENT`.
fn funded_env(balance: i128) -> (Env, u64) {
    let mut e = ready_env();
    let id = AgentEscrow::create_agent(&mut e, addr("GOVERSEER"), addr("GAGENT"), text("Agent")).unwrap();
    AgentEscrow::deposit(&mut e, addr("GDEPOSITOR"), id, addr("CTOKEN"), balance).unwrap();
    (e, id)
}

#[test]
fn initialize_twice_is_refused() {
    let mut e = ready_env();
    let r = AgentEscrow::initialize(&mut e, addr("GOTHER"), 5, 1, 2, addr("GOTHEROVERSEER"));
    assert_eq!(r, Err(EscrowError::AlreadyInitialized));
    let config = AgentEscrow::get_config(&e).unwrap();
    assert_eq!(config.platform_fee_bps, 100);
    assert_eq!(config.treasury, addr("GTREASURY"));
    assert!(AgentEscrow::get_overseer(&e, addr("GOTHEROVERSEER")).is_none());
}

#[test]
fn initialize_writes_config_and_super_admin() {
    let e = ready_env();
    let config = AgentEscrow::get_config(&e).unwrap();
    assert_eq!(config.min_deposit, 1_000_000);
    assert_eq!(config.max_deposit, 10_000_000_000);
    assert!(!config.paused);
    assert_eq!(config.version, 1);
    let o = AgentEscrow::get_overseer(&e, addr("GOVERSEER")).unwrap();
    assert_eq!(o.role, OverseerRole::SuperAdmin);
    assert_eq!(o.name, "Super Admin");
    assert_eq!(o.created_at, 1_000);
    assert!(o.approved_agents.is_empty());
    assert!(e.storage.has(&DataKey::Version));
    assert!(e.storage.has(&DataKey::Overseer(addr("GOVERSEER"))));
    assert_eq!(e.auths, vec![addr("GTREASURY"), addr("GOVERSEER")]);
}

#[test]
fn initialize_refused_where_overseer_exists() {
    let mut e = Env::new(0, addr("CESCROW"));
    AgentEscrow::add_overseer(&mut e, addr("GADMIN"), addr("GOVERSEER"), text("Early"), OverseerRole::Viewer).unwrap();
    let r = AgentEscrow::initialize(&mut e, addr("GTREASURY"), 100, 1, 10, addr("GOVERSEER"));
    assert_eq!(r, Err(EscrowError::OverseerAlreadyExists));
    assert!(AgentEscrow::get_config(&e).is_none());
    assert!(!e.storage.has(&DataKey::Version));
}

#[test]
fn agent_initialize_alone_does_not_add_overseer() {
    let mut e = Env::new(0, addr("CESCROW"));
    agent::initialize(&mut e, addr("GTREASURY"), 100, 1, 10, addr("GOVERSEER")).unwrap();
    assert!(AgentEscrow::get_overseer(&e, addr("GOVERSEER")).is_none());
    assert_eq!(AgentEscrow::get_agent_count(&e), 0);
}

#[test]
fn create_agent_assigns_ids_and_default_limits() {
    let mut e = ready_env();
    let first = AgentEscrow::create_agent(&mut e, addr("GOVERSEER"), addr("GA1"), text("One")).unwrap();
    let second = AgentEscrow::create_agent(&mut e, addr("GOVERSEER"), addr("GA2"), text("Two")).unwrap();
    assert_eq!((first, second), (1, 2));
    assert_eq!(AgentEscrow::get_agent_count(&e), 2);
    let a = AgentEscrow::get_agent(&e, 2).unwrap();
    assert_eq!(a.name, "Two");
    assert_eq!(a.status, AgentStatus::Active);
    assert_eq!((a.total_deposited, a.total_spent, a.remaining_balance), (0, 0, 0));
    assert_eq!((a.created_at, a.last_activity), (1_000, 1_000));
    let l = AgentEscrow::get_limits(&e, 2).unwrap();
    assert_eq!(l.agent_id, 2);
    assert_eq!(l.max_per_transaction, DEFAULT_MAX_PER_TRANSACTION);
    assert_eq!(l.daily_limit, 1_000_000_000);
    assert_eq!(l.weekly_limit, DEFAULT_WEEKLY_LIMIT);
    assert_eq!(l.monthly_limit, 20_000_000_000);
    assert_eq!(l.updated_by, addr("GOVERSEER"));
    assert!(l.allowed_recipients.is_none());
    assert!(e.storage.has(&DataKey::AgentByAddress(addr("GA1"))));
    assert!(AgentEscrow::get_agent(&e, 3).is_none());
}

#[test]
fn deposit_credits_balance_and_asks_for_transfer() {
    let (e, id) = funded_env(5_000_000);
    let a = AgentEscrow::get_agent(&e, id).unwrap();
    assert_eq!(a.total_deposited, 5_000_000);
    assert_eq!(a.remaining_balance, 5_000_000);
    assert_eq!(
        e.transfers,
        vec![TokenTransfer {
            token: addr("CTOKEN"),
            spender: Some(addr("CESCROW")),
            from: addr("GDEPOSITOR"),
            to: addr("CESCROW"),
            amount: 5_000_000,
        }]
    );
}

#[test]
fn deposit_below_minimum_is_refused() {
    let mut e = ready_env();
    let id = AgentEscrow::create_agent(&mut e, addr("GOVERSEER"), addr("GAGENT"), text("Agent")).unwrap();
    let r = AgentEscrow::deposit(&mut e, addr("GDEPOSITOR"), id, addr("CTOKEN"), 999_999);
    assert_eq!(r, Err(EscrowError::InvalidAmount));
    assert!(e.transfers.is_empty());
    assert_eq!(AgentEscrow::get_agent(&e, id).unwrap().remaining_balance, 0);
}

#[test]
fn deposit_errors() {
    let mut e = Env::new(0, addr("CESCROW"));
    assert_eq!(
        AgentEscrow::deposit(&mut e, addr("GD"), 1, addr("CTOKEN"), 10),
        Err(EscrowError::NotInitialized)
    );
    let mut e = ready_env();
    assert_eq!(
        AgentEscrow::deposit(&mut e, addr("GD"), 7, addr("CTOKEN"), 1_000_000),
        Err(EscrowError::AgentNotFound)
    );
    AgentEscrow::set_paused(&mut e, true).unwrap();
    assert_eq!(
        AgentEscrow::deposit(&mut e, addr("GD"), 7, addr("CTOKEN"), 1_000_000),
        Err(EscrowError::ContractPaused)
    );
}

#[test]
fn pay_splits_fee_and_net() {
    let (mut e, id) = funded_env(1_000_000_000);
    let tx_id = AgentEscrow::pay(&mut e, addr("GAGENT"), addr("GRECIPIENT"), addr("CTOKEN"), 100_000_000, None).unwrap();
    assert_eq!(tx_id, 1);
    let tx = AgentEscrow::get_transaction(&e, tx_id).unwrap();
    assert_eq!(tx.fee, 1_000_000);
    assert_eq!(tx.net_amount, 99_000_000);
    assert_eq!(tx.agent_id, id);
    assert_eq!(tx.from_agent, addr("GAGENT"));
    assert_eq!(tx.status, TransactionStatus::Executed);
    assert_eq!(tx.processed_at, Some(1_000));
    assert_eq!(tx.tx_hash, [0u8; 32]);
    assert_eq!(e.transfers.len(), 3);
    assert_eq!(
        e.transfers[1],
        TokenTransfer { token: addr("CTOKEN"), spender: None, from: addr("CESCROW"), to: addr("GRECIPIENT"), amount: 99_000_000 }
    );
    assert_eq!(
        e.transfers[2],
        TokenTransfer { token: addr("CTOKEN"), spender: None, from: addr("CESCROW"), to: addr("GTREASURY"), amount: 1_000_000 }
    );
    let a = AgentEscrow::get_agent(&e, id).unwrap();
    assert_eq!(a.total_spent, 100_000_000);
    assert_eq!(a.remaining_balance, a.total_deposited - a.total_spent);
}

#[test]
fn pay_fee_rounds_toward_zero() {
    let (mut e, _id) = funded_env(1_000_000);
    let tx_id = AgentEscrow::pay(&mut e, addr("GAGENT"), addr("GRECIPIENT"), addr("CTOKEN"), 150, None).unwrap();
    let tx = AgentEscrow::get_transaction(&e, tx_id).unwrap();
    assert_eq!(tx.fee, 1);
    assert_eq!(tx.net_amount, 149);
    let tx_id = AgentEscrow::pay(&mut e, addr("GAGENT"), addr("GRECIPIENT"), addr("CTOKEN"), 99, None).unwrap();
    let tx = AgentEscrow::get_transaction(&e, tx_id).unwrap();
    assert_eq!(tx.fee, 0);
    assert_eq!(tx.net_amount, 99);
    // no fee, so only the transfer to the recipient
    assert_eq!(e.transfers.len(), 4);
    let tx_id = AgentEscrow::pay(&mut e, addr("GAGENT"), addr("GRECIPIENT"), addr("CTOKEN"), -150, None).unwrap();
    let tx = AgentEscrow::get_transaction(&e, tx_id).unwrap();
    assert_eq!(tx.fee, -1);
    assert_eq!(tx.net_amount, -149);
}

#[test]
fn pay_counts_spending_per_period() {
    let (mut e, id) = funded_env(1_000_000_000);
    AgentEscrow::pay(&mut e, addr("GAGENT"), addr("GR"), addr("CTOKEN"), 300_000_000, None).unwrap();
    AgentEscrow::pay(&mut e, addr("GAGENT"), addr("GR"), addr("CTOKEN"), 200_000_000, None).unwrap();
    let day = e.storage.daily.get(&(id, 0)).unwrap();
    assert_eq!(day.amount_spent, 500_000_000);
    assert_eq!(day.tx_count, 2);
    assert_eq!(e.storage.weekly.get(&(id, 0)).unwrap().amount_spent, 500_000_000);
    assert_eq!(e.storage.monthly.get(&(id, 0)).unwrap().tx_count, 2);
    assert!(e.storage.has(&DataKey::DailySpending(id, 0)));
    assert!(!e.storage.has(&DataKey::DailySpending(id, 1)));
}

#[test]
fn daily_limit_resets_next_day() {
    let (mut e, _id) = funded_env(3_000_000_000);
    AgentEscrow::pay(&mut e, addr("GAGENT"), addr("GR"), addr("CTOKEN"), 1_000_000_000, None).unwrap();
    assert_eq!(
        AgentEscrow::pay(&mut e, addr("GAGENT"), addr("GR"), addr("CTOKEN"), 1, None),
        Err(EscrowError::DailyLimitExceeded)
    );
    e.ledger.timestamp = 1_000 + 86_400;
    assert!(AgentEscrow::pay(&mut e, addr("GAGENT"), addr("GR"), addr("CTOKEN"), 1_000_000_000, None).is_ok());
}

#[test]
fn weekly_limit_is_enforced() {
    let (mut e, id) = funded_env(10_000_000_000);
    AgentEscrow::set_limits(&mut e, addr("GOVERSEER"), id, None, Some(5_000_000_000), Some(6_000_000_000), None).unwrap();
    AgentEscrow::pay(&mut e, addr("GAGENT"), addr("GR"), addr("CTOKEN"), 4_000_000_000, None).unwrap();
    e.ledger.timestamp = 1_000 + 86_400;
    assert_eq!(
        AgentEscrow::pay(&mut e, addr("GAGENT"), addr("GR"), addr("CTOKEN"), 3_000_000_000, None),
        Err(EscrowError::WeeklyLimitExceeded)
    );
}

#[test]
fn per_transaction_limit_is_enforced() {
    let (mut e, id) = funded_env(1_000_000_000);
    AgentEscrow::set_limits(&mut e, addr("GOVERSEER"), id, Some(10), None, None, None).unwrap();
    assert_eq!(
        AgentEscrow::pay(&mut e, addr("GAGENT"), addr("GR"), addr("CTOKEN"), 11, None),
        Err(EscrowError::PerTransactionLimitExceeded)
    );
    assert!(AgentEscrow::pay(&mut e, addr("GAGENT"), addr("GR"), addr("CTOKEN"), 10, None).is_ok());
}

#[test]
fn pay_errors() {
    let (mut e, _id) = funded_env(1_000_000);
    assert_eq!(
        AgentEscrow::pay(&mut e, addr("GSTRANGER"), addr("GR"), addr("CTOKEN"), 1, None),
        Err(EscrowError::AgentNotFound)
    );
    assert_eq!(
        AgentEscrow::pay(&mut e, addr("GAGENT"), addr("GR"), addr("CTOKEN"), 1_000_001, None),
        Err(EscrowError::InsufficientBalance)
    );
    AgentEscrow::set_paused(&mut e, true).unwrap();
    assert_eq!(
        AgentEscrow::pay(&mut e, addr("GAGENT"), addr("GR"), addr("CTOKEN"), 1, None),
        Err(EscrowError::ContractPaused)
    );
}

#[test]
fn pay_before_initialize_is_refused() {
    let mut e = Env::new(0, addr("CESCROW"));
    let id = AgentEscrow::create_agent(&mut e, addr("GOVERSEER"), addr("GAGENT"), text("Agent")).unwrap();
    assert_eq!(id, 1);
    assert_eq!(
        AgentEscrow::pay(&mut e, addr("GAGENT"), addr("GR"), addr("CTOKEN"), 0, None),
        Err(EscrowError::NotInitialized)
    );
}

#[test]
fn refused_pay_changes_nothing() {
    let (mut e, id) = funded_env(10_000_000_000);
    let before = AgentEscrow::get_agent(&e, id).unwrap();
    let transfers_before = e.transfers.len();
    assert_eq!(
        AgentEscrow::pay(&mut e, addr("GAGENT"), addr("GR"), addr("CTOKEN"), 2_000_000_000, None),
        Err(EscrowError::DailyLimitExceeded)
    );
    assert_eq!(AgentEscrow::get_agent(&e, id).unwrap(), before);
    assert!(e.storage.monthly.get(&(id, 0)).is_none());
    assert!(e.storage.weekly.get(&(id, 0)).is_none());
    assert!(AgentEscrow::get_transaction(&e, 1).is_none());
    assert_eq!(e.transfers.len(), transfers_before);
}

#[test]
fn resume_undoes_pause() {
    let (mut e, id) = funded_env(1_000_000);
    AgentEscrow::pause_agent(&mut e, addr("GOVERSEER"), id).unwrap();
    e.ledger.timestamp = 2_000;
    AgentEscrow::resume_agent(&mut e, addr("GOVERSEER"), id).unwrap();
    let a = AgentEscrow::get_agent(&e, id).unwrap();
    assert_eq!(a.status, AgentStatus::Active);
    assert_eq!(a.last_activity, 2_000);
    assert_eq!(a.remaining_balance, 1_000_000);
    assert!(AgentEscrow::pay(&mut e, addr("GAGENT"), addr("GR"), addr("CTOKEN"), 1, None).is_ok());
    assert_eq!(AgentEscrow::pause_agent(&mut e, addr("GOVERSEER"), 42), Err(EscrowError::AgentNotFound));
    assert_eq!(AgentEscrow::resume_agent(&mut e, addr("GOVERSEER"), 42), Err(EscrowError::AgentNotFound));
}

#[test]
fn set_limits_keeps_what_is_not_given() {
    let (mut e, id) = funded_env(1_000_000);
    e.ledger.timestamp = 5_000;
    AgentEscrow::set_limits(&mut e, addr("GOTHER"), id, None, None, Some(3), Some(4)).unwrap();
    let l: SpendingLimits = AgentEscrow::get_limits(&e, id).unwrap();
    assert_eq!(l.max_per_transaction, DEFAULT_MAX_PER_TRANSACTION);
    assert_eq!(l.daily_limit, DEFAULT_DAILY_LIMIT);
    assert_eq!(l.weekly_limit, 3);
    assert_eq!(l.monthly_limit, 4);
    assert_eq!(l.updated_at, 5_000);
    assert_eq!(l.updated_by, addr("GOTHER"));
    assert_eq!(
        AgentEscrow::set_limits(&mut e, addr("GOTHER"), 99, Some(1), None, None, None),
        Err(EscrowError::AgentNotFound)
    );
    assert_eq!(DEFAULT_MONTHLY_LIMIT, 20_000_000_000);
}

#[test]
fn set_paused_needs_initialization_and_treasury() {
    let mut e = Env::new(0, addr("CESCROW"));
    assert_eq!(AgentEscrow::set_paused(&mut e, true), Err(EscrowError::NotInitialized));
    assert!(!AgentEscrow::is_paused(&e));
    let mut e = ready_env();
    let before = e.auths.len();
    AgentEscrow::set_paused(&mut e, true).unwrap();
    assert_eq!(e.auths.len(), before + 1);
    assert_eq!(e.auths[before], addr("GTREASURY"));
    assert!(AgentEscrow::is_paused(&e));
}

#[test]
fn authorizations_are_asked_of_the_actor() {
    let (mut e, id) = funded_env(1_000_000);
    e.auths.clear();
    AgentEscrow::pay(&mut e, addr("GAGENT"), addr("GR"), addr("CTOKEN"), 1, None).unwrap();
    AgentEscrow::pause_agent(&mut e, addr("GOVERSEER"), id).unwrap();
    AgentEscrow::set_limits(&mut e, addr("GOVERSEER2"), id, None, None, None, None).unwrap();
    AgentEscrow::raise_dispute(&mut e, addr("GAGENT"), 1, text("wrong")).unwrap();
    assert_eq!(e.auths, vec![addr("GAGENT"), addr("GOVERSEER"), addr("GOVERSEER2"), addr("GAGENT")]);
}

#[test]
fn dispute_lifecycle() {
    let (mut e, _id) = funded_env(1_000_000_000);
    let tx_id = AgentEscrow::pay(&mut e, addr("GAGENT"), addr("GR"), addr("CTOKEN"), 1_000, None).unwrap();
    let d = AgentEscrow::raise_dispute(&mut e, addr("GAGENT"), tx_id, text("not delivered")).unwrap();
    assert_eq!(d, 1);
    let stored = e.storage.disputes.get(&d).unwrap();
    assert_eq!(stored.status, DisputeStatus::Open);
    assert_eq!(stored.transaction_id, tx_id);
    assert_eq!(stored.raised_by, addr("GAGENT"));
    e.ledger.timestamp = 9_000;
    let transfers_before = e.transfers.len();
    AgentEscrow::resolve_dispute(&mut e, addr("GOVERSEER"), d, text("refunded"), 500).unwrap();
    let stored = e.storage.disputes.get(&d).unwrap();
    assert_eq!(stored.status, DisputeStatus::Resolved);
    assert_eq!(stored.resolved_at, Some(9_000));
    assert_eq!(stored.resolved_by, Some(addr("GOVERSEER")));
    assert_eq!(stored.resolution, Some(text("refunded")));
    assert_eq!(e.transfers.len(), transfers_before + 1);
    assert_eq!(
        e.transfers[transfers_before],
        TokenTransfer { token: addr("CTOKEN"), spender: None, from: addr("CESCROW"), to: addr("GAGENT"), amount: 500 }
    );
    assert_eq!(
        AgentEscrow::resolve_dispute(&mut e, addr("GOVERSEER"), d, text("again"), 0),
        Err(EscrowError::DisputeAlreadyResolved)
    );
}

#[test]
fn resolve_without_refund_asks_no_transfer() {
    let (mut e, _id) = funded_env(1_000_000_000);
    let tx_id = AgentEscrow::pay(&mut e, addr("GAGENT"), addr("GR"), addr("CTOKEN"), 1_000, None).unwrap();
    let d = dispute::raise_dispute(&mut e, addr("GAGENT"), tx_id, text("why")).unwrap();
    let before = e.transfers.len();
    dispute::resolve_dispute(&mut e, addr("GOVERSEER"), d, text("no refund"), 0).unwrap();
    assert_eq!(e.transfers.len(), before);
}

#[test]
fn dispute_errors() {
    let (mut e, _id) = funded_env(1_000_000_000);
    let tx_id = AgentEscrow::pay(&mut e, addr("GAGENT"), addr("GR"), addr("CTOKEN"), 1_000, None).unwrap();
    assert_eq!(
        AgentEscrow::raise_dispute(&mut e, addr("GSTRANGER"), tx_id, text("x")),
        Err(EscrowError::AgentNotFound)
    );
    assert_eq!(
        AgentEscrow::raise_dispute(&mut e, addr("GAGENT"), 77, text("x")),
        Err(EscrowError::TransactionNotFound)
    );
    AgentEscrow::create_agent(&mut e, addr("GOVERSEER"), addr("GAGENT2"), text("Other")).unwrap();
    assert_eq!(
        AgentEscrow::raise_dispute(&mut e, addr("GAGENT2"), tx_id, text("x")),
        Err(EscrowError::NotAuthorized)
    );
    assert_eq!(
        AgentEscrow::resolve_dispute(&mut e, addr("GOVERSEER"), 5, text("x"), 1),
        Err(EscrowError::DisputeNotFound)
    );
}

#[test]
fn resolve_refused_where_transaction_is_missing() {
    let mut e = Env::new(0, addr("CESCROW"));
    e.storage.disputes.set(
        3,
        dispute::Dispute {
            id: 3,
            transaction_id: 8,
            raised_by: addr("GAGENT"),
            reason: text("lost"),
            status: DisputeStatus::Open,
            created_at: 0,
            resolved_at: None,
            resolved_by: None,
            resolution: None,
        },
    );
    assert_eq!(
        AgentEscrow::resolve_dispute(&mut e, addr("GOVERSEER"), 3, text("x"), 1),
        Err(EscrowError::TransactionNotFound)
    );
    assert_eq!(e.storage.disputes.get(&3).unwrap().status, DisputeStatus::Open);
}

#[test]
fn overseer_roles_are_ranked() {
    let mut e = ready_env();
    AgentEscrow::add_overseer(&mut e, addr("GOVERSEER"), addr("GAPPROVER"), text("Ann"), OverseerRole::Approver).unwrap();
    AgentEscrow::add_overseer(&mut e, addr("GOVERSEER"), addr("GVIEWER"), text("Vic"), OverseerRole::Viewer).unwrap();
    let sa = addr("GOVERSEER");
    let ap = addr("GAPPROVER");
    let vi = addr("GVIEWER");
    for role in [OverseerRole::SuperAdmin, OverseerRole::Approver, OverseerRole::Viewer] {
        assert_eq!(overseer::check_overseer_role(&e, &sa, role), Ok(()));
    }
    assert_eq!(overseer::check_overseer_role(&e, &ap, OverseerRole::SuperAdmin), Err(EscrowError::NotAuthorized));
    assert_eq!(overseer::check_overseer_role(&e, &ap, OverseerRole::Approver), Ok(()));
    assert_eq!(overseer::check_overseer_role(&e, &ap, OverseerRole::Viewer), Ok(()));
    assert_eq!(overseer::check_overseer_role(&e, &vi, OverseerRole::Approver), Err(EscrowError::NotAuthorized));
    assert_eq!(overseer::check_overseer_role(&e, &vi, OverseerRole::Viewer), Ok(()));
    assert_eq!(
        overseer::check_overseer_role(&e, &addr("GNOBODY"), OverseerRole::Viewer),
        Err(EscrowError::OverseerNotFound)
    );
}

#[test]
fn add_overseer_counts_and_refuses_duplicates() {
    let mut e = ready_env();
    assert_eq!(e.storage.overseer_count, Some(1));
    AgentEscrow::add_overseer(&mut e, addr("GOVERSEER"), addr("GNEW"), text("New"), OverseerRole::Viewer).unwrap();
    assert_eq!(e.storage.overseer_count, Some(2));
    assert_eq!(
        AgentEscrow::add_overseer(&mut e, addr("GOVERSEER"), addr("GNEW"), text("Again"), OverseerRole::Approver),
        Err(EscrowError::OverseerAlreadyExists)
    );
    assert_eq!(e.storage.overseer_count, Some(2));
    assert_eq!(AgentEscrow::get_overseer(&e, addr("GNEW")).unwrap().name, "New");
}

#[test]
fn check_limit_functions_count_or_refuse() {
    let (mut e, id) = funded_env(1_000_000);
    let l = limits::get_limits(&e, id).unwrap();
    assert_eq!(limits::check_daily_limit(&mut e, id, 600_000_000, &l), Ok(()));
    assert_eq!(limits::check_daily_limit(&mut e, id, 500_000_000, &l), Err(EscrowError::DailyLimitExceeded));
    assert_eq!(e.storage.daily.get(&(id, 0)).unwrap().amount_spent, 600_000_000);
    assert_eq!(limits::check_weekly_limit(&mut e, id, 7_000_000_000, &l), Ok(()));
    assert_eq!(limits::check_weekly_limit(&mut e, id, 1, &l), Err(EscrowError::WeeklyLimitExceeded));
    assert_eq!(limits::check_monthly_limit(&mut e, id, 20_000_000_001, &l), Err(EscrowError::MonthlyLimitExceeded));
    assert!(e.storage.monthly.get(&(id, 0)).is_none());
}

#[test]
fn table_reads_the_last_write() {
    let mut t: Table<u64, u64> = Table::new();
    assert!(t.get(&1).is_none());
    t.set(1, 10);
    t.set(2, 20);
    t.set(1, 11);
    assert_eq!(t.get(&1), Some(&11));
    assert_eq!(t.get(&2), Some(&20));
    assert!(t.has(&2));
    assert!(!t.has(&3));
}

#[test]
fn agent_module_calls_work_without_initialize() {
    let mut e = Env::new(0, addr("CESCROW"));
    let id = agent::create_agent(&mut e, addr("GOVERSEER"), addr("GAGENT"), text("Agent")).unwrap();
    assert_eq!(agent::get_agent_count(&e), 1);
    assert_eq!(agent::get_agent(&e, id).unwrap().id, id);
    assert!(payment::get_transaction(&e, 1).is_none());
    assert!(agent::get_config(&e).is_none());
    assert!(!agent::is_paused(&e));
}

#[test]
fn range_checks_spot_overflow() {
    let (mut e, id) = funded_env(1_000_000);
    assert!(agent::deposit_in_range(&e, id, i128::MAX - 1_000_000));
    assert!(!agent::deposit_in_range(&e, id, i128::MAX));
    // refusals do no arithmetic, so they are always in range
    assert!(agent::deposit_in_range(&e, 99, i128::MAX));
    assert!(agent::create_agent_in_range(&e));
    e.storage.next_agent_id = Some(u64::MAX);
    assert!(!agent::create_agent_in_range(&e));
    assert!(overseer::add_overseer_in_range(&e, &addr("GNEW")));
    e.storage.overseer_count = Some(u64::MAX);
    assert!(!overseer::add_overseer_in_range(&e, &addr("GNEW")));
    assert!(overseer::add_overseer_in_range(&e, &addr("GOVERSEER")));
}

#[test]
fn pay_range_check_spots_fee_overflow() {
    let (mut e, id) = funded_env(1_000_000);
    let big = i128::MAX / 50;
    assert!(payment::pay_in_range(&e, &addr("GAGENT"), big));
    AgentEscrow::deposit(&mut e, addr("GDEPOSITOR"), id, addr("CTOKEN"), big).unwrap();
    AgentEscrow::set_limits(&mut e, addr("GOVERSEER"), id, None, Some(i128::MAX), Some(i128::MAX), Some(i128::MAX)).unwrap();
    assert!(!payment::pay_in_range(&e, &addr("GAGENT"), big));
    assert!(payment::pay_in_range(&e, &addr("GAGENT"), 1_000));
    e.storage.transaction_count = Some(u64::MAX);
    assert!(!payment::pay_in_range(&e, &addr("GAGENT"), 1_000));
}

#[test]
fn dispute_range_check() {
    let (mut e, _id) = funded_env(1_000_000);
    let tx_id = AgentEscrow::pay(&mut e, addr("GAGENT"), addr("GR"), addr("CTOKEN"), 10, None).unwrap();
    assert!(dispute::raise_dispute_in_range(&e, &addr("GAGENT"), tx_id));
    e.storage.dispute_count = Some(u64::MAX);
    assert!(!dispute::raise_dispute_in_range(&e, &addr("GAGENT"), tx_id));
    assert!(dispute::raise_dispute_in_range(&e, &addr("GSTRANGER"), tx_id));
}

#[test]
fn history_and_balances_are_kept() {
    let (mut e, id) = funded_env(10_000_000);
    let first = AgentEscrow::pay(&mut e, addr("GAGENT"), addr("GR1"), addr("CTOKEN"), 1_000, None).unwrap();
    let second = AgentEscrow::pay(&mut e, addr("GAGENT"), addr("GR2"), addr("CTOKEN"), 2_000, Some(text("memo"))).unwrap();
    assert_eq!((first, second), (1, 2));
    let t1 = AgentEscrow::get_transaction(&e, first).unwrap();
    assert_eq!(t1.to_recipient, addr("GR1"));
    assert_eq!(t1.amount, 1_000);
    let t2 = AgentEscrow::get_transaction(&e, second).unwrap();
    assert_eq!(t2.memo, Some(text("memo")));
    let a = AgentEscrow::get_agent(&e, id).unwrap();
    assert_eq!(a.remaining_balance, a.total_deposited - a.total_spent);
    assert_eq!(a.remaining_balance, 10_000_000 - 3_000);
}

#[test]
fn table_overwrites_in_place() {
    let mut t: Table<u64, u64> = Table::new();
    t.set(1, 10);
    t.set(2, 20);
    t.set(1, 11);
    t.set(1, 12);
    assert_eq!(t.entries.len(), 2);
    assert_eq!(t.get(&1), Some(&12));
    assert_eq!(t.get(&2), Some(&20));
}

#[test]
fn setup_and_resolution_are_final_across_calls() {
    let (mut e, id) = funded_env(1_000_000_000);
    let tx_id = AgentEscrow::pay(&mut e, addr("GAGENT"), addr("GR"), addr("CTOKEN"), 1_000, None).unwrap();
    let d = AgentEscrow::raise_dispute(&mut e, addr("GAGENT"), tx_id, text("late")).unwrap();
    AgentEscrow::resolve_dispute(&mut e, addr("GOVERSEER"), d, text("refunded"), 10).unwrap();
    // other calls in between
    AgentEscrow::set_paused(&mut e, true).unwrap();
    AgentEscrow::set_paused(&mut e, false).unwrap();
    AgentEscrow::pay(&mut e, addr("GAGENT"), addr("GR"), addr("CTOKEN"), 2_000, None).unwrap();
    let d2 = AgentEscrow::raise_dispute(&mut e, addr("GAGENT"), tx_id, text("again")).unwrap();
    assert_eq!(d2, 2);
    AgentEscrow::pause_agent(&mut e, addr("GOVERSEER"), id).unwrap();
    let transfers = e.transfers.len();
    assert_eq!(
        AgentEscrow::resolve_dispute(&mut e, addr("GOTHER"), d, text("twice"), 99),
        Err(EscrowError::DisputeAlreadyResolved)
    );
    assert_eq!(e.transfers.len(), transfers);
    let stored = e.storage.disputes.get(&d).unwrap();
    assert_eq!(stored.resolution, Some(text("refunded")));
    assert_eq!(stored.resolved_by, Some(addr("GOVERSEER")));
    assert_eq!(
        AgentEscrow::initialize(&mut e, addr("GX"), 7, 1, 2, addr("GY")),
        Err(EscrowError::AlreadyInitialized)
    );
    let config = AgentEscrow::get_config(&e).unwrap();
    assert_eq!((config.platform_fee_bps, config.min_deposit, config.max_deposit), (100, 1_000_000, 10_000_000_000));
    assert_eq!(config.treasury, addr("GTREASURY"));
}

#[test]
fn agent_and_transaction_ids_are_dense() {
    let mut e = ready_env();
    for (i, who) in ["GA1", "GA2", "GA3"].iter().enumerate() {
        let id = AgentEscrow::create_agent(&mut e, addr("GOVERSEER"), addr(who), text("A")).unwrap();
        assert_eq!(id, i as u64 + 1);
        AgentEscrow::deposit(&mut e, addr("GD"), id, addr("CTOKEN"), 10_000_000).unwrap();
    }
    AgentEscrow::set_paused(&mut e, true).unwrap();
    assert!(AgentEscrow::create_agent(&mut e, addr("GOVERSEER"), addr("GA4"), text("A")).is_err());
    AgentEscrow::set_paused(&mut e, false).unwrap();
    assert_eq!(AgentEscrow::get_agent_count(&e), 3);
    for k in 0..6u64 {
        assert_eq!(AgentEscrow::get_agent(&e, k).is_some(), (1..=3).contains(&k));
    }
    for (amount, who) in [(777i128, "GA1"), (12_345, "GA2"), (99, "GA3")] {
        AgentEscrow::pay(&mut e, addr(who), addr("GR"), addr("CTOKEN"), amount, None).unwrap();
    }
    let count = e.storage.transaction_count.unwrap();
    assert_eq!(count, 3);
    for k in 0..6u64 {
        match AgentEscrow::get_transaction(&e, k) {
            Some(t) => {
                assert!((1..=count).contains(&k));
                assert_eq!(t.id, k);
                assert_eq!(t.fee + t.net_amount, t.amount);
            },
            None => assert!(!(1..=count).contains(&k)),
        }
    }
}

#[test]
fn daily_cap_is_checked_before_weekly() {
    let (mut e, _id) = funded_env(10_000_000_000);
    // Passes the monthly cap but both the weekly and the daily ones.
    assert_eq!(
        AgentEscrow::pay(&mut e, addr("GAGENT"), addr("GR"), addr("CTOKEN"), 8_000_000_000, None),
        Err(EscrowError::DailyLimitExceeded)
    );
}

#[test]
fn consecutive_disputes_get_consecutive_ids() {
    let (mut e, _id) = funded_env(1_000_000_000);
    let tx1 = AgentEscrow::pay(&mut e, addr("GAGENT"), addr("GR"), addr("CTOKEN"), 1_000, None).unwrap();
    let tx2 = AgentEscrow::pay(&mut e, addr("GAGENT"), addr("GR"), addr("CTOKEN"), 2_000, None).unwrap();
    let k1 = AgentEscrow::raise_dispute(&mut e, addr("GAGENT"), tx1, text("first")).unwrap();
    let k2 = AgentEscrow::raise_dispute(&mut e, addr("GAGENT"), tx2, text("second")).unwrap();
    assert_eq!(k2, k1 + 1);
    assert_eq!(e.storage.dispute_count, Some(k2));
    let first = e.storage.disputes.get(&k1).unwrap();
    assert_eq!(first.reason, "first");
    assert_eq!(first.transaction_id, tx1);
}
