//! Disputes that agents raise on their payments, and their resolution.

use vstd::prelude::*;

use crate::storage::{Address, Env, EscrowState, TokenTransfer};
use crate::EscrowError;

verus! {

/// A dispute raised on a payment.
#[derive(Debug, PartialEq, Eq)]
pub struct Dispute {
    pub id: u64,
    pub transaction_id: u64,
    pub raised_by: Address,
    pub reason: String,
    pub status: DisputeStatus,
    pub created_at: u64,
    pub resolved_at: Option<u64>,
    pub resolved_by: Option<Address>,
    pub resolution: Option<String>,
}

/// Where a dispute stands.
#[derive(Clone, Copy, Debug, PartialEq, Eq, Structural)]
pub enum DisputeStatus {
    Open,
    Resolved,
    Rejected,
}

impl View for Dispute {
    type V = Dispute;

    open spec fn view(&self) -> Dispute {
        *self
    }
}

/// What `raise_dispute` leaves in storage and returns.
pub open spec fn raise_dispute_outcome(
    s: EscrowState,
    now: u64,
    agent_address: Address,
    transaction_id: u64,
    reason: String,
) -> (EscrowState, Result<u64, EscrowError>) {
    if !s.agent_ids.contains_key(agent_address@) {
        (s, Err(EscrowError::AgentNotFound))
    } else if !s.transactions.contains_key(transaction_id) {
        (s, Err(EscrowError::TransactionNotFound))
    } else if s.transactions[transaction_id].agent_id != s.agent_ids[agent_address@] {
        (s, Err(EscrowError::NotAuthorized))
    } else {
        let id = (s.dispute_count_value() + 1) as u64;
        let dispute = Dispute {
            id,
            transaction_id,
            raised_by: agent_address,
            reason,
            status: DisputeStatus::Open,
            created_at: now,
            resolved_at: None,
            resolved_by: None,
            resolution: None,
        };
        (EscrowState { disputes: s.disputes.insert(id, dispute), dispute_count: Some(id), ..s }, Ok(id))
    }
}

/// The dispute counter stays in range where a dispute is raised.
pub open spec fn raise_dispute_fits(s: EscrowState, agent_address: Address, transaction_id: u64) -> bool {
    s.agent_ids.contains_key(agent_address@) && s.transactions.contains_key(transaction_id)
        && s.transactions[transaction_id].agent_id == s.agent_ids[agent_address@]
        ==> s.dispute_count_value() < u64::MAX
}

/// Whether the dispute counter stays in range, so that `raise_dispute`
/// may be called.
pub fn raise_dispute_in_range(env: &Env, agent_address: &Address, transaction_id: u64) -> (r: bool)
    ensures
        r == raise_dispute_fits(env.storage@, *agent_address, transaction_id),
{
    let agent_id: u64 = match env.storage.agent_ids.get(agent_address) {
        Some(id) => *id,
        None => return true,
    };
    match env.storage.transactions.get(&transaction_id) {
        Some(tx) => tx.agent_id != agent_id || env.storage.dispute_count.unwrap_or(0) < u64::MAX,
        None => true,
    }
}

/// Opens a dispute on transaction `transaction_id`, which the agent at
/// `agent_address` made. Requires the agent's authorization.
///
/// Fails with `AgentNotFound` where no agent is at the address,
/// `TransactionNotFound` where there is no such transaction, and
/// `NotAuthorized` where another agent made it.
pub fn raise_dispute(env: &mut Env, agent_address: Address, transaction_id: u64, reason: String) -> (r: Result<u64, EscrowError>)
    requires
        raise_dispute_fits(old(env).storage@, agent_address, transaction_id),
    ensures
        (final(env).storage@, r) == raise_dispute_outcome(old(env).storage@, old(env).ledger.timestamp, agent_address, transaction_id, reason),
        r is Err ==> final(env).storage@ == old(env).storage@,
        final(env).auths@ == old(env).auths@.push(agent_address),
        final(env).transfers@ == old(env).transfers@,
        final(env).ledger == old(env).ledger,
{
    env.auths.push(agent_address.duplicate());
    let agent_id: u64 = match env.storage.agent_ids.get(&agent_address) {
        Some(id) => *id,
        None => return Err(EscrowError::AgentNotFound),
    };
    let tx_agent_id = match env.storage.transactions.get(&transaction_id) {
        Some(tx) => tx.agent_id,
        None => return Err(EscrowError::TransactionNotFound),
    };
    if tx_agent_id != agent_id {
        return Err(EscrowError::NotAuthorized);
    }
    let dispute_id: u64 = env.storage.dispute_count.unwrap_or(0);
    let new_dispute_id = dispute_id + 1;
    let dispute = Dispute {
        id: new_dispute_id,
        transaction_id,
        raised_by: agent_address,
        reason,
        status: DisputeStatus::Open,
        created_at: env.ledger.timestamp,
        resolved_at: None,
        resolved_by: None,
        resolution: None,
    };
    env.storage.disputes.set(new_dispute_id, dispute);
    env.storage.dispute_count = Some(new_dispute_id);
    Ok(new_dispute_id)
}

/// Why `resolve_dispute` refuses, if it does.
pub open spec fn resolve_dispute_error(s: EscrowState, dispute_id: u64) -> Option<EscrowError> {
    if !s.disputes.contains_key(dispute_id) {
        Some(EscrowError::DisputeNotFound)
    } else if s.disputes[dispute_id].status != DisputeStatus::Open {
        Some(EscrowError::DisputeAlreadyResolved)
    } else if !s.transactions.contains_key(s.disputes[dispute_id].transaction_id) {
        Some(EscrowError::TransactionNotFound)
    } else {
        None
    }
}

/// What `resolve_dispute` leaves in storage and returns.
pub open spec fn resolve_dispute_outcome(
    s: EscrowState,
    now: u64,
    overseer: Address,
    dispute_id: u64,
    resolution: String,
) -> (EscrowState, Result<(), EscrowError>) {
    match resolve_dispute_error(s, dispute_id) {
        Some(e) => (s, Err(e)),
        None => {
            let resolved = Dispute {
                status: DisputeStatus::Resolved,
                resolved_at: Some(now),
                resolved_by: Some(overseer),
                resolution: Some(resolution),
                ..s.disputes[dispute_id]
            };
            (EscrowState { disputes: s.disputes.insert(dispute_id, resolved), ..s }, Ok(()))
        },
    }
}

/// The transfers that a successful `resolve_dispute` asks for: a refund,
/// where one is granted, from the escrow to the agent that paid.
pub open spec fn refund_transfers(s: EscrowState, contract: Address, dispute_id: u64, refund_amount: i128) -> Seq<TokenTransfer> {
    let tx = s.transactions[s.disputes[dispute_id].transaction_id];
    if refund_amount > 0 {
        seq![TokenTransfer { token: tx.token_address, spender: None, from: contract, to: tx.from_agent, amount: refund_amount }]
    } else {
        Seq::empty()
    }
}

/// Resolves open dispute `dispute_id` with `resolution`, refunding
/// `refund_amount` of the disputed payment's token to the agent that paid
/// where it is positive. Requires the overseer's authorization.
///
/// Fails with `DisputeNotFound` where there is no such dispute,
/// `DisputeAlreadyResolved` where it is no longer open, and
/// `TransactionNotFound` where its transaction is gone.
pub fn resolve_dispute(
    env: &mut Env,
    overseer: Address,
    dispute_id: u64,
    resolution: String,
    refund_amount: i128,
) -> (r: Result<(), EscrowError>)
    ensures
        (final(env).storage@, r) == resolve_dispute_outcome(old(env).storage@, old(env).ledger.timestamp, overseer, dispute_id, resolution),
        r is Err ==> final(env).storage@ == old(env).storage@,
        final(env).auths@ == old(env).auths@.push(overseer),
        r is Ok ==> final(env).transfers@ == old(env).transfers@ + refund_transfers(
            old(env).storage@,
            old(env).ledger.contract,
            dispute_id,
            refund_amount,
        ),
        r is Err ==> final(env).transfers@ == old(env).transfers@,
        r is Ok && refund_amount > 0 ==> final(env).transfers@ == old(env).transfers@.push(
            TokenTransfer {
                token: old(env).storage@.transactions[old(env).storage@.disputes[dispute_id].transaction_id].token_address,
                spender: None,
                from: old(env).ledger.contract,
                to: old(env).storage@.transactions[old(env).storage@.disputes[dispute_id].transaction_id].from_agent,
                amount: refund_amount,
            },
        ),
        r is Ok && refund_amount <= 0 ==> final(env).transfers@ == old(env).transfers@,
        final(env).ledger == old(env).ledger,
{
    env.auths.push(overseer.duplicate());
    let mut dispute = match env.storage.disputes.get(&dispute_id) {
        Some(d) => d.duplicate(),
        None => return Err(EscrowError::DisputeNotFound),
    };
    match dispute.status {
        DisputeStatus::Open => {},
        _ => return Err(EscrowError::DisputeAlreadyResolved),
    }
    let (token, from_agent) = match env.storage.transactions.get(&dispute.transaction_id) {
        Some(tx) => (tx.token_address.duplicate(), tx.from_agent.duplicate()),
        None => return Err(EscrowError::TransactionNotFound),
    };
    dispute.status = DisputeStatus::Resolved;
    dispute.resolved_at = Some(env.ledger.timestamp);
    dispute.resolved_by = Some(overseer);
    dispute.resolution = Some(resolution);
    env.storage.disputes.set(dispute_id, dispute);
    if refund_amount > 0 {
        env.transfers.push(TokenTransfer {
            token,
            spender: None,
            from: env.ledger.contract.duplicate(),
            to: from_agent,
            amount: refund_amount,
        });
    }
    Ok(())
}

impl Dispute {
    /// A copy of this dispute.
    pub fn duplicate(&self) -> (d: Dispute)
        ensures
            d == *self,
    {
        Dispute {
            id: self.id,
            transaction_id: self.transaction_id,
            raised_by: self.raised_by.duplicate(),
            reason: self.reason.clone(),
            status: self.status,
            created_at: self.created_at,
            resolved_at: self.resolved_at,
            resolved_by: match &self.resolved_by {
                Some(a) => Some(a.duplicate()),
                None => None,
            },
            resolution: match &self.resolution {
                Some(r) => Some(r.clone()),
                None => None,
            },
        }
    }
}

} // verus!
