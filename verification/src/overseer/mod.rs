//! Human overseers and their roles.

use vstd::prelude::*;

use crate::storage::{Address, DataKey, Env, EscrowState};
use crate::EscrowError;

verus! {

/// A human who supervises agents.
#[derive(Debug, PartialEq, Eq)]
pub struct HumanOverseer {
    pub address: Address,
    pub name: String,
    pub role: OverseerRole,
    pub approved_agents: Vec<u64>,
    pub created_at: u64,
    pub last_active: u64,
}

/// What an overseer may do: a super admin everything an approver may, an
/// approver everything a viewer may.
#[derive(Clone, Copy, Debug, PartialEq, Eq, Structural)]
pub enum OverseerRole {
    SuperAdmin,
    Approver,
    Viewer,
}

/// An overseer, with its name as text and the agents it approved as a
/// sequence.
pub struct HumanOverseerView {
    pub address: Address,
    pub name: Seq<char>,
    pub role: OverseerRole,
    pub approved_agents: Seq<u64>,
    pub created_at: u64,
    pub last_active: u64,
}

impl View for HumanOverseer {
    type V = HumanOverseerView;

    open spec fn view(&self) -> HumanOverseerView {
        HumanOverseerView {
            address: self.address,
            name: self.name@,
            role: self.role,
            approved_agents: self.approved_agents@,
            created_at: self.created_at,
            last_active: self.last_active,
        }
    }
}

impl HumanOverseer {
    /// A copy of this overseer.
    pub fn duplicate(&self) -> (o: HumanOverseer)
        ensures
            o@ == self@,
    {
        let approved_agents = self.approved_agents.clone();
        proof {
            assert(approved_agents@ =~= self.approved_agents@);
        }
        HumanOverseer {
            address: self.address.duplicate(),
            name: self.name.clone(),
            role: self.role,
            approved_agents,
            created_at: self.created_at,
            last_active: self.last_active,
        }
    }
}

/// The rank of a role: higher ranks hold every permission of lower ones.
pub open spec fn role_rank(role: OverseerRole) -> int {
    match role {
        OverseerRole::SuperAdmin => 2,
        OverseerRole::Approver => 1,
        OverseerRole::Viewer => 0,
    }
}

/// Whether holding role `held` grants what role `required` may do.
pub open spec fn role_grants(held: OverseerRole, required: OverseerRole) -> bool {
    role_rank(held) >= role_rank(required)
}

/// The overseer that `add_overseer` stores.
pub open spec fn new_overseer(address: Address, name: Seq<char>, role: OverseerRole, now: u64) -> HumanOverseerView {
    HumanOverseerView { address, name, role, approved_agents: Seq::empty(), created_at: now, last_active: now }
}

/// What `add_overseer` leaves in storage and returns.
pub open spec fn add_overseer_outcome(
    s: EscrowState,
    now: u64,
    new_address: Address,
    name: Seq<char>,
    role: OverseerRole,
) -> (EscrowState, Result<(), EscrowError>) {
    if s.overseers.contains_key(new_address@) {
        (s, Err(EscrowError::OverseerAlreadyExists))
    } else {
        (
            EscrowState {
                overseers: s.overseers.insert(new_address@, new_overseer(new_address, name, role, now)),
                overseer_count: Some((s.overseer_count_value() + 1) as u64),
                ..s
            },
            Ok(()),
        )
    }
}

/// The overseer counter stays in range when one is added.
pub open spec fn add_overseer_fits(s: EscrowState, new_address: Address) -> bool {
    s.overseers.contains_key(new_address@) || s.overseer_count_value() < u64::MAX
}

/// Whether the overseer counter stays in range, so that `add_overseer`
/// may be called.
pub fn add_overseer_in_range(env: &Env, new_overseer: &Address) -> (r: bool)
    ensures
        r == add_overseer_fits(env.storage@, *new_overseer),
{
    env.storage.overseers.has(new_overseer) || env.storage.overseer_count.unwrap_or(0) < u64::MAX
}

/// Adds an overseer at `new_overseer` with `role`. Requires the admin's
/// authorization.
///
/// Fails with `OverseerAlreadyExists` where one is at that address.
pub fn add_overseer(
    env: &mut Env,
    admin: Address,
    new_overseer: Address,
    name: String,
    role: OverseerRole,
) -> (r: Result<(), EscrowError>)
    requires
        add_overseer_fits(old(env).storage@, new_overseer),
    ensures
        (final(env).storage@, r) == add_overseer_outcome(old(env).storage@, old(env).ledger.timestamp, new_overseer, name@, role),
        r is Err ==> final(env).storage@ == old(env).storage@,
        r is Ok <==> !old(env).storage@.overseers.contains_key(new_overseer@),
        r is Ok ==> final(env).storage@.overseers[new_overseer@].role == role,
        r is Ok ==> final(env).storage@.overseers[new_overseer@].name == name@,
        final(env).auths@ == old(env).auths@.push(admin),
        final(env).transfers@ == old(env).transfers@,
        final(env).ledger == old(env).ledger,
{
    env.auths.push(admin);
    if env.storage.has(&DataKey::Overseer(new_overseer.duplicate())) {
        return Err(EscrowError::OverseerAlreadyExists);
    }
    let now = env.ledger.timestamp;
    let overseer = HumanOverseer {
        address: new_overseer.duplicate(),
        name,
        role,
        approved_agents: Vec::new(),
        created_at: now,
        last_active: now,
    };
    env.storage.overseers.set(new_overseer, overseer);
    let count: u64 = env.storage.overseer_count.unwrap_or(0);
    env.storage.overseer_count = Some(count + 1);
    Ok(())
}

/// The overseer at `address`, if there is one.
pub fn get_overseer(env: &Env, address: Address) -> (r: Option<HumanOverseer>)
    ensures
        match r {
            Some(o) => env.storage@.overseers.contains_key(address@) && o@ == env.storage@.overseers[address@],
            None => !env.storage@.overseers.contains_key(address@),
        },
{
    match env.storage.overseers.get(&address) {
        Some(o) => Some(o.duplicate()),
        None => None,
    }
}

/// What `check_overseer_role` returns.
pub open spec fn check_overseer_role_result(s: EscrowState, address: Address, required: OverseerRole) -> Result<(), EscrowError> {
    if !s.overseers.contains_key(address@) {
        Err(EscrowError::OverseerNotFound)
    } else if role_grants(s.overseers[address@].role, required) {
        Ok(())
    } else {
        Err(EscrowError::NotAuthorized)
    }
}

/// Succeeds where the overseer at `address` holds a role that grants what
/// `required` may do.
///
/// Fails with `OverseerNotFound` where there is no overseer at `address`,
/// and with `NotAuthorized` where its role ranks below `required`.
pub fn check_overseer_role(env: &Env, address: &Address, required: OverseerRole) -> (r: Result<(), EscrowError>)
    ensures
        r == check_overseer_role_result(env.storage@, *address, required),
{
    let role = match env.storage.overseers.get(address) {
        Some(o) => o.role,
        None => return Err(EscrowError::OverseerNotFound),
    };
    match (role, required) {
        (OverseerRole::SuperAdmin, _) => Ok(()),
        (OverseerRole::Approver, OverseerRole::Approver) => Ok(()),
        (OverseerRole::Approver, OverseerRole::Viewer) => Ok(()),
        (OverseerRole::Viewer, OverseerRole::Viewer) => Ok(()),
        _ => Err(EscrowError::NotAuthorized),
    }
}

} // verus!
