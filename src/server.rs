//! A hosted server instance as the ledger knows it, and its lifecycle.
use vstd::prelude::*;
use crate::clock::{new_uuid, now_timestamp, SECONDS_PER_DAY};
use crate::resources::Resources;

verus! {

/// The days a new server runs before it must be renewed.
pub const DEFAULT_LIFETIME_DAYS: i64 = 30;

#[derive(Debug, Clone, Copy, PartialEq, Eq, Structural)]
pub enum ServerStatus {
    Creating,
    Running,
    Stopped,
    Suspended,
    Deleted,
}

/// The lifecycle: a pending creation ends running or suspended; running and
/// suspended alternate; running, suspended and stopped servers may be
/// deleted; a pending creation is deleted only where it is cancelled.
/// Nothing leaves `Deleted`, and nothing enters `Stopped` here: that state
/// is set outside this lifecycle.
pub open spec fn transition_allowed(from: ServerStatus, to: ServerStatus, cancellation: bool) -> bool {
    match (from, to) {
        (ServerStatus::Creating, ServerStatus::Running) => true,
        (ServerStatus::Creating, ServerStatus::Suspended) => true,
        (ServerStatus::Creating, ServerStatus::Deleted) => cancellation,
        (ServerStatus::Running, ServerStatus::Suspended) => true,
        (ServerStatus::Suspended, ServerStatus::Running) => true,
        (ServerStatus::Running, ServerStatus::Deleted) => true,
        (ServerStatus::Suspended, ServerStatus::Deleted) => true,
        (ServerStatus::Stopped, ServerStatus::Deleted) => true,
        _ => false,
    }
}

pub fn can_transition(from: ServerStatus, to: ServerStatus, cancellation: bool) -> (r: bool)
    ensures
        r == transition_allowed(from, to, cancellation),
{
    match (from, to) {
        (ServerStatus::Creating, ServerStatus::Running) => true,
        (ServerStatus::Creating, ServerStatus::Suspended) => true,
        (ServerStatus::Creating, ServerStatus::Deleted) => cancellation,
        (ServerStatus::Running, ServerStatus::Suspended) => true,
        (ServerStatus::Suspended, ServerStatus::Running) => true,
        (ServerStatus::Running, ServerStatus::Deleted) => true,
        (ServerStatus::Suspended, ServerStatus::Deleted) => true,
        (ServerStatus::Stopped, ServerStatus::Deleted) => true,
        _ => false,
    }
}

/// A plan a server can be bought on: what it reserves and what it costs.
#[derive(Debug, Clone)]
pub struct Plan {
    pub name: String,
    pub resources: Resources,
    pub cost: i64,
}

/// The plans on offer: "free" and "basic".
pub open spec fn spec_plan_named(name: Seq<char>) -> Option<(Resources, i64)> {
    if name == "free"@ {
        Some((Resources { ram: 512, cpu: 50, disk: 1024, databases: 1, allocations: 1, backups: 1 }, 0))
    } else if name == "basic"@ {
        Some(
            (
                Resources { ram: 1024, cpu: 100, disk: 2048, databases: 2, allocations: 2, backups: 2 },
                500,
            ),
        )
    } else {
        None
    }
}

/// The plan called `name`, if one is on offer.
pub fn plan_named(name: &String) -> (r: Option<Plan>)
    ensures
        match r {
            Some(p) => p.name == *name && spec_plan_named(name@) == Some((p.resources, p.cost)),
            None => spec_plan_named(name@) is None,
        },
{
    let free = "free".to_string();
    let basic = "basic".to_string();
    proof {
        reveal_strlit("free");
        reveal_strlit("basic");
        assert(free@ == "free"@);
    }
    if *name == free {
        Some(Plan {
            name: name.clone(),
            resources: Resources { ram: 512, cpu: 50, disk: 1024, databases: 1, allocations: 1, backups: 1 },
            cost: 0,
        })
    } else if *name == basic {
        Some(Plan {
            name: name.clone(),
            resources: Resources {
                ram: 1024,
                cpu: 100,
                disk: 2048,
                databases: 2,
                allocations: 2,
                backups: 2,
            },
            cost: 500,
        })
    } else {
        None
    }
}

#[derive(Debug, Clone)]
pub struct Server {
    pub id: u128,
    pub discord_id: u64,
    pub pterodactyl_id: Option<i64>,
    pub name: String,
    pub plan: String,
    pub resources: Resources,
    pub status: ServerStatus,
    pub expires_at: i64,
    pub created_at: i64,
    pub updated_at: i64,
}

impl Server {
    /// The panel's identifier is known exactly when creation has been
    /// confirmed, so it is absent while the server is being created.
    pub open spec fn wf(&self) -> bool {
        self.status == ServerStatus::Creating ==> self.pterodactyl_id.is_none()
    }

    /// A copy of the record.
    pub fn snapshot(&self) -> (r: Server)
        ensures
            r == *self,
    {
        Server {
            id: self.id,
            discord_id: self.discord_id,
            pterodactyl_id: self.pterodactyl_id,
            name: self.name.clone(),
            plan: self.plan.clone(),
            resources: self.resources,
            status: self.status,
            expires_at: self.expires_at,
            created_at: self.created_at,
            updated_at: self.updated_at,
        }
    }

    /// The expiry after a renewal by `days` days.
    pub open spec fn renewed_expiry(self, days: int) -> int {
        self.expires_at + days * SECONDS_PER_DAY
    }

    /// The record `new_at` makes.
    pub open spec fn spec_new_at(
        id: u128,
        discord_id: u64,
        name: String,
        plan: String,
        resources: Resources,
        now: i64,
    ) -> Server {
        Server {
            id,
            discord_id,
            pterodactyl_id: None,
            name,
            plan,
            resources,
            status: ServerStatus::Creating,
            expires_at: (now + DEFAULT_LIFETIME_DAYS * SECONDS_PER_DAY) as i64,
            created_at: now,
            updated_at: now,
        }
    }

    /// A new server of `discord_id`, with a fresh identifier, created now and
    /// expiring after the default lifetime.
    pub fn new(discord_id: u64, name: String, plan: String, resources: Resources) -> (r: Server)
        ensures
            r.discord_id == discord_id,
            r.name == name,
            r.plan == plan,
            r.resources == resources,
            r.status == ServerStatus::Creating,
            r.pterodactyl_id.is_none(),
            r.expires_at == r.created_at + DEFAULT_LIFETIME_DAYS * SECONDS_PER_DAY,
            r.updated_at == r.created_at,
            r.wf(),
    {
        let id = new_uuid();
        let now = now_timestamp();
        Server::new_at(id, discord_id, name, plan, resources, now)
    }

    /// `new` with the identifier and creation time given.
    pub fn new_at(
        id: u128,
        discord_id: u64,
        name: String,
        plan: String,
        resources: Resources,
        now: i64,
    ) -> (r: Server)
        requires
            now <= i64::MAX - DEFAULT_LIFETIME_DAYS * SECONDS_PER_DAY,
        ensures
            r == Server::spec_new_at(id, discord_id, name, plan, resources, now),
            r.wf(),
    {
        Server {
            id,
            discord_id,
            pterodactyl_id: None,
            name,
            plan,
            resources,
            status: ServerStatus::Creating,
            expires_at: now + DEFAULT_LIFETIME_DAYS * SECONDS_PER_DAY,
            created_at: now,
            updated_at: now,
        }
    }

    pub fn is_expired_at(&self, now: i64) -> (r: bool)
        ensures
            r == (now > self.expires_at),
    {
        now > self.expires_at
    }

    /// Whether the server has expired by now.
    pub fn is_expired(&self) -> (r: bool)
        ensures
            self.expires_at < 0 ==> r,
            self.expires_at >= 0x800_0000_0000 ==> !r,
    {
        let now = now_timestamp();
        self.is_expired_at(now)
    }

    /// Pushes the expiry `days` days later, stamped with the current time.
    pub fn extend_expiry(&mut self, days: i64)
        requires
            0 <= days <= i64::MAX / SECONDS_PER_DAY,
            old(self).renewed_expiry(days as int) <= i64::MAX,
        ensures
            *final(self) == (Server {
                expires_at: old(self).renewed_expiry(days as int) as i64,
                updated_at: final(self).updated_at,
                ..*old(self)
            }),
    {
        let now = now_timestamp();
        self.extend_expiry_at(days, now)
    }

    /// `extend_expiry` with the modification time given.
    pub fn extend_expiry_at(&mut self, days: i64, now: i64)
        requires
            0 <= days <= i64::MAX / SECONDS_PER_DAY,
            old(self).renewed_expiry(days as int) <= i64::MAX,
        ensures
            *final(self) == (Server {
                expires_at: old(self).renewed_expiry(days as int) as i64,
                updated_at: now,
                ..*old(self)
            }),
    {
        self.expires_at = self.expires_at + days * SECONDS_PER_DAY;
        self.updated_at = now;
    }

    /// Records the panel's confirmation of a pending creation.
    pub fn mark_running(&mut self, pterodactyl_id: i64, now: i64) -> (r: bool)
        requires
            old(self).wf(),
        ensures
            r == (old(self).status == ServerStatus::Creating),
            r ==> *final(self) == (Server {
                pterodactyl_id: Some(pterodactyl_id),
                status: ServerStatus::Running,
                updated_at: now,
                ..*old(self)
            }),
            !r ==> *final(self) == *old(self),
            final(self).wf(),
    {
        if self.status != ServerStatus::Creating {
            return false;
        }
        self.pterodactyl_id = Some(pterodactyl_id);
        self.status = ServerStatus::Running;
        self.updated_at = now;
        true
    }

    /// Moves the server to `to` where the lifecycle allows it; `cancellation`
    /// says whether this is the explicit abandonment of a pending creation.
    /// Entering `Running` from `Creating` needs the panel's identifier, which
    /// `mark_running` records.
    pub fn transition(&mut self, to: ServerStatus, cancellation: bool, now: i64) -> (r: bool)
        requires
            old(self).wf(),
        ensures
            r == (transition_allowed(old(self).status, to, cancellation) && !(old(self).status
                == ServerStatus::Creating && to == ServerStatus::Running)),
            r ==> *final(self) == (Server { status: to, updated_at: now, ..*old(self) }),
            !r ==> *final(self) == *old(self),
            final(self).wf(),
    {
        if self.status == ServerStatus::Creating && to == ServerStatus::Running {
            return false;
        }
        if !can_transition(self.status, to, cancellation) {
            return false;
        }
        self.status = to;
        self.updated_at = now;
        true
    }
}

/// A renewal never moves the expiry earlier: it is the old expiry plus a
/// non-negative number of days.
pub proof fn lemma_renewal_never_shortens(s: Server, days: int)
    requires
        days >= 0,
    ensures
        s.renewed_expiry(days) >= s.expires_at,
        days > 0 ==> s.renewed_expiry(days) > s.expires_at,
{
}

/// A pending creation reaches `Deleted` only through explicit cancellation,
/// and nothing leaves `Deleted`.
pub proof fn lemma_deleted_from_creating_only_by_cancellation(
    to: ServerStatus,
    cancellation: bool,
)
    ensures
        transition_allowed(ServerStatus::Creating, ServerStatus::Deleted, cancellation)
            ==> cancellation,
        !transition_allowed(ServerStatus::Deleted, to, cancellation),
{
}

} // verus!
