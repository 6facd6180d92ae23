//! The provisioning panel's data: what a creation request carries and what
//! the panel reports of a server.
use vstd::prelude::*;
use crate::server::Server;

verus! {

#[verifier::external_type_specification]
#[verifier::external_body]
pub struct ExJsonValue(serde_json::Value);

/// Relies on serde_json's `Value::Object` and `Map::new`: the empty JSON
/// object, `{}`.
#[verifier::external_body]
fn empty_environment() -> (r: serde_json::Value) {
    serde_json::Value::Object(serde_json::Map::new())
}

/// The panel's memory, swap, disk, IO weight and compute limits.
#[derive(Debug, Clone, Copy, PartialEq, Eq, Structural)]
pub struct ServerLimits {
    pub memory: i64,
    pub swap: i64,
    pub disk: i64,
    pub io: i64,
    pub cpu: i64,
}

#[derive(Debug, Clone, Copy, PartialEq, Eq, Structural)]
pub struct FeatureLimits {
    pub databases: i64,
    pub allocations: i64,
    pub backups: i64,
}

#[derive(Debug, Clone, Copy, PartialEq, Eq, Structural)]
pub struct AllocationRequest {
    pub default: i64,
}

/// A server as the panel reports it.
#[derive(Debug, Clone)]
pub struct PterodactylServer {
    pub id: i64,
    pub external_id: Option<String>,
    pub uuid: String,
    pub identifier: String,
    pub name: String,
    pub description: String,
    pub status: Option<String>,
    pub suspended: bool,
    pub limits: ServerLimits,
    pub feature_limits: FeatureLimits,
}

/// The egg every server is created from.
pub const DEFAULT_EGG: i64 = 1;

/// The allocation every server is given.
pub const DEFAULT_ALLOCATION: i64 = 1;

/// The IO weight every server is given.
pub const DEFAULT_IO: i64 = 500;

/// What the panel is asked for to create a server.
#[derive(Debug)]
pub struct CreateServerRequest {
    pub name: String,
    pub user: i64,
    pub egg: i64,
    pub docker_image: String,
    pub startup: String,
    pub environment: serde_json::Value,
    pub limits: ServerLimits,
    pub feature_limits: FeatureLimits,
    pub allocation: AllocationRequest,
}

impl CreateServerRequest {
    /// The request carries the server's name and reserved resources for the
    /// panel user `user`, with no swap, the default IO weight, egg and
    /// allocation, the Java image and its start command.
    pub open spec fn describes(&self, server: Server, user: i64) -> bool {
        &&& self.name == server.name
        &&& self.user == user
        &&& self.egg == DEFAULT_EGG
        &&& self.docker_image@ == "quay.io/pterodactyl/core:java"@
        &&& self.startup@ == "java -Xms128M -Xmx{{SERVER_MEMORY}}M -jar {{SERVER_JARFILE}}"@
        &&& self.limits == ServerLimits {
            memory: server.resources.ram,
            swap: 0,
            disk: server.resources.disk,
            io: DEFAULT_IO,
            cpu: server.resources.cpu,
        }
        &&& self.feature_limits == FeatureLimits {
            databases: server.resources.databases,
            allocations: server.resources.allocations,
            backups: server.resources.backups,
        }
        &&& self.allocation == AllocationRequest { default: DEFAULT_ALLOCATION }
    }

    /// The creation request for `server`, owned on the panel by `user`.
    pub fn for_server(server: &Server, user: i64) -> (r: CreateServerRequest)
        ensures
            r.describes(*server, user),
    {
        let docker_image = "quay.io/pterodactyl/core:java".to_string();
        let startup = "java -Xms128M -Xmx{{SERVER_MEMORY}}M -jar {{SERVER_JARFILE}}".to_string();
        CreateServerRequest {
            name: server.name.clone(),
            user,
            egg: DEFAULT_EGG,
            docker_image,
            startup,
            environment: empty_environment(),
            limits: ServerLimits {
                memory: server.resources.ram,
                swap: 0,
                disk: server.resources.disk,
                io: DEFAULT_IO,
                cpu: server.resources.cpu,
            },
            feature_limits: FeatureLimits {
                databases: server.resources.databases,
                allocations: server.resources.allocations,
                backups: server.resources.backups,
            },
            allocation: AllocationRequest { default: DEFAULT_ALLOCATION },
        }
    }
}

} // verus!
