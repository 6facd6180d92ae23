//! The provisioning worker's decisions. The worker takes jobs from the queue
//! one at a time; for each it asks `plan_job` what to ask of the panel,
//! performs that, and hands the panel's answer to
//! `Database::record_provisioning`.
use vstd::prelude::*;
use crate::db::{server_index, Database};
use crate::pterodactyl::CreateServerRequest;
use crate::queue::{JobType, QueueJob};
use crate::server::ServerStatus;

verus! {

/// What the worker asks of the panel for one job.
#[derive(Debug)]
pub enum WorkerAction {
    /// Create the pending server `server_id`.
    Create { server_id: u128, request: CreateServerRequest },
    /// Remove the panel's instance `external_id`.
    Delete { external_id: i64 },
    /// Nothing: the job needs no panel call (a duplicate, a server gone or
    /// never provisioned, a login).
    Skip,
}

/// The panel call that `job` needs, given the store; `panel_user` owns new
/// servers on the panel.
pub fn plan_job(db: &Database, job: &QueueJob, panel_user: i64) -> (r: WorkerAction)
    requires
        db.wf(),
    ensures
        ({
            let id = job.data.server_id->Some_0;
            let i = server_index(db.servers(), id);
            if job.job_type == JobType::CreateServer && job.data.server_id is Some && i >= 0
                && db.servers()[i].status == ServerStatus::Creating {
                r matches WorkerAction::Create { server_id, request } && server_id == id
                    && request.describes(db.servers()[i], panel_user)
            } else if job.job_type == JobType::DeleteServer && job.data.external_id is Some {
                r == (WorkerAction::Delete { external_id: job.data.external_id->Some_0 })
            } else {
                r is Skip
            }
        }),
{
    match job.job_type {
        JobType::CreateServer => {
            let id = match job.data.server_id {
                Some(id) => id,
                None => return WorkerAction::Skip,
            };
            match db.get_server_by_id(id) {
                Some(s) => {
                    if s.status == ServerStatus::Creating {
                        WorkerAction::Create {
                            server_id: id,
                            request: CreateServerRequest::for_server(s, panel_user),
                        }
                    } else {
                        WorkerAction::Skip
                    }
                },
                None => WorkerAction::Skip,
            }
        },
        JobType::DeleteServer => match job.data.external_id {
            Some(external_id) => WorkerAction::Delete { external_id },
            None => WorkerAction::Skip,
        },
        JobType::Login => WorkerAction::Skip,
    }
}

} // verus!
