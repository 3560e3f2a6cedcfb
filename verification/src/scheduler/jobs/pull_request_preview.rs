//! Pull Request Preview Jobs
//!
//! Preview deployments for pull requests, cleanup of orphaned previews and
//! deployment statuses posted back to the pull request.

use vstd::prelude::*;
use crate::ids::new_id;
use crate::scheduler::jobs::{Job, JobContext, JobResult};
use crate::text::{i64_text, int_text, owned};

verus! {

pub struct PullRequestPreviewJob;

#[derive(Debug, Clone)]
pub struct PullRequestContext {
    pub application_id: u128,
    pub pull_request_id: i64,
    pub commit_sha: String,
    pub branch: String,
    pub action: PullRequestAction,
    pub base_domain: Option<String>,
}

#[derive(Debug, Clone, Copy, PartialEq, Eq, Structural)]
pub enum PullRequestAction {
    Opened,
    Synchronize,
    Reopened,
    Closed,
}

#[derive(Debug, Clone)]
pub struct PullRequestResult {
    pub preview_id: u128,
    pub fqdn: Option<String>,
    pub status: String,
    pub deployment_id: Option<u128>,
}

/// The preview's domain: `pr-<id>.<base domain>`.
pub open spec fn preview_fqdn(pull_request_id: i64, domain: Seq<char>) -> Seq<char> {
    "pr-"@ + int_text(pull_request_id as int) + "."@ + domain
}

/// The preview domain when a base domain is configured.
pub fn preview_domain(pull_request_id: i64, base_domain: &Option<String>) -> (r: Option<String>)
    ensures
        match *base_domain {
            Some(d) => r matches Some(f) && f@ == preview_fqdn(pull_request_id, d@),
            None => r is None,
        },
{
    match base_domain {
        Some(d) => {
            let mut f = owned("pr-");
            let n = i64_text(pull_request_id);
            f.append(n.as_str());
            f.append(".");
            f.append(d.as_str());
            Some(f)
        },
        None => None,
    }
}

impl PullRequestPreviewJob {
    fn create_preview(&self, data: &PullRequestContext) -> (r: JobResult<PullRequestResult>)
        ensures
            r matches Ok(res) && res.status@ == "deploying"@ && res.deployment_id is Some && match data.base_domain {
                Some(d) => res.fqdn matches Some(f) && f@ == preview_fqdn(data.pull_request_id, d@),
                None => res.fqdn is None,
            },
    {
        let fqdn = preview_domain(data.pull_request_id, &data.base_domain);
        let preview_id = new_id();
        Ok(
            PullRequestResult {
                preview_id,
                fqdn,
                status: owned("deploying"),
                deployment_id: Some(new_id()),
            },
        )
    }

    fn update_preview(&self, data: &PullRequestContext) -> (r: JobResult<PullRequestResult>)
        ensures
            r matches Ok(res) && res.status@ == "updating"@ && res.deployment_id is Some && match data.base_domain {
                Some(d) => res.fqdn matches Some(f) && f@ == preview_fqdn(data.pull_request_id, d@),
                None => res.fqdn is None,
            },
    {
        let preview_id = new_id();
        Ok(
            PullRequestResult {
                preview_id,
                fqdn: preview_domain(data.pull_request_id, &data.base_domain),
                status: owned("updating"),
                deployment_id: Some(new_id()),
            },
        )
    }

    fn delete_preview(&self, data: &PullRequestContext) -> (r: JobResult<PullRequestResult>)
        ensures
            r matches Ok(res) && res.status@ == "deleted"@ && res.deployment_id is None
                && res.fqdn is None,
    {
        Ok(
            PullRequestResult {
                preview_id: new_id(),
                fqdn: None,
                status: owned("deleted"),
                deployment_id: None,
            },
        )
    }

    /// Acts on a pull-request event: an opened or reopened request gets a
    /// preview deployment, a synchronized one an update, a closed one has
    /// its preview deleted.
    pub fn handle(&self, ctx: JobContext<PullRequestContext>) -> (r: JobResult<PullRequestResult>)
        ensures
            r matches Ok(res) && match ctx.payload.action {
                PullRequestAction::Closed => res.status@ == "deleted"@ && res.fqdn is None
                    && res.deployment_id is None,
                _ => res.status@ == (if ctx.payload.action is Synchronize {
                    "updating"@
                } else {
                    "deploying"@
                }) && res.deployment_id is Some && match ctx.payload.base_domain {
                    Some(d) => res.fqdn matches Some(f) && f@ == preview_fqdn(
                        ctx.payload.pull_request_id,
                        d@,
                    ),
                    None => res.fqdn is None,
                },
            },
    {
        match ctx.payload.action {
            PullRequestAction::Opened | PullRequestAction::Reopened => self.create_preview(
                &ctx.payload,
            ),
            PullRequestAction::Synchronize => self.update_preview(&ctx.payload),
            PullRequestAction::Closed => self.delete_preview(&ctx.payload),
        }
    }
}

impl Job for PullRequestPreviewJob {
    fn name(&self) -> (r: &'static str)
        ensures
            r@ == "pull_request_preview"@,
    {
        "pull_request_preview"
    }
}

pub struct CleanupOrphanedPreviewsJob;

#[derive(Debug, Clone)]
pub struct CleanupPreviewsContext {
    pub server_id: u128,
    pub max_age_hours: u32,
}

#[derive(Debug, Clone)]
pub struct CleanupPreviewsResult {
    pub cleaned: u32,
    pub errors: Vec<String>,
}

impl CleanupOrphanedPreviewsJob {
    /// Nothing is found to clean yet.
    pub fn handle(&self, ctx: JobContext<CleanupPreviewsContext>) -> (r: JobResult<
        CleanupPreviewsResult,
    >)
        ensures
            r matches Ok(res) && res.cleaned == 0 && res.errors@.len() == 0,
    {
        Ok(CleanupPreviewsResult { cleaned: 0, errors: Vec::new() })
    }
}

impl Job for CleanupOrphanedPreviewsJob {
    fn name(&self) -> (r: &'static str)
        ensures
            r@ == "cleanup_orphaned_previews"@,
    {
        "cleanup_orphaned_previews"
    }
}

pub struct PostDeploymentStatusJob;

#[derive(Debug, Clone)]
pub struct DeploymentStatusContext {
    pub application_id: u128,
    pub pull_request_id: i64,
    pub deployment_id: u128,
    pub status: DeploymentStatusType,
    pub target_url: Option<String>,
    pub description: Option<String>,
}

#[derive(Debug, Clone, Copy, PartialEq, Eq, Structural)]
pub enum DeploymentStatusType {
    Pending,
    InProgress,
    Success,
    Failure,
    Error,
}

impl PostDeploymentStatusJob {
    /// The status counts as posted.
    pub fn handle(&self, ctx: JobContext<DeploymentStatusContext>) -> (r: JobResult<bool>)
        ensures
            r == Ok::<bool, String>(true),
    {
        Ok(true)
    }
}

impl Job for PostDeploymentStatusJob {
    fn name(&self) -> (r: &'static str)
        ensures
            r@ == "post_deployment_status"@,
    {
        "post_deployment_status"
    }
}

} // verus!
