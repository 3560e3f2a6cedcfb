//! GitHub App jobs: permissions, token refresh, repository sync, webhooks and
//! deployment statuses.

use vstd::prelude::*;
use crate::scheduler::{JobOutcome, JobResult, succeeded_with};
use crate::scheduler::jobs::{Job, JobContext};
use crate::text::owned;

verus! {

#[derive(Debug, Clone)]
pub struct GithubAppPermissionPayload {
    pub github_app_id: u128,
    pub installation_id: i64,
    pub team_id: u128,
}

#[derive(Debug, Clone, Copy)]
pub struct GithubAppPermissions {
    pub contents: PermissionLevel,
    pub pull_requests: PermissionLevel,
    pub issues: PermissionLevel,
    pub webhooks: PermissionLevel,
    pub metadata: PermissionLevel,
    pub actions: PermissionLevel,
    pub deployments: PermissionLevel,
}

/// Access levels. `NoAccess` is GitHub's `none`.
#[derive(Debug, Clone, Copy, PartialEq, Eq, Structural)]
pub enum PermissionLevel {
    NoAccess,
    Read,
    Write,
    Admin,
}

pub struct GithubAppPermissionJob;

impl GithubAppPermissionJob {
    /// Reports the work as done.
    pub fn handle(&self, ctx: JobContext<GithubAppPermissionPayload>) -> (r: JobOutcome)
        ensures
            succeeded_with(r, "GitHub App permissions checked"@),
    {
        Ok(JobResult::success("GitHub App permissions checked"))
    }
}

impl Job for GithubAppPermissionJob {
    fn name(&self) -> (r: &'static str)
        ensures
            r@ == "github_app_permission"@,
    {
        "github_app_permission"
    }
}

#[derive(Debug, Clone)]
pub struct RefreshGithubTokenPayload {
    pub github_app_id: u128,
    pub installation_id: i64,
}

pub struct RefreshGithubTokenJob;

impl RefreshGithubTokenJob {
    /// Reports the work as done.
    pub fn handle(&self, ctx: JobContext<RefreshGithubTokenPayload>) -> (r: JobOutcome)
        ensures
            succeeded_with(r, "GitHub token refreshed"@),
    {
        Ok(JobResult::success("GitHub token refreshed"))
    }
}

impl Job for RefreshGithubTokenJob {
    fn name(&self) -> (r: &'static str)
        ensures
            r@ == "refresh_github_token"@,
    {
        "refresh_github_token"
    }

    fn queue(&self) -> (r: &'static str)
        ensures
            r@ == "high"@,
    {
        "high"
    }
}

#[derive(Debug, Clone)]
pub struct SyncGithubReposPayload {
    pub github_app_id: u128,
    pub installation_id: i64,
    pub force: bool,
}

pub struct SyncGithubReposJob;

impl SyncGithubReposJob {
    /// Reports the work as done.
    pub fn handle(&self, ctx: JobContext<SyncGithubReposPayload>) -> (r: JobOutcome)
        ensures
            succeeded_with(r, "GitHub repositories synced"@),
    {
        Ok(JobResult::success("GitHub repositories synced"))
    }
}

impl Job for SyncGithubReposJob {
    fn name(&self) -> (r: &'static str)
        ensures
            r@ == "sync_github_repos"@,
    {
        "sync_github_repos"
    }
}

#[derive(Debug)]
pub struct ProcessGithubWebhookPayload {
    pub event_type: String,
    pub payload: serde_json::Value,
    pub delivery_id: String,
    pub github_app_id: Option<u128>,
}

/// The kinds of webhook event that are told apart.
#[derive(Debug, Clone, Copy, PartialEq, Eq, Structural)]
pub enum WebhookEventKind {
    Push,
    PullRequest,
    Installation,
    Check,
    Other,
}

/// The kind of a webhook event by its name.
pub open spec fn webhook_kind(event: Seq<char>) -> WebhookEventKind {
    if event == "push"@ {
        WebhookEventKind::Push
    } else if event == "pull_request"@ {
        WebhookEventKind::PullRequest
    } else if event == "installation"@ || event == "installation_repositories"@ {
        WebhookEventKind::Installation
    } else if event == "check_run"@ || event == "check_suite"@ {
        WebhookEventKind::Check
    } else {
        WebhookEventKind::Other
    }
}

/// The kind of a webhook event.
pub fn webhook_event_kind(event: &str) -> (k: WebhookEventKind)
    ensures
        k == webhook_kind(event@),
{
    let v = crate::text::chars_of(event);
    if crate::text::equals(&v, "push") {
        WebhookEventKind::Push
    } else if crate::text::equals(&v, "pull_request") {
        WebhookEventKind::PullRequest
    } else if crate::text::equals(&v, "installation") || crate::text::equals(
        &v,
        "installation_repositories",
    ) {
        WebhookEventKind::Installation
    } else if crate::text::equals(&v, "check_run") || crate::text::equals(&v, "check_suite") {
        WebhookEventKind::Check
    } else {
        WebhookEventKind::Other
    }
}

pub struct ProcessGithubWebhookJob;

impl ProcessGithubWebhookJob {
    /// Processes a webhook event (every kind is acknowledged the same way):
    /// `Webhook <event> processed`.
    pub fn handle(&self, ctx: JobContext<ProcessGithubWebhookPayload>) -> (r: JobOutcome)
        ensures
            succeeded_with(r, "Webhook "@ + ctx.payload.event_type@ + " processed"@),
    {
        let _kind = webhook_event_kind(ctx.payload.event_type.as_str());
        let mut m = owned("Webhook ");
        m.append(ctx.payload.event_type.as_str());
        m.append(" processed");
        Ok(JobResult::success(m.as_str()))
    }
}

impl Job for ProcessGithubWebhookJob {
    fn name(&self) -> (r: &'static str)
        ensures
            r@ == "process_github_webhook"@,
    {
        "process_github_webhook"
    }

    fn queue(&self) -> (r: &'static str)
        ensures
            r@ == "high"@,
    {
        "high"
    }
}

#[derive(Debug, Clone)]
pub struct CreateGithubDeploymentStatusPayload {
    pub github_app_id: u128,
    pub owner: String,
    pub repo: String,
    pub deployment_id: i64,
    pub state: String,
    pub environment_url: Option<String>,
    pub log_url: Option<String>,
    pub description: Option<String>,
}

pub struct CreateGithubDeploymentStatusJob;

impl CreateGithubDeploymentStatusJob {
    /// Reports the work as done.
    pub fn handle(&self, ctx: JobContext<CreateGithubDeploymentStatusPayload>) -> (r: JobOutcome)
        ensures
            succeeded_with(r, "Deployment status created"@),
    {
        Ok(JobResult::success("Deployment status created"))
    }
}

impl Job for CreateGithubDeploymentStatusJob {
    fn name(&self) -> (r: &'static str)
        ensures
            r@ == "create_github_deployment_status"@,
    {
        "create_github_deployment_status"
    }

    fn queue(&self) -> (r: &'static str)
        ensures
            r@ == "high"@,
    {
        "high"
    }
}

} // verus!
