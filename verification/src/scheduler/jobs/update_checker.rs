//! Update jobs: update checks, self-update, changelog, templates, Traefik and
//! helper image checks.

use vstd::prelude::*;
use crate::scheduler::{JobOutcome, JobResult, succeeded_with};
use crate::scheduler::jobs::{Job, JobContext};
use crate::text::owned;

verus! {

#[derive(Debug, Clone)]
pub struct CheckForUpdatesPayload {
    pub current_version: String,
    pub include_beta: bool,
}

/// An available release. `released_at` is in milliseconds since the epoch.
#[derive(Debug, Clone)]
pub struct UpdateInfo {
    pub version: String,
    pub changelog: Option<String>,
    pub download_url: Option<String>,
    pub released_at: i64,
    pub breaking: bool,
}

pub struct CheckForUpdatesJob;

impl CheckForUpdatesJob {
    /// Reports the work as done.
    pub fn handle(&self, ctx: JobContext<CheckForUpdatesPayload>) -> (r: JobOutcome)
        ensures
            succeeded_with(r, "Update check completed"@),
    {
        Ok(JobResult::success("Update check completed"))
    }
}

impl Job for CheckForUpdatesJob {
    fn name(&self) -> (r: &'static str)
        ensures
            r@ == "check_for_updates"@,
    {
        "check_for_updates"
    }
}

#[derive(Debug, Clone)]
pub struct UpdateKornettiPayload {
    pub target_version: String,
    pub force: bool,
    pub restart_after: bool,
}

pub struct UpdateKornettiJob;

impl UpdateKornettiJob {
    /// Reports the update: `Updated to version <target>`.
    pub fn handle(&self, ctx: JobContext<UpdateKornettiPayload>) -> (r: JobOutcome)
        ensures
            succeeded_with(r, "Updated to version "@ + ctx.payload.target_version@ + ""@),
    {
        let mut m = owned("Updated to version ");
        m.append(ctx.payload.target_version.as_str());
        m.append("");
        Ok(JobResult::success(m.as_str()))
    }
}

impl Job for UpdateKornettiJob {
    fn name(&self) -> (r: &'static str)
        ensures
            r@ == "update_kornetti"@,
    {
        "update_kornetti"
    }

    fn queue(&self) -> (r: &'static str)
        ensures
            r@ == "high"@,
    {
        "high"
    }
}

#[derive(Debug, Clone)]
pub struct PullChangelogPayload {
    pub version: Option<String>,
}

pub struct PullChangelogJob;

impl PullChangelogJob {
    /// Reports the work as done.
    pub fn handle(&self, ctx: JobContext<PullChangelogPayload>) -> (r: JobOutcome)
        ensures
            succeeded_with(r, "Changelog pulled"@),
    {
        Ok(JobResult::success("Changelog pulled"))
    }
}

impl Job for PullChangelogJob {
    fn name(&self) -> (r: &'static str)
        ensures
            r@ == "pull_changelog"@,
    {
        "pull_changelog"
    }

    fn queue(&self) -> (r: &'static str)
        ensures
            r@ == "low"@,
    {
        "low"
    }
}

#[derive(Debug, Clone)]
pub struct PullTemplatesPayload {
    /// Force refresh even if cached
    pub force_refresh: bool,
}

pub struct PullTemplatesJob;

impl PullTemplatesJob {
    /// Reports the work as done.
    pub fn handle(&self, ctx: JobContext<PullTemplatesPayload>) -> (r: JobOutcome)
        ensures
            succeeded_with(r, "Templates updated"@),
    {
        Ok(JobResult::success("Templates updated"))
    }
}

impl Job for PullTemplatesJob {
    fn name(&self) -> (r: &'static str)
        ensures
            r@ == "pull_templates"@,
    {
        "pull_templates"
    }

    fn queue(&self) -> (r: &'static str)
        ensures
            r@ == "low"@,
    {
        "low"
    }
}

#[derive(Debug, Clone)]
pub struct CheckTraefikVersionPayload {
    pub server_id: u128,
    pub min_version: Option<String>,
}

pub struct CheckTraefikVersionJob;

impl CheckTraefikVersionJob {
    /// Reports the work as done.
    pub fn handle(&self, ctx: JobContext<CheckTraefikVersionPayload>) -> (r: JobOutcome)
        ensures
            succeeded_with(r, "Traefik version checked"@),
    {
        Ok(JobResult::success("Traefik version checked"))
    }
}

impl Job for CheckTraefikVersionJob {
    fn name(&self) -> (r: &'static str)
        ensures
            r@ == "check_traefik_version"@,
    {
        "check_traefik_version"
    }
}

#[derive(Debug, Clone)]
pub struct CheckHelperImagePayload {
    pub server_id: u128,
    pub expected_tag: Option<String>,
}

pub struct CheckHelperImageJob;

impl CheckHelperImageJob {
    /// Reports the work as done.
    pub fn handle(&self, ctx: JobContext<CheckHelperImagePayload>) -> (r: JobOutcome)
        ensures
            succeeded_with(r, "Helper image checked"@),
    {
        Ok(JobResult::success("Helper image checked"))
    }
}

impl Job for CheckHelperImageJob {
    fn name(&self) -> (r: &'static str)
        ensures
            r@ == "check_helper_image"@,
    {
        "check_helper_image"
    }
}

} // verus!
