//! Delete Resource Job
//!
//! Handles cleanup and deletion of resources (applications, databases, services).

use vstd::prelude::*;
use crate::kv::push_word;
use crate::scheduler::jobs::{Job, JobContext, JobResult};
use crate::text::texts;

verus! {

/// Type of resource being deleted
#[derive(Debug, Clone, Copy, PartialEq, Eq, Structural)]
pub enum ResourceType {
    Application,
    ApplicationPreview,
    Service,
    PostgreSQL,
    MySQL,
    MariaDB,
    MongoDB,
    Redis,
    Clickhouse,
    KeyDB,
    Dragonfly,
}

/// The name each resource type goes by.
pub open spec fn resource_type_name(t: ResourceType) -> Seq<char> {
    match t {
        ResourceType::Application => "application"@,
        ResourceType::ApplicationPreview => "application_preview"@,
        ResourceType::Service => "service"@,
        ResourceType::PostgreSQL => "standalone-postgresql"@,
        ResourceType::MySQL => "standalone-mysql"@,
        ResourceType::MariaDB => "standalone-mariadb"@,
        ResourceType::MongoDB => "standalone-mongodb"@,
        ResourceType::Redis => "standalone-redis"@,
        ResourceType::Clickhouse => "standalone-clickhouse"@,
        ResourceType::KeyDB => "standalone-keydb"@,
        ResourceType::Dragonfly => "standalone-dragonfly"@,
    }
}

/// Every type but applications, previews and services is a database.
pub open spec fn is_database_type(t: ResourceType) -> bool {
    !(t is Application || t is ApplicationPreview || t is Service)
}

impl ResourceType {
    pub fn as_str(&self) -> (r: &'static str)
        ensures
            r@ == resource_type_name(*self),
    {
        match self {
            ResourceType::Application => "application",
            ResourceType::ApplicationPreview => "application_preview",
            ResourceType::Service => "service",
            ResourceType::PostgreSQL => "standalone-postgresql",
            ResourceType::MySQL => "standalone-mysql",
            ResourceType::MariaDB => "standalone-mariadb",
            ResourceType::MongoDB => "standalone-mongodb",
            ResourceType::Redis => "standalone-redis",
            ResourceType::Clickhouse => "standalone-clickhouse",
            ResourceType::KeyDB => "standalone-keydb",
            ResourceType::Dragonfly => "standalone-dragonfly",
        }
    }

    pub fn is_database(&self) -> (b: bool)
        ensures
            b == is_database_type(*self),
    {
        match self {
            ResourceType::PostgreSQL => true,
            ResourceType::MySQL => true,
            ResourceType::MariaDB => true,
            ResourceType::MongoDB => true,
            ResourceType::Redis => true,
            ResourceType::Clickhouse => true,
            ResourceType::KeyDB => true,
            ResourceType::Dragonfly => true,
            _ => false,
        }
    }
}

/// Context for resource deletion
#[derive(Debug, Clone)]
pub struct DeleteResourceContext {
    pub resource_id: u128,
    pub resource_type: ResourceType,
    pub resource_name: String,
    pub server_id: u128,
    pub server_ip: String,
    /// Container name(s) to stop
    pub container_names: Vec<String>,
    /// Whether to delete volumes
    pub delete_volumes: bool,
    /// Whether to delete connected networks
    pub delete_connected_networks: bool,
    /// Whether to delete configurations
    pub delete_configurations: bool,
    /// Whether to run docker cleanup afterwards
    pub docker_cleanup: bool,
    /// For application previews: the PR ID
    pub pull_request_id: Option<i64>,
}

/// Result of resource deletion
#[derive(Debug, Clone)]
pub struct DeleteResourceResult {
    /// Whether deletion was successful
    pub success: bool,
    /// Steps completed during deletion
    pub steps_completed: Vec<String>,
    /// Any warnings that occurred
    pub warnings: Vec<String>,
    /// Error if deletion failed
    pub error: Option<String>,
}

/// A step reported only when `b` holds.
pub open spec fn step_if(b: bool, s: Seq<char>) -> Seq<Seq<char>> {
    if b {
        seq![s]
    } else {
        Seq::<Seq<char>>::empty()
    }
}

/// The steps that deleting a resource of the context's type reports.
pub open spec fn deletion_steps(c: DeleteResourceContext) -> Seq<Seq<char>> {
    match c.resource_type {
        ResourceType::ApplicationPreview => seq![
            "Cancelled active deployments"@,
            "Stopped preview containers"@,
            "Deleted preview record"@,
        ],
        ResourceType::Application => seq!["Stopped containers"@, "Deleted configurations"@]
            + step_if(c.delete_volumes, "Deleted volumes"@) + step_if(
            c.delete_connected_networks,
            "Deleted networks"@,
        ) + seq!["Deleted from database"@],
        ResourceType::Service => seq!["Stopped service containers"@, "Deleted configurations"@]
            + step_if(c.delete_volumes, "Deleted volumes"@) + step_if(
            c.delete_connected_networks,
            "Deleted networks"@,
        ) + seq!["Deleted from database"@],
        _ => seq![
            "Stopped database container"@,
            "Deleted SSL certificates"@,
            "Deleted scheduled backups"@,
            "Deleted configurations"@,
        ] + step_if(c.delete_volumes, "Deleted volumes"@) + seq!["Deleted from database"@],
    }
}

/// Job to delete a resource and clean up its containers/volumes/networks
pub struct DeleteResourceJob;

fn warn_or_step(
    steps: &mut Vec<String>,
    warnings: &mut Vec<String>,
    outcome: Result<(), String>,
    step: &str,
    failure: &str,
)
    ensures
        match outcome {
            Ok(()) => texts(final(steps)@) == texts(old(steps)@).push(step@) && final(warnings)@
                == old(warnings)@,
            Err(e) => final(steps)@ == old(steps)@ && texts(final(warnings)@) == texts(
                old(warnings)@,
            ).push(failure@ + e@),
        },
{
    match outcome {
        Ok(()) => push_word(steps, step),
        Err(e) => {
            let w = crate::kv::concat(failure, e.as_str());
            push_word(warnings, w.as_str());
        },
    }
}

impl DeleteResourceJob {
    pub fn new() -> Self {
        DeleteResourceJob
    }

    /// Stop containers for the resource
    fn stop_containers(&self, ctx: &JobContext<DeleteResourceContext>) -> (r: Result<(), String>)
        ensures
            r is Ok,
    {
        Ok(())
    }

    /// Delete volumes for the resource
    fn delete_volumes(&self, ctx: &JobContext<DeleteResourceContext>) -> (r: Result<(), String>)
        ensures
            r is Ok,
    {
        Ok(())
    }

    /// Delete networks for the resource
    fn delete_networks(&self, ctx: &JobContext<DeleteResourceContext>) -> (r: Result<(), String>)
        ensures
            r is Ok,
    {
        Ok(())
    }

    /// Delete configuration files
    fn delete_configurations(&self, ctx: &JobContext<DeleteResourceContext>) -> (r: Result<
        (),
        String,
    >)
        ensures
            r is Ok,
    {
        Ok(())
    }

    /// Whether a Docker cleanup follows the deletion.
    pub fn triggers_docker_cleanup(&self, ctx: &JobContext<DeleteResourceContext>) -> (b: bool)
        ensures
            b == ctx.payload.docker_cleanup,
    {
        ctx.payload.docker_cleanup
    }

    fn delete_application_preview(&self, ctx: &JobContext<DeleteResourceContext>) -> (r: Result<
        DeleteResourceResult,
        String,
    >)
        requires
            ctx.payload.resource_type is ApplicationPreview,
        ensures
            r matches Ok(res) && res.success && res.error is None && res.warnings@.len() == 0
                && texts(res.steps_completed@) == deletion_steps(ctx.payload),
    {
        let mut steps: Vec<String> = Vec::new();
        let mut warnings: Vec<String> = Vec::new();
        push_word(&mut steps, "Cancelled active deployments");
        warn_or_step(
            &mut steps,
            &mut warnings,
            self.stop_containers(ctx),
            "Stopped preview containers",
            "Failed to stop containers: ",
        );
        push_word(&mut steps, "Deleted preview record");
        assert(texts(steps@) =~= deletion_steps(ctx.payload));
        Ok(DeleteResourceResult { success: true, steps_completed: steps, warnings, error: None })
    }

    fn delete_volumes_and_networks(
        &self,
        ctx: &JobContext<DeleteResourceContext>,
        steps: &mut Vec<String>,
        warnings: &mut Vec<String>,
        networks: bool,
    )
        ensures
            texts(final(steps)@) == texts(old(steps)@) + step_if(
                ctx.payload.delete_volumes,
                "Deleted volumes"@,
            ) + step_if(networks && ctx.payload.delete_connected_networks, "Deleted networks"@),
            final(warnings)@ == old(warnings)@,
    {
        let ghost s0 = texts(steps@);
        match self.delete_volumes(ctx) {
            Err(e) => {},
            Ok(()) => if ctx.payload.delete_volumes {
                push_word(steps, "Deleted volumes");
            },
        }
        let ghost s1 = texts(steps@);
        assert(s1 =~= s0 + step_if(ctx.payload.delete_volumes, "Deleted volumes"@));
        if networks {
            match self.delete_networks(ctx) {
                Err(e) => {},
                Ok(()) => if ctx.payload.delete_connected_networks {
                    push_word(steps, "Deleted networks");
                },
            }
        }
        assert(texts(steps@) =~= s1 + step_if(
            networks && ctx.payload.delete_connected_networks,
            "Deleted networks"@,
        ));
    }

    fn delete_application(&self, ctx: &JobContext<DeleteResourceContext>) -> (r: Result<
        DeleteResourceResult,
        String,
    >)
        requires
            ctx.payload.resource_type is Application,
        ensures
            r matches Ok(res) && res.success && res.error is None && res.warnings@.len() == 0
                && texts(res.steps_completed@) == deletion_steps(ctx.payload),
    {
        let mut steps: Vec<String> = Vec::new();
        let mut warnings: Vec<String> = Vec::new();
        warn_or_step(
            &mut steps,
            &mut warnings,
            self.stop_containers(ctx),
            "Stopped containers",
            "Failed to stop containers: ",
        );
        warn_or_step(
            &mut steps,
            &mut warnings,
            self.delete_configurations(ctx),
            "Deleted configurations",
            "Failed to delete configurations: ",
        );
        self.delete_volumes_and_networks(ctx, &mut steps, &mut warnings, true);
        push_word(&mut steps, "Deleted from database");
        assert(texts(steps@) =~= deletion_steps(ctx.payload));
        Ok(DeleteResourceResult { success: true, steps_completed: steps, warnings, error: None })
    }

    fn delete_database(&self, ctx: &JobContext<DeleteResourceContext>) -> (r: Result<
        DeleteResourceResult,
        String,
    >)
        requires
            is_database_type(ctx.payload.resource_type),
        ensures
            r matches Ok(res) && res.success && res.error is None && res.warnings@.len() == 0
                && texts(res.steps_completed@) == deletion_steps(ctx.payload),
    {
        let mut steps: Vec<String> = Vec::new();
        let mut warnings: Vec<String> = Vec::new();
        warn_or_step(
            &mut steps,
            &mut warnings,
            self.stop_containers(ctx),
            "Stopped database container",
            "Failed to stop containers: ",
        );
        push_word(&mut steps, "Deleted SSL certificates");
        push_word(&mut steps, "Deleted scheduled backups");
        warn_or_step(
            &mut steps,
            &mut warnings,
            self.delete_configurations(ctx),
            "Deleted configurations",
            "Failed to delete configurations: ",
        );
        self.delete_volumes_and_networks(ctx, &mut steps, &mut warnings, false);
        push_word(&mut steps, "Deleted from database");
        assert(texts(steps@) =~= deletion_steps(ctx.payload));
        Ok(DeleteResourceResult { success: true, steps_completed: steps, warnings, error: None })
    }

    fn delete_service(&self, ctx: &JobContext<DeleteResourceContext>) -> (r: Result<
        DeleteResourceResult,
        String,
    >)
        requires
            ctx.payload.resource_type is Service,
        ensures
            r matches Ok(res) && res.success && res.error is None && res.warnings@.len() == 0
                && texts(res.steps_completed@) == deletion_steps(ctx.payload),
    {
        let mut steps: Vec<String> = Vec::new();
        let mut warnings: Vec<String> = Vec::new();
        warn_or_step(
            &mut steps,
            &mut warnings,
            self.stop_containers(ctx),
            "Stopped service containers",
            "Failed to stop containers: ",
        );
        warn_or_step(
            &mut steps,
            &mut warnings,
            self.delete_configurations(ctx),
            "Deleted configurations",
            "Failed to delete configurations: ",
        );
        self.delete_volumes_and_networks(ctx, &mut steps, &mut warnings, true);
        push_word(&mut steps, "Deleted from database");
        assert(texts(steps@) =~= deletion_steps(ctx.payload));
        Ok(DeleteResourceResult { success: true, steps_completed: steps, warnings, error: None })
    }

    /// Deletes a resource by its type; every type is known, so deletion
    /// succeeds with the steps of that type.
    pub fn handle(&self, ctx: JobContext<DeleteResourceContext>) -> (r: JobResult<
        DeleteResourceResult,
    >)
        ensures
            r matches Ok(res) && res.success && res.error is None && res.warnings@.len() == 0
                && texts(res.steps_completed@) == deletion_steps(ctx.payload),
    {
        let result = match ctx.payload.resource_type {
            ResourceType::ApplicationPreview => self.delete_application_preview(&ctx),
            ResourceType::Application => self.delete_application(&ctx),
            ResourceType::Service => self.delete_service(&ctx),
            _ => self.delete_database(&ctx),
        };
        match result {
            Ok(res) => Ok(res),
            Err(e) => Ok(
                DeleteResourceResult {
                    success: false,
                    steps_completed: Vec::new(),
                    warnings: Vec::new(),
                    error: Some(e),
                },
            ),
        }
    }
}

impl Job for DeleteResourceJob {
    fn name(&self) -> (r: &'static str)
        ensures
            r@ == "delete_resource"@,
    {
        "delete_resource"
    }

    fn queue(&self) -> (r: &'static str)
        ensures
            r@ == "high"@,
    {
        "high"
    }

    fn timeout_seconds(&self) -> (r: u64)
        ensures
            r == 300,
    {
        300
    }
}

} // verus!
