//! The platform's shared records: errors, servers, databases, storage,
//! notification settings and cloud-provider descriptions.

use vstd::prelude::*;

verus! {

/// Errors reported across the platform.
#[derive(Debug, Clone, PartialEq, Eq)]
pub enum Error {
    Validation(String),
    Internal(String),
    Provider(String),
    Config(String),
    Docker(String),
    Ssh(String),
    Deployment(String),
    Database(String),
    NotFound(String),
}

/// A managed server.
#[derive(Debug, Clone)]
pub struct Server {
    pub id: u128,
    pub name: String,
    pub ip: String,
    pub port: u16,
    pub user: String,
    pub private_key_id: Option<u128>,
}

/// The health status recorded for a server.
#[derive(Debug, Clone, Copy, PartialEq, Eq, Structural)]
pub enum ServerStatus {
    Running,
    Warning,
    Error,
    Unreachable,
}

/// Database engines.
#[derive(Debug, Clone, Copy, PartialEq, Eq, Structural)]
pub enum DatabaseType {
    Postgresql,
    Mysql,
    Mariadb,
    Mongodb,
    Redis,
    Keydb,
    Dragonfly,
    Clickhouse,
}

/// The run state of a database.
#[derive(Debug, Clone, Copy, PartialEq, Eq, Structural)]
pub enum DatabaseStatus {
    Running,
    Starting,
    Stopped,
    Exited,
}

/// Credentials of a database.
#[derive(Debug, Clone)]
pub struct DatabaseConfig {
    pub database_user: String,
    pub database_password: String,
}

/// A database running in its own container.
#[derive(Debug, Clone)]
pub struct StandaloneDatabase {
    pub id: u128,
    pub server_id: u128,
    pub database_type: DatabaseType,
    pub status: DatabaseStatus,
    pub config: DatabaseConfig,
}

/// An S3-compatible storage target.
#[derive(Debug, Clone)]
pub struct S3Storage {
    pub access_key: String,
    pub secret_key: String,
    pub bucket: String,
    pub region: String,
    pub endpoint: String,
    pub use_path_style: bool,
}

impl S3Storage {
    /// The endpoint URL of the storage.
    pub fn endpoint_url(&self) -> (r: String)
        ensures
            r@ == self.endpoint@,
    {
        self.endpoint.clone()
    }
}

/// Severity of a notification.
#[derive(Debug, Clone, Copy, PartialEq, Eq, Structural)]
pub enum NotificationLevel {
    Success,
    Info,
    Warning,
    Error,
}

/// Kinds of notification.
#[derive(Debug, Clone, Copy, PartialEq, Eq, Structural)]
pub enum NotificationType {
    Deployment,
    DeploymentFailed,
    StatusChange,
    Backup,
    BackupFailed,
    ScheduledTask,
    ScheduledTaskFailed,
    DiskUsage,
    Test,
}

/// A notification to deliver.
#[derive(Debug, Clone)]
pub struct NotificationMessage {
    pub title: String,
    pub message: String,
    pub url: Option<String>,
    pub level: NotificationLevel,
    pub notification_type: NotificationType,
}

/// Which kinds of notification a channel delivers.
#[derive(Debug, Clone, Copy, PartialEq, Eq, Structural)]
pub struct NotificationToggles {
    pub notify_deployments: bool,
    pub notify_deployments_failed: bool,
    pub notify_status_changes: bool,
    pub notify_backups: bool,
    pub notify_backups_failed: bool,
    pub notify_scheduled_tasks: bool,
    pub notify_scheduled_tasks_failed: bool,
    pub notify_disk_usage: bool,
    pub notify_test: bool,
}

/// Whether the toggles let a kind of notification through.
pub open spec fn toggle_for(t: NotificationToggles, kind: NotificationType) -> bool {
    match kind {
        NotificationType::Deployment => t.notify_deployments,
        NotificationType::DeploymentFailed => t.notify_deployments_failed,
        NotificationType::StatusChange => t.notify_status_changes,
        NotificationType::Backup => t.notify_backups,
        NotificationType::BackupFailed => t.notify_backups_failed,
        NotificationType::ScheduledTask => t.notify_scheduled_tasks,
        NotificationType::ScheduledTaskFailed => t.notify_scheduled_tasks_failed,
        NotificationType::DiskUsage => t.notify_disk_usage,
        NotificationType::Test => t.notify_test,
    }
}

impl NotificationToggles {
    /// Whether a kind of notification is delivered.
    pub fn allows(&self, kind: NotificationType) -> (b: bool)
        ensures
            b == toggle_for(*self, kind),
    {
        match kind {
            NotificationType::Deployment => self.notify_deployments,
            NotificationType::DeploymentFailed => self.notify_deployments_failed,
            NotificationType::StatusChange => self.notify_status_changes,
            NotificationType::Backup => self.notify_backups,
            NotificationType::BackupFailed => self.notify_backups_failed,
            NotificationType::ScheduledTask => self.notify_scheduled_tasks,
            NotificationType::ScheduledTaskFailed => self.notify_scheduled_tasks_failed,
            NotificationType::DiskUsage => self.notify_disk_usage,
            NotificationType::Test => self.notify_test,
        }
    }
}

/// Discord channel settings.
#[derive(Debug, Clone)]
pub struct DiscordNotificationSettings {
    pub enabled: bool,
    pub webhook_url: Option<String>,
    pub toggles: NotificationToggles,
}

/// Telegram channel settings.
#[derive(Debug, Clone)]
pub struct TelegramNotificationSettings {
    pub enabled: bool,
    pub bot_token: Option<String>,
    pub chat_id: Option<String>,
    pub toggles: NotificationToggles,
}

/// Slack channel settings.
#[derive(Debug, Clone)]
pub struct SlackNotificationSettings {
    pub enabled: bool,
    pub webhook_url: Option<String>,
    pub toggles: NotificationToggles,
}

/// E-mail channel settings.
#[derive(Debug, Clone)]
pub struct EmailNotificationSettings {
    pub enabled: bool,
    pub smtp_host: Option<String>,
    pub from_address: Option<String>,
    pub toggles: NotificationToggles,
}

/// Reverse proxies a server can run.
#[derive(Debug, Clone, Copy, PartialEq, Eq, Structural)]
pub enum ProxyType {
    Traefik,
    Caddy,
    /// No proxy (`ProxyType::None` in the wire format)
    Disabled,
}

/// Cloud providers.
#[derive(Debug, Clone, Copy, PartialEq, Eq, Structural)]
pub enum CloudProvider {
    Vultr,
    Hetzner,
    DigitalOcean,
    Aws,
    Linode,
    Gcp,
    Azure,
    Custom,
}

/// The state of a server at a cloud provider.
#[derive(Debug, Clone, Copy, PartialEq, Eq, Structural)]
pub enum ProvisionedServerStatus {
    Running,
    Pending,
    Stopped,
    Error,
}

/// A server created at a cloud provider.
#[derive(Debug, Clone)]
pub struct ProvisionedServer {
    pub provider_id: String,
    pub name: String,
    pub ip_address: Option<String>,
    pub ipv6_address: Option<String>,
    pub status: ProvisionedServerStatus,
    pub region: String,
    pub size: String,
}

/// An operating-system image offered by a provider.
#[derive(Debug, Clone)]
pub struct OsImage {
    pub id: String,
    pub name: String,
    pub distribution: String,
    pub version: String,
}

/// A provider region.
#[derive(Debug, Clone)]
pub struct Region {
    pub id: String,
    pub name: String,
    pub country: Option<String>,
    pub available: bool,
}

/// What to create at a provider.
#[derive(Debug, Clone)]
pub struct CreateServerConfig {
    pub name: String,
    pub region: String,
    pub size: String,
    pub image: String,
    pub ssh_key_ids: Vec<String>,
    pub user_data: Option<String>,
    pub tags: Vec<String>,
}

/// Vultr credentials.
#[derive(Debug, Clone)]
pub struct VultrConfig {
    pub api_key: String,
}

/// Hetzner credentials.
#[derive(Debug, Clone)]
pub struct HetznerConfig {
    pub api_token: String,
}

/// DigitalOcean credentials.
#[derive(Debug, Clone)]
pub struct DigitalOceanConfig {
    pub api_token: String,
}

/// AWS credentials.
#[derive(Debug, Clone)]
pub struct AwsConfig {
    pub access_key_id: String,
    pub secret_access_key: String,
    pub region: String,
}

/// Linode credentials.
#[derive(Debug, Clone)]
pub struct LinodeConfig {
    pub api_token: String,
}

/// The configured cloud providers.
#[derive(Debug, Clone)]
pub struct ProvidersConfig {
    pub vultr: Option<VultrConfig>,
    pub hetzner: Option<HetznerConfig>,
    pub digitalocean: Option<DigitalOceanConfig>,
    pub aws: Option<AwsConfig>,
    pub linode: Option<LinodeConfig>,
}

/// An environment variable of an application.
#[derive(Debug, Clone)]
pub struct EnvironmentVariable {
    pub key: String,
    pub value: String,
}

/// An application deployed from a Git repository.
#[derive(Debug, Clone)]
pub struct Application {
    pub id: u128,
    pub name: String,
    pub git_repository: String,
    pub git_branch: Option<String>,
    pub fqdn: Option<String>,
    pub ports: Vec<u16>,
    pub environment_variables: Vec<EnvironmentVariable>,
    pub health_check_path: Option<String>,
}

/// How a deployment was started.
#[derive(Debug, Clone, Copy, PartialEq, Eq, Structural)]
pub enum DeploymentType {
    Manual,
    Webhook,
    PullRequest,
    Rollback,
}

} // verus!
