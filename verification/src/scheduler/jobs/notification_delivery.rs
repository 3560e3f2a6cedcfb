//! Notification Delivery Jobs
//!
//! The messages sent through the various channels, and the standard
//! notification events.

use vstd::prelude::*;
use crate::ids::now_seconds;
use crate::scheduler::jobs::JobContext;
use crate::text::owned;

verus! {

/// Discord notification payload
#[derive(Debug, Clone)]
pub struct DiscordNotificationPayload {
    pub webhook_url: String,
    pub title: String,
    pub message: String,
    pub color: Option<u32>,
    pub fields: Vec<DiscordField>,
    pub timestamp: Option<String>,
}

#[derive(Debug, Clone)]
pub struct DiscordField {
    pub name: String,
    pub value: String,
    pub inline: bool,
}

/// The body posted to a Discord webhook.
#[derive(Debug, Clone)]
pub struct DiscordWebhookBody {
    pub embeds: Vec<DiscordEmbed>,
    pub username: Option<String>,
}

#[derive(Debug, Clone)]
pub struct DiscordEmbed {
    pub title: Option<String>,
    pub description: Option<String>,
    pub color: Option<u32>,
    pub fields: Vec<DiscordEmbedField>,
    pub timestamp: Option<String>,
    pub footer: Option<DiscordFooter>,
}

#[derive(Debug, Clone)]
pub struct DiscordEmbedField {
    pub name: String,
    pub value: String,
    pub inline: Option<bool>,
}

#[derive(Debug, Clone)]
pub struct DiscordFooter {
    pub text: String,
    pub icon_url: Option<String>,
}

fn copy_text(s: &Option<String>) -> (r: Option<String>)
    ensures
        match *s {
            Some(t) => r matches Some(u) && u@ == t@,
            None => r is None,
        },
{
    match s {
        Some(t) => Some(t.clone()),
        None => None,
    }
}

/// Send Discord notification job
pub struct SendDiscordNotificationJob;

impl SendDiscordNotificationJob {
    pub fn name(&self) -> (r: &'static str)
        ensures
            r@ == "send_discord_notification"@,
    {
        "send_discord_notification"
    }

    /// The webhook body: one embed with the payload's title, message,
    /// color, fields and timestamp and a `Kornetti` footer, sent as user
    /// `Kornetti`.
    pub fn webhook_body(payload: &DiscordNotificationPayload) -> (r: DiscordWebhookBody)
        ensures
            r.embeds@.len() == 1,
            r.username matches Some(u) && u@ == "Kornetti"@,
            r.embeds@[0].title matches Some(t) && t@ == payload.title@,
            r.embeds@[0].description matches Some(d) && d@ == payload.message@,
            r.embeds@[0].color == payload.color,
            r.embeds@[0].fields@.len() == payload.fields@.len(),
            forall|i: int|
                0 <= i < payload.fields@.len() ==> (#[trigger] r.embeds@[0].fields@[i]).name@
                    == payload.fields@[i].name@ && r.embeds@[0].fields@[i].value@
                    == payload.fields@[i].value@ && r.embeds@[0].fields@[i].inline == Some(
                    payload.fields@[i].inline,
                ),
            match payload.timestamp {
                Some(t) => r.embeds@[0].timestamp matches Some(u) && u@ == t@,
                None => r.embeds@[0].timestamp is None,
            },
            r.embeds@[0].footer matches Some(f) && f.text@ == "Kornetti"@ && f.icon_url is None,
    {
        let mut fields: Vec<DiscordEmbedField> = Vec::new();
        let mut i: usize = 0;
        while i < payload.fields.len()
            invariant
                i <= payload.fields@.len(),
                fields@.len() == i,
                forall|j: int|
                    0 <= j < i ==> (#[trigger] fields@[j]).name@ == payload.fields@[j].name@
                        && fields@[j].value@ == payload.fields@[j].value@ && fields@[j].inline
                        == Some(payload.fields@[j].inline),
            decreases payload.fields@.len() - i,
        {
            let f = &payload.fields[i];
            fields.push(
                DiscordEmbedField {
                    name: f.name.clone(),
                    value: f.value.clone(),
                    inline: Some(f.inline),
                },
            );
            i = i + 1;
        }
        let embed = DiscordEmbed {
            title: Some(payload.title.clone()),
            description: Some(payload.message.clone()),
            color: payload.color,
            fields,
            timestamp: copy_text(&payload.timestamp),
            footer: Some(DiscordFooter { text: owned("Kornetti"), icon_url: None }),
        };
        let mut embeds: Vec<DiscordEmbed> = Vec::new();
        embeds.push(embed);
        DiscordWebhookBody { embeds, username: Some(owned("Kornetti")) }
    }

    /// Builds the webhook body; sending it is left to the caller.
    pub fn handle(&self, ctx: JobContext<DiscordNotificationPayload>) -> (r: Result<(), String>)
        ensures
            r is Ok,
    {
        let _body = Self::webhook_body(&ctx.payload);
        Ok(())
    }
}

/// Slack notification payload
#[derive(Debug, Clone)]
pub struct SlackNotificationPayload {
    pub webhook_url: String,
    pub channel: Option<String>,
    pub title: String,
    pub message: String,
    pub color: Option<String>,
    pub fields: Vec<SlackField>,
}

#[derive(Debug, Clone)]
pub struct SlackField {
    pub title: String,
    pub value: String,
    pub short: bool,
}

/// The body posted to a Slack webhook.
#[derive(Debug, Clone)]
pub struct SlackWebhookBody {
    pub channel: Option<String>,
    pub attachments: Vec<SlackAttachment>,
}

#[derive(Debug, Clone)]
pub struct SlackAttachment {
    pub fallback: String,
    pub color: String,
    pub title: Option<String>,
    pub text: Option<String>,
    pub fields: Vec<SlackAttachmentField>,
    pub footer: Option<String>,
    pub ts: Option<i64>,
}

#[derive(Debug, Clone)]
pub struct SlackAttachmentField {
    pub title: String,
    pub value: String,
    pub short: bool,
}

/// Send Slack notification job
pub struct SendSlackNotificationJob;

impl SendSlackNotificationJob {
    pub fn name(&self) -> (r: &'static str)
        ensures
            r@ == "send_slack_notification"@,
    {
        "send_slack_notification"
    }

    /// The webhook body: one attachment with the message (also as
    /// fallback), the payload's color or `#36a64f`, the title, fields, a
    /// `Kornetti` footer and the current time.
    pub fn webhook_body(payload: &SlackNotificationPayload) -> (r: SlackWebhookBody)
        ensures
            match payload.channel {
                Some(c) => r.channel matches Some(d) && d@ == c@,
                None => r.channel is None,
            },
            r.attachments@.len() == 1,
            r.attachments@[0].fallback@ == payload.message@,
            r.attachments@[0].color@ == match payload.color {
                Some(c) => c@,
                None => "#36a64f"@,
            },
            r.attachments@[0].title matches Some(t) && t@ == payload.title@,
            r.attachments@[0].text matches Some(t) && t@ == payload.message@,
            r.attachments@[0].fields@.len() == payload.fields@.len(),
            forall|i: int|
                0 <= i < payload.fields@.len() ==> (#[trigger] r.attachments@[0].fields@[i]).title@
                    == payload.fields@[i].title@ && r.attachments@[0].fields@[i].value@
                    == payload.fields@[i].value@ && r.attachments@[0].fields@[i].short
                    == payload.fields@[i].short,
            r.attachments@[0].footer matches Some(f) && f@ == "Kornetti"@,
            r.attachments@[0].ts is Some,
    {
        let mut fields: Vec<SlackAttachmentField> = Vec::new();
        let mut i: usize = 0;
        while i < payload.fields.len()
            invariant
                i <= payload.fields@.len(),
                fields@.len() == i,
                forall|j: int|
                    0 <= j < i ==> (#[trigger] fields@[j]).title@ == payload.fields@[j].title@
                        && fields@[j].value@ == payload.fields@[j].value@ && fields@[j].short
                        == payload.fields@[j].short,
            decreases payload.fields@.len() - i,
        {
            let f = &payload.fields[i];
            fields.push(
                SlackAttachmentField { title: f.title.clone(), value: f.value.clone(), short: f.short },
            );
            i = i + 1;
        }
        let color = match &payload.color {
            Some(c) => c.clone(),
            None => owned("#36a64f"),
        };
        let attachment = SlackAttachment {
            fallback: payload.message.clone(),
            color,
            title: Some(payload.title.clone()),
            text: Some(payload.message.clone()),
            fields,
            footer: Some(owned("Kornetti")),
            ts: Some(now_seconds()),
        };
        let mut attachments: Vec<SlackAttachment> = Vec::new();
        attachments.push(attachment);
        SlackWebhookBody { channel: copy_text(&payload.channel), attachments }
    }

    /// Builds the webhook body; sending it is left to the caller.
    pub fn handle(&self, ctx: JobContext<SlackNotificationPayload>) -> (r: Result<(), String>)
        ensures
            r is Ok,
    {
        let _body = Self::webhook_body(&ctx.payload);
        Ok(())
    }
}

/// Telegram notification payload
#[derive(Debug, Clone)]
pub struct TelegramNotificationPayload {
    pub bot_token: String,
    pub chat_id: String,
    pub message: String,
    pub parse_mode: Option<String>,
    pub disable_notification: bool,
}

/// The message posted to Telegram's `sendMessage`.
#[derive(Debug, Clone)]
pub struct TelegramSendMessage {
    pub chat_id: String,
    pub text: String,
    pub parse_mode: Option<String>,
    pub disable_notification: Option<bool>,
}

/// Send Telegram notification job
pub struct SendTelegramNotificationJob;

impl SendTelegramNotificationJob {
    pub fn name(&self) -> (r: &'static str)
        ensures
            r@ == "send_telegram_notification"@,
    {
        "send_telegram_notification"
    }

    /// The bot's `sendMessage` endpoint.
    pub fn send_url(payload: &TelegramNotificationPayload) -> (r: String)
        ensures
            r@ == "https://api.telegram.org/bot"@ + payload.bot_token@ + "/sendMessage"@,
    {
        let mut r = owned("https://api.telegram.org/bot");
        r.append(payload.bot_token.as_str());
        r.append("/sendMessage");
        r
    }

    /// The message to post.
    pub fn message_body(payload: &TelegramNotificationPayload) -> (r: TelegramSendMessage)
        ensures
            r.chat_id@ == payload.chat_id@,
            r.text@ == payload.message@,
            match payload.parse_mode {
                Some(p) => r.parse_mode matches Some(q) && q@ == p@,
                None => r.parse_mode is None,
            },
            r.disable_notification == Some(payload.disable_notification),
    {
        TelegramSendMessage {
            chat_id: payload.chat_id.clone(),
            text: payload.message.clone(),
            parse_mode: copy_text(&payload.parse_mode),
            disable_notification: Some(payload.disable_notification),
        }
    }

    /// Builds the request; sending it is left to the caller.
    pub fn handle(&self, ctx: JobContext<TelegramNotificationPayload>) -> (r: Result<(), String>)
        ensures
            r is Ok,
    {
        let _url = Self::send_url(&ctx.payload);
        let _body = Self::message_body(&ctx.payload);
        Ok(())
    }
}

/// Pushover notification payload
#[derive(Debug, Clone)]
pub struct PushoverNotificationPayload {
    pub api_token: String,
    pub user_key: String,
    pub title: String,
    pub message: String,
    pub priority: Option<i8>,
    pub sound: Option<String>,
    pub url: Option<String>,
    pub url_title: Option<String>,
}

/// The form posted to Pushover.
#[derive(Debug, Clone)]
pub struct PushoverMessage {
    pub token: String,
    pub user: String,
    pub title: Option<String>,
    pub message: String,
    pub priority: Option<i8>,
    pub sound: Option<String>,
    pub url: Option<String>,
    pub url_title: Option<String>,
}

/// Send Pushover notification job
pub struct SendPushoverNotificationJob;

impl SendPushoverNotificationJob {
    pub fn name(&self) -> (r: &'static str)
        ensures
            r@ == "send_pushover_notification"@,
    {
        "send_pushover_notification"
    }

    /// The message to post: the payload's fields under Pushover's names.
    pub fn message_body(payload: &PushoverNotificationPayload) -> (r: PushoverMessage)
        ensures
            r.token@ == payload.api_token@,
            r.user@ == payload.user_key@,
            r.title matches Some(t) && t@ == payload.title@,
            r.message@ == payload.message@,
            r.priority == payload.priority,
            r.sound is Some <==> payload.sound is Some,
            r.url is Some <==> payload.url is Some,
            r.url_title is Some <==> payload.url_title is Some,
    {
        PushoverMessage {
            token: payload.api_token.clone(),
            user: payload.user_key.clone(),
            title: Some(payload.title.clone()),
            message: payload.message.clone(),
            priority: payload.priority,
            sound: copy_text(&payload.sound),
            url: copy_text(&payload.url),
            url_title: copy_text(&payload.url_title),
        }
    }

    /// Builds the message; sending it is left to the caller.
    pub fn handle(&self, ctx: JobContext<PushoverNotificationPayload>) -> (r: Result<(), String>)
        ensures
            r is Ok,
    {
        let _body = Self::message_body(&ctx.payload);
        Ok(())
    }
}

/// Generic webhook notification payload
#[derive(Debug)]
pub struct WebhookNotificationPayload {
    pub url: String,
    pub method: WebhookMethod,
    pub headers: Vec<(String, String)>,
    pub body: serde_json::Value,
    pub timeout_seconds: Option<u64>,
    pub retry_count: Option<u32>,
}

#[derive(Debug, Clone, Copy, PartialEq, Eq, Structural)]
pub enum WebhookMethod {
    Get,
    Post,
    Put,
    Patch,
}

impl WebhookMethod {
    /// The method's name on the wire.
    pub fn as_str(&self) -> (r: &'static str)
        ensures
            r@ == match *self {
                WebhookMethod::Get => "GET"@,
                WebhookMethod::Post => "POST"@,
                WebhookMethod::Put => "PUT"@,
                WebhookMethod::Patch => "PATCH"@,
            },
    {
        match self {
            WebhookMethod::Get => "GET",
            WebhookMethod::Post => "POST",
            WebhookMethod::Put => "PUT",
            WebhookMethod::Patch => "PATCH",
        }
    }
}

/// Send generic webhook notification job
pub struct SendWebhookNotificationJob;

impl SendWebhookNotificationJob {
    pub fn name(&self) -> (r: &'static str)
        ensures
            r@ == "send_webhook_notification"@,
    {
        "send_webhook_notification"
    }

    /// Nothing is sent yet.
    pub fn handle(&self, ctx: JobContext<WebhookNotificationPayload>) -> (r: Result<(), String>)
        ensures
            r is Ok,
    {
        Ok(())
    }
}

/// Email notification payload
#[derive(Debug, Clone)]
pub struct EmailNotificationPayload {
    pub smtp_host: String,
    pub smtp_port: u16,
    pub smtp_username: Option<String>,
    pub smtp_password: Option<String>,
    pub smtp_tls: bool,
    pub from_email: String,
    pub from_name: Option<String>,
    pub to_emails: Vec<String>,
    pub subject: String,
    pub body_html: Option<String>,
    pub body_text: String,
}

/// Send email notification job
pub struct SendEmailNotificationJob;

impl SendEmailNotificationJob {
    pub fn name(&self) -> (r: &'static str)
        ensures
            r@ == "send_email_notification"@,
    {
        "send_email_notification"
    }

    /// Nothing is sent yet.
    pub fn handle(&self, ctx: JobContext<EmailNotificationPayload>) -> (r: Result<(), String>)
        ensures
            r is Ok,
    {
        Ok(())
    }
}

/// Standard notification event types
#[derive(Debug, Clone, Copy, PartialEq, Eq, Structural)]
pub enum NotificationEventType {
    DeploymentSuccess,
    DeploymentFailed,
    DeploymentStarted,
    BackupSuccess,
    BackupFailed,
    ServerDown,
    ServerUp,
    ServerDiskFull,
    ScheduledTaskSuccess,
    ScheduledTaskFailed,
    SslCertificateExpiring,
    ContainerCrashed,
    ContainerRestarted,
    Test,
}

/// The snake-case name of an event type.
pub open spec fn event_name(e: NotificationEventType) -> Seq<char> {
    match e {
        NotificationEventType::DeploymentSuccess => "deployment_success"@,
        NotificationEventType::DeploymentFailed => "deployment_failed"@,
        NotificationEventType::DeploymentStarted => "deployment_started"@,
        NotificationEventType::BackupSuccess => "backup_success"@,
        NotificationEventType::BackupFailed => "backup_failed"@,
        NotificationEventType::ServerDown => "server_down"@,
        NotificationEventType::ServerUp => "server_up"@,
        NotificationEventType::ServerDiskFull => "server_disk_full"@,
        NotificationEventType::ScheduledTaskSuccess => "scheduled_task_success"@,
        NotificationEventType::ScheduledTaskFailed => "scheduled_task_failed"@,
        NotificationEventType::SslCertificateExpiring => "ssl_certificate_expiring"@,
        NotificationEventType::ContainerCrashed => "container_crashed"@,
        NotificationEventType::ContainerRestarted => "container_restarted"@,
        NotificationEventType::Test => "test"@,
    }
}

/// Successes are green, failures red, starts and restarts blue, warnings
/// orange and tests purple.
pub open spec fn event_color(e: NotificationEventType) -> u32 {
    match e {
        NotificationEventType::DeploymentSuccess | NotificationEventType::BackupSuccess
        | NotificationEventType::ServerUp | NotificationEventType::ScheduledTaskSuccess => 0x2ECC71,
        NotificationEventType::DeploymentFailed | NotificationEventType::BackupFailed
        | NotificationEventType::ServerDown | NotificationEventType::ScheduledTaskFailed
        | NotificationEventType::ContainerCrashed => 0xE74C3C,
        NotificationEventType::DeploymentStarted | NotificationEventType::ContainerRestarted => 0x3498DB,
        NotificationEventType::ServerDiskFull | NotificationEventType::SslCertificateExpiring => 0xF39C12,
        NotificationEventType::Test => 0x9B59B6,
    }
}

/// The title shown for an event type.
pub open spec fn event_title(e: NotificationEventType) -> Seq<char> {
    match e {
        NotificationEventType::DeploymentSuccess => "✅ Deployment Successful"@,
        NotificationEventType::DeploymentFailed => "❌ Deployment Failed"@,
        NotificationEventType::DeploymentStarted => "🚀 Deployment Started"@,
        NotificationEventType::BackupSuccess => "✅ Backup Completed"@,
        NotificationEventType::BackupFailed => "❌ Backup Failed"@,
        NotificationEventType::ServerDown => "🔴 Server Down"@,
        NotificationEventType::ServerUp => "🟢 Server Up"@,
        NotificationEventType::ServerDiskFull => "⚠️ Server Disk Full"@,
        NotificationEventType::ScheduledTaskSuccess => "✅ Scheduled Task Completed"@,
        NotificationEventType::ScheduledTaskFailed => "❌ Scheduled Task Failed"@,
        NotificationEventType::SslCertificateExpiring => "⚠️ SSL Certificate Expiring"@,
        NotificationEventType::ContainerCrashed => "💥 Container Crashed"@,
        NotificationEventType::ContainerRestarted => "🔄 Container Restarted"@,
        NotificationEventType::Test => "🧪 Test Notification"@,
    }
}

impl NotificationEventType {
    pub fn as_str(&self) -> (r: &'static str)
        ensures
            r@ == event_name(*self),
    {
        match self {
            NotificationEventType::DeploymentSuccess => "deployment_success",
            NotificationEventType::DeploymentFailed => "deployment_failed",
            NotificationEventType::DeploymentStarted => "deployment_started",
            NotificationEventType::BackupSuccess => "backup_success",
            NotificationEventType::BackupFailed => "backup_failed",
            NotificationEventType::ServerDown => "server_down",
            NotificationEventType::ServerUp => "server_up",
            NotificationEventType::ServerDiskFull => "server_disk_full",
            NotificationEventType::ScheduledTaskSuccess => "scheduled_task_success",
            NotificationEventType::ScheduledTaskFailed => "scheduled_task_failed",
            NotificationEventType::SslCertificateExpiring => "ssl_certificate_expiring",
            NotificationEventType::ContainerCrashed => "container_crashed",
            NotificationEventType::ContainerRestarted => "container_restarted",
            NotificationEventType::Test => "test",
        }
    }

    pub fn default_color(&self) -> (c: u32)
        ensures
            c == event_color(*self),
    {
        match self {
            NotificationEventType::DeploymentSuccess | NotificationEventType::BackupSuccess
            | NotificationEventType::ServerUp | NotificationEventType::ScheduledTaskSuccess => 0x2ECC71,
            NotificationEventType::DeploymentFailed | NotificationEventType::BackupFailed
            | NotificationEventType::ServerDown | NotificationEventType::ScheduledTaskFailed
            | NotificationEventType::ContainerCrashed => 0xE74C3C,
            NotificationEventType::DeploymentStarted | NotificationEventType::ContainerRestarted => 0x3498DB,
            NotificationEventType::ServerDiskFull | NotificationEventType::SslCertificateExpiring => 0xF39C12,
            NotificationEventType::Test => 0x9B59B6,
        }
    }

    pub fn default_title(&self) -> (r: &'static str)
        ensures
            r@ == event_title(*self),
    {
        match self {
            NotificationEventType::DeploymentSuccess => "✅ Deployment Successful",
            NotificationEventType::DeploymentFailed => "❌ Deployment Failed",
            NotificationEventType::DeploymentStarted => "🚀 Deployment Started",
            NotificationEventType::BackupSuccess => "✅ Backup Completed",
            NotificationEventType::BackupFailed => "❌ Backup Failed",
            NotificationEventType::ServerDown => "🔴 Server Down",
            NotificationEventType::ServerUp => "🟢 Server Up",
            NotificationEventType::ServerDiskFull => "⚠️ Server Disk Full",
            NotificationEventType::ScheduledTaskSuccess => "✅ Scheduled Task Completed",
            NotificationEventType::ScheduledTaskFailed => "❌ Scheduled Task Failed",
            NotificationEventType::SslCertificateExpiring => "⚠️ SSL Certificate Expiring",
            NotificationEventType::ContainerCrashed => "💥 Container Crashed",
            NotificationEventType::ContainerRestarted => "🔄 Container Restarted",
            NotificationEventType::Test => "🧪 Test Notification",
        }
    }
}

/// Unified notification dispatch payload
#[derive(Debug)]
pub struct DispatchNotificationPayload {
    pub team_id: u128,
    pub event_type: NotificationEventType,
    pub title: Option<String>,
    pub message: String,
    pub resource_type: Option<String>,
    pub resource_name: Option<String>,
    pub resource_uuid: Option<String>,
    pub extra_data: Option<serde_json::Value>,
}

/// Dispatch notification to all configured channels
pub struct DispatchNotificationJob;

impl DispatchNotificationJob {
    pub fn name(&self) -> (r: &'static str)
        ensures
            r@ == "dispatch_notification"@,
    {
        "dispatch_notification"
    }

    /// Nothing is dispatched yet.
    pub fn handle(&self, ctx: JobContext<DispatchNotificationPayload>) -> (r: Result<(), String>)
        ensures
            r is Ok,
    {
        Ok(())
    }
}

} // verus!
