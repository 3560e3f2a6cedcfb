//! Notification Jobs
//!
//! Decide what to send to Discord, Telegram and Slack for a notification,
//! and what the channel's reply means. The HTTP exchange itself is done by
//! the caller.

use vstd::prelude::*;
use crate::ids::{now_rfc3339, now_seconds};
use crate::platform::{
    DiscordNotificationSettings, Error, NotificationLevel, NotificationMessage,
    NotificationToggles, SlackNotificationSettings, TelegramNotificationSettings, toggle_for,
};
use crate::text::{chars_of, owned, push_char};

verus! {

/// The characters that Telegram's MarkdownV2 requires escaped.
pub open spec fn is_markdown_special(c: char) -> bool {
    "_*[]()~`>#+-=|{}.!"@.contains(c)
}

/// `s` with a backslash before every special character.
pub open spec fn escape_md(s: Seq<char>) -> Seq<char>
    decreases s.len(),
{
    if s.len() == 0 {
        seq![]
    } else {
        escape_md(s.drop_last()) + if is_markdown_special(s.last()) {
            seq!['\\', s.last()]
        } else {
            seq![s.last()]
        }
    }
}

/// Escape special characters for Telegram MarkdownV2
pub fn escape_markdown(text: &str) -> (r: String)
    ensures
        r@ == escape_md(text@),
{
    let v = chars_of(text);
    let special = chars_of("_*[]()~`>#+-=|{}.!");
    let mut r = String::new();
    let mut i: usize = 0;
    while i < v.len()
        invariant
            i <= v.len(),
            v@ == text@,
            special@ == "_*[]()~`>#+-=|{}.!"@,
            r@ == escape_md(v@.take(i as int)),
        decreases v.len() - i,
    {
        let c = v[i];
        assert(v@.take(i + 1).drop_last() =~= v@.take(i as int));
        assert(v@.take(i + 1).last() == c);
        if crate::text::has_char_exec(&special, c) {
            push_char(&mut r, '\\');
            push_char(&mut r, c);
        } else {
            push_char(&mut r, c);
        }
        i = i + 1;
    }
    assert(v@.take(v@.len() as int) =~= v@);
    r
}

/// The embed color for a level.
pub open spec fn discord_color(level: NotificationLevel) -> u32 {
    match level {
        NotificationLevel::Success => 0x00FF00,
        NotificationLevel::Info => 0x0099FF,
        NotificationLevel::Warning => 0xFFAA00,
        NotificationLevel::Error => 0xFF0000,
    }
}

/// The emoji that starts a Telegram message of a level.
pub open spec fn telegram_emoji(level: NotificationLevel) -> Seq<char> {
    match level {
        NotificationLevel::Success => "✅"@,
        NotificationLevel::Info => "ℹ️"@,
        NotificationLevel::Warning => "⚠️"@,
        NotificationLevel::Error => "❌"@,
    }
}

/// The attachment color for a level.
pub open spec fn slack_color(level: NotificationLevel) -> Seq<char> {
    match level {
        NotificationLevel::Success => "good"@,
        NotificationLevel::Info => "#0099FF"@,
        NotificationLevel::Warning => "warning"@,
        NotificationLevel::Error => "danger"@,
    }
}

/// What a channel's reply means: a request that could not be sent, or a
/// status outside 2xx, is an internal error naming the channel.
pub open spec fn reply_error(
    service: Seq<char>,
    reply: Result<(u16, Seq<char>, Seq<char>), Seq<char>>,
) -> Option<Seq<char>> {
    match reply {
        Err(e) => Some(service + " request failed: "@ + e),
        Ok((code, status, body)) => if 200 <= code <= 299 {
            None
        } else {
            Some(service + " API error: "@ + status + " - "@ + body)
        },
    }
}

/// The views of a channel reply: status code, status text and body, or the
/// error that kept the request from being sent.
pub open spec fn reply_view(reply: Result<(u16, String, String), String>) -> Result<
    (u16, Seq<char>, Seq<char>),
    Seq<char>,
> {
    match reply {
        Ok((c, s, b)) => Ok((c, s@, b@)),
        Err(e) => Err(e@),
    }
}

/// Outcome of delivering to a channel, from its reply.
pub fn reply_result(service: &str, reply: Result<(u16, String, String), String>) -> (r: Result<
    (),
    Error,
>)
    ensures
        match reply_error(service@, reply_view(reply)) {
            Some(m) => r matches Err(Error::Internal(e)) && e@ == m,
            None => r is Ok,
        },
{
    match reply {
        Err(e) => {
            let mut m = owned(service);
            m.append(" request failed: ");
            m.append(e.as_str());
            Err(Error::Internal(m))
        },
        Ok((code, status, body)) => if 200 <= code && code <= 299 {
            Ok(())
        } else {
            let mut m = owned(service);
            m.append(" API error: ");
            m.append(status.as_str());
            m.append(" - ");
            m.append(body.as_str());
            Err(Error::Internal(m))
        },
    }
}

/// The Discord message to post.
#[derive(Debug, Clone)]
pub struct DiscordRequest {
    pub webhook_url: String,
    pub title: String,
    pub description: String,
    pub color: u32,
    pub url: Option<String>,
    pub timestamp: String,
    pub footer_text: String,
}

/// Discord notification job
pub struct SendDiscordNotificationJob {
    settings: DiscordNotificationSettings,
    message: NotificationMessage,
}

impl SendDiscordNotificationJob {
    pub closed spec fn settings(&self) -> DiscordNotificationSettings {
        self.settings
    }

    pub closed spec fn message(&self) -> NotificationMessage {
        self.message
    }

    pub fn new(settings: DiscordNotificationSettings, message: NotificationMessage) -> (r: Self)
        ensures
            r.settings() == settings,
            r.message() == message,
    {
        SendDiscordNotificationJob { settings, message }
    }

    /// Whether the channel delivers this kind of notification.
    pub fn is_notification_enabled(&self) -> (b: bool)
        ensures
            b == toggle_for(self.settings().toggles, self.message().notification_type),
    {
        self.settings.toggles.allows(self.message.notification_type)
    }

    pub fn get_color(&self) -> (c: u32)
        ensures
            c == discord_color(self.message().level),
    {
        match self.message.level {
            NotificationLevel::Success => 0x00FF00,
            NotificationLevel::Info => 0x0099FF,
            NotificationLevel::Warning => 0xFFAA00,
            NotificationLevel::Error => 0xFF0000,
        }
    }

    /// What to send: nothing when the channel is off or this kind is not
    /// wanted, a validation error when no webhook is configured, else an
    /// embed with the message, its color and link, stamped with the
    /// current time.
    pub fn plan(&self) -> (r: Result<Option<DiscordRequest>, Error>)
        ensures
            !self.settings().enabled ==> r matches Ok(None),
            self.settings().enabled && self.settings().webhook_url is None ==> (r matches Err(
                Error::Validation(m),
            ) && m@ == "Discord webhook URL not configured"@),
            self.settings().enabled && self.settings().webhook_url is Some ==> if toggle_for(
                self.settings().toggles,
                self.message().notification_type,
            ) {
                r matches Ok(Some(q)) && q.webhook_url@ == self.settings().webhook_url.unwrap()@
                    && q.title@ == self.message().title@ && q.description@
                    == self.message().message@ && q.color == discord_color(self.message().level)
                    && q.footer_text@ == "Kornetti"@ && match self.message().url {
                    Some(u) => q.url matches Some(v) && v@ == u@,
                    None => q.url is None,
                }
            } else {
                r matches Ok(None)
            },
    {
        if !self.settings.enabled {
            return Ok(None);
        }
        let webhook_url = match &self.settings.webhook_url {
            Some(u) => u.clone(),
            None => {
                return Err(Error::Validation(owned("Discord webhook URL not configured")));
            },
        };
        if !self.is_notification_enabled() {
            return Ok(None);
        }
        let url = match &self.message.url {
            Some(u) => Some(u.clone()),
            None => None,
        };
        Ok(
            Some(
                DiscordRequest {
                    webhook_url,
                    title: self.message.title.clone(),
                    description: self.message.message.clone(),
                    color: self.get_color(),
                    url,
                    timestamp: now_rfc3339(),
                    footer_text: owned("Kornetti"),
                },
            ),
        )
    }
}

/// The Telegram message to post.
#[derive(Debug, Clone)]
pub struct TelegramRequest {
    pub url: String,
    pub chat_id: String,
    pub text: String,
    pub parse_mode: String,
    pub disable_web_page_preview: bool,
}

/// The text of a Telegram message: emoji, bold escaped title, escaped
/// message, and a details link when the notification has a URL.
pub open spec fn telegram_text(m: NotificationMessage) -> Seq<char> {
    telegram_emoji(m.level) + " *"@ + escape_md(m.title@) + "*\n\n"@ + escape_md(m.message@)
        + match m.url {
        Some(u) => "\n\n[View Details]("@ + u@ + ")"@,
        None => Seq::<char>::empty(),
    }
}

/// Telegram notification job
pub struct SendTelegramNotificationJob {
    settings: TelegramNotificationSettings,
    message: NotificationMessage,
}

impl SendTelegramNotificationJob {
    pub closed spec fn settings(&self) -> TelegramNotificationSettings {
        self.settings
    }

    pub closed spec fn message(&self) -> NotificationMessage {
        self.message
    }

    pub fn new(settings: TelegramNotificationSettings, message: NotificationMessage) -> (r: Self)
        ensures
            r.settings() == settings,
            r.message() == message,
    {
        SendTelegramNotificationJob { settings, message }
    }

    /// Whether the channel delivers this kind of notification.
    pub fn is_notification_enabled(&self) -> (b: bool)
        ensures
            b == toggle_for(self.settings().toggles, self.message().notification_type),
    {
        self.settings.toggles.allows(self.message.notification_type)
    }

    pub fn get_emoji(&self) -> (e: &'static str)
        ensures
            e@ == telegram_emoji(self.message().level),
    {
        match self.message.level {
            NotificationLevel::Success => "✅",
            NotificationLevel::Info => "ℹ️",
            NotificationLevel::Warning => "⚠️",
            NotificationLevel::Error => "❌",
        }
    }

    /// The message text to send.
    pub fn text(&self) -> (r: String)
        ensures
            r@ == telegram_text(self.message()),
    {
        let mut r = owned(self.get_emoji());
        r.append(" *");
        let t = escape_markdown(self.message.title.as_str());
        r.append(t.as_str());
        r.append("*\n\n");
        let m = escape_markdown(self.message.message.as_str());
        r.append(m.as_str());
        match &self.message.url {
            Some(u) => {
                r.append("\n\n[View Details](");
                r.append(u.as_str());
                r.append(")");
            },
            None => {},
        }
        r
    }

    /// What to send: nothing when the channel is off or this kind is not
    /// wanted; a validation error when the bot token or chat is missing;
    /// else the MarkdownV2 message for the bot's `sendMessage` endpoint.
    pub fn plan(&self) -> (r: Result<Option<TelegramRequest>, Error>)
        ensures
            !self.settings().enabled ==> r matches Ok(None),
            self.settings().enabled && self.settings().bot_token is None ==> (r matches Err(
                Error::Validation(m),
            ) && m@ == "Telegram bot token not configured"@),
            self.settings().enabled && self.settings().bot_token is Some
                && self.settings().chat_id is None ==> (r matches Err(Error::Validation(m)) && m@
                == "Telegram chat ID not configured"@),
            self.settings().enabled && self.settings().bot_token is Some
                && self.settings().chat_id is Some ==> if toggle_for(
                self.settings().toggles,
                self.message().notification_type,
            ) {
                r matches Ok(Some(q)) && q.url@ == "https://api.telegram.org/bot"@
                    + self.settings().bot_token.unwrap()@ + "/sendMessage"@ && q.chat_id@
                    == self.settings().chat_id.unwrap()@ && q.text@ == telegram_text(
                    self.message(),
                ) && q.parse_mode@ == "MarkdownV2"@ && !q.disable_web_page_preview
            } else {
                r matches Ok(None)
            },
    {
        if !self.settings.enabled {
            return Ok(None);
        }
        let bot_token = match &self.settings.bot_token {
            Some(t) => t,
            None => {
                return Err(Error::Validation(owned("Telegram bot token not configured")));
            },
        };
        let chat_id = match &self.settings.chat_id {
            Some(c) => c,
            None => {
                return Err(Error::Validation(owned("Telegram chat ID not configured")));
            },
        };
        if !self.is_notification_enabled() {
            return Ok(None);
        }
        let mut url = owned("https://api.telegram.org/bot");
        url.append(bot_token.as_str());
        url.append("/sendMessage");
        Ok(
            Some(
                TelegramRequest {
                    url,
                    chat_id: chat_id.clone(),
                    text: self.text(),
                    parse_mode: owned("MarkdownV2"),
                    disable_web_page_preview: false,
                },
            ),
        )
    }
}

/// The Slack message to post.
#[derive(Debug, Clone)]
pub struct SlackRequest {
    pub webhook_url: String,
    pub color: String,
    pub title: String,
    pub text: String,
    pub title_link: Option<String>,
    pub footer: String,
    /// Seconds since the epoch
    pub ts: i64,
}

/// Slack notification job
pub struct SendSlackNotificationJob {
    settings: SlackNotificationSettings,
    message: NotificationMessage,
}

impl SendSlackNotificationJob {
    pub closed spec fn settings(&self) -> SlackNotificationSettings {
        self.settings
    }

    pub closed spec fn message(&self) -> NotificationMessage {
        self.message
    }

    pub fn new(settings: SlackNotificationSettings, message: NotificationMessage) -> (r: Self)
        ensures
            r.settings() == settings,
            r.message() == message,
    {
        SendSlackNotificationJob { settings, message }
    }

    /// Whether the channel delivers this kind of notification.
    pub fn is_notification_enabled(&self) -> (b: bool)
        ensures
            b == toggle_for(self.settings().toggles, self.message().notification_type),
    {
        self.settings.toggles.allows(self.message.notification_type)
    }

    pub fn get_color(&self) -> (c: &'static str)
        ensures
            c@ == slack_color(self.message().level),
    {
        match self.message.level {
            NotificationLevel::Success => "good",
            NotificationLevel::Info => "#0099FF",
            NotificationLevel::Warning => "warning",
            NotificationLevel::Error => "danger",
        }
    }

    /// What to send: nothing when the channel is off or this kind is not
    /// wanted, a validation error when no webhook is configured, else an
    /// attachment with the message, its color and link, stamped with the
    /// current time.
    pub fn plan(&self) -> (r: Result<Option<SlackRequest>, Error>)
        ensures
            !self.settings().enabled ==> r matches Ok(None),
            self.settings().enabled && self.settings().webhook_url is None ==> (r matches Err(
                Error::Validation(m),
            ) && m@ == "Slack webhook URL not configured"@),
            self.settings().enabled && self.settings().webhook_url is Some ==> if toggle_for(
                self.settings().toggles,
                self.message().notification_type,
            ) {
                r matches Ok(Some(q)) && q.webhook_url@ == self.settings().webhook_url.unwrap()@
                    && q.title@ == self.message().title@ && q.text@ == self.message().message@
                    && q.color@ == slack_color(self.message().level) && q.footer@ == "Kornetti"@
                    && match self.message().url {
                    Some(u) => q.title_link matches Some(v) && v@ == u@,
                    None => q.title_link is None,
                }
            } else {
                r matches Ok(None)
            },
    {
        if !self.settings.enabled {
            return Ok(None);
        }
        let webhook_url = match &self.settings.webhook_url {
            Some(u) => u.clone(),
            None => {
                return Err(Error::Validation(owned("Slack webhook URL not configured")));
            },
        };
        if !self.is_notification_enabled() {
            return Ok(None);
        }
        let title_link = match &self.message.url {
            Some(u) => Some(u.clone()),
            None => None,
        };
        Ok(
            Some(
                SlackRequest {
                    webhook_url,
                    color: owned(self.get_color()),
                    title: self.message.title.clone(),
                    text: self.message.message.clone(),
                    title_link,
                    footer: owned("Kornetti"),
                    ts: now_seconds(),
                },
            ),
        )
    }
}

/// The channels a notification can go to.
#[derive(Debug, Clone, Copy, PartialEq, Eq, Structural)]
pub enum NotificationChannel {
    Discord,
    Telegram,
    Slack,
}

/// The configured channels in the order they are served: Discord,
/// Telegram, then Slack (e-mail is not served yet).
pub open spec fn channel_order(discord: bool, telegram: bool, slack: bool) -> Seq<NotificationChannel> {
    (if discord {
        seq![NotificationChannel::Discord]
    } else {
        Seq::<NotificationChannel>::empty()
    }) + (if telegram {
        seq![NotificationChannel::Telegram]
    } else {
        Seq::<NotificationChannel>::empty()
    }) + (if slack {
        seq![NotificationChannel::Slack]
    } else {
        Seq::<NotificationChannel>::empty()
    })
}

/// Dispatcher for sending notifications to all configured channels
pub struct NotificationDispatcher {
    pub discord: Option<DiscordNotificationSettings>,
    pub telegram: Option<TelegramNotificationSettings>,
    pub slack: Option<SlackNotificationSettings>,
    pub email: Option<crate::platform::EmailNotificationSettings>,
}

impl NotificationDispatcher {
    /// A dispatcher with no channel configured.
    pub fn new() -> (r: Self)
        ensures
            r.discord is None && r.telegram is None && r.slack is None && r.email is None,
    {
        NotificationDispatcher { discord: None, telegram: None, slack: None, email: None }
    }

    /// The channels a notification is sent to, in order; one result is
    /// reported per channel.
    pub fn dispatch_order(&self) -> (r: Vec<NotificationChannel>)
        ensures
            r@ == channel_order(self.discord is Some, self.telegram is Some, self.slack is Some),
    {
        let mut r: Vec<NotificationChannel> = Vec::new();
        if self.discord.is_some() {
            r.push(NotificationChannel::Discord);
        }
        if self.telegram.is_some() {
            r.push(NotificationChannel::Telegram);
        }
        if self.slack.is_some() {
            r.push(NotificationChannel::Slack);
        }
        assert(r@ =~= channel_order(self.discord is Some, self.telegram is Some, self.slack is Some));
        r
    }
}

} // verus!
