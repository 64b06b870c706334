//! Webhook notifications: what can be announced, and the Discord and Slack
//! messages each announcement becomes.

use vstd::prelude::*;

use crate::plugin_error::text2;
use crate::text::{owned, string_equals_str};

verus! {

/// Where notifications are sent.
#[derive(Debug, Clone)]
pub struct WebhookConfig {
    pub discord_url: Option<String>,
    pub slack_url: Option<String>,
}

/// What can be announced.
#[derive(Debug, Clone)]
pub enum Notification {
    /// New release published
    Release { version: String, changelog: String },
    /// Security alert
    SecurityAlert { severity: String, message: String },
    /// CI/CD status
    CiStatus { status: String, branch: String, commit: String },
    /// Error report
    Error { component: String, error: String },
}

/// A field of a Discord embed.
#[derive(Debug, Clone)]
pub struct DiscordField {
    pub name: String,
    pub value: String,
    pub inline: bool,
}

/// An embed of a Discord message.
#[derive(Debug, Clone)]
pub struct DiscordEmbed {
    pub title: String,
    pub description: String,
    /// RGB color.
    pub color: u32,
    pub fields: Vec<DiscordField>,
}

/// A Discord webhook message.
#[derive(Debug, Clone)]
pub struct DiscordWebhook {
    pub content: Option<String>,
    pub embeds: Vec<DiscordEmbed>,
}

/// A field of a Slack attachment.
#[derive(Debug, Clone)]
pub struct SlackField {
    pub title: String,
    pub value: String,
    pub short: bool,
}

/// An attachment of a Slack message.
#[derive(Debug, Clone)]
pub struct SlackAttachment {
    pub color: String,
    pub title: String,
    pub text: String,
    pub fields: Vec<SlackField>,
}

/// A Slack webhook message.
#[derive(Debug, Clone)]
pub struct SlackWebhook {
    pub text: String,
    pub attachments: Vec<SlackAttachment>,
}

/// A field by its values: name, value, whether inline.
pub type FieldView = (Seq<char>, Seq<char>, bool);

/// A Discord embed by its values.
pub type EmbedView = (Seq<char>, Seq<char>, u32, Seq<FieldView>);

/// A Discord message by its values.
pub open spec fn discord_view(w: DiscordWebhook) -> (Option<Seq<char>>, Seq<EmbedView>) {
    (
        match w.content {
            Some(c) => Some(c@),
            None => None,
        },
        w.embeds@.map_values(|e: DiscordEmbed| (
            e.title@,
            e.description@,
            e.color,
            e.fields@.map_values(|f: DiscordField| (f.name@, f.value@, f.inline)),
        )),
    )
}

/// A Slack attachment by its values.
pub type AttachmentView = (Seq<char>, Seq<char>, Seq<char>, Seq<FieldView>);

/// A Slack message by its values.
pub open spec fn slack_view(w: SlackWebhook) -> (Seq<char>, Seq<AttachmentView>) {
    (
        w.text@,
        w.attachments@.map_values(|a: SlackAttachment| (
            a.title@,
            a.color@,
            a.text@,
            a.fields@.map_values(|f: SlackField| (f.title@, f.value@, f.short)),
        )),
    )
}

/// The Discord message of a notification.
pub open spec fn discord_message(n: Notification) -> (Option<Seq<char>>, Seq<EmbedView>) {
    match n {
        Notification::Release { version, changelog } => (
            Some("🚀 New Release!"@),
            seq![("Version "@ + version@, changelog@, 0x00FF00u32, Seq::empty())],
        ),
        Notification::SecurityAlert { severity, message } => (
            Some("⚠️ Security Alert"@),
            seq![(severity@ + " Severity Alert"@, message@, 0xFF0000u32, Seq::empty())],
        ),
        Notification::CiStatus { status, branch, commit } => (
            None,
            seq![(
                "CI: "@ + status@,
                Seq::empty(),
                if status@ == "success"@ { 0x00FF00u32 } else { 0xFF0000u32 },
                seq![("Branch"@, branch@, true), ("Commit"@, commit@, true)],
            )],
        ),
        Notification::Error { component, error } => (
            Some("❌ Error Occurred"@),
            seq![(component@, error@, 0xFF6600u32, Seq::empty())],
        ),
    }
}

/// The Slack message of a notification.
pub open spec fn slack_message(n: Notification) -> (Seq<char>, Seq<AttachmentView>) {
    match n {
        Notification::Release { version, changelog } => (
            "🚀 New Release!"@,
            seq![("Version "@ + version@, "good"@, changelog@, Seq::empty())],
        ),
        Notification::SecurityAlert { severity, message } => (
            "⚠️ Security Alert"@,
            seq![(severity@ + " Severity Alert"@, "danger"@, message@, Seq::empty())],
        ),
        Notification::CiStatus { status, branch, commit } => (
            "CI: "@ + status@,
            seq![(
                "Build Status"@,
                if status@ == "success"@ { "good"@ } else { "danger"@ },
                Seq::empty(),
                seq![("Branch"@, branch@, true), ("Commit"@, commit@, true)],
            )],
        ),
        Notification::Error { component, error } => (
            "❌ Error Occurred"@,
            seq![(component@, "warning"@, error@, Seq::empty())],
        ),
    }
}

/// A Discord message with one embed.
fn discord_one(content: Option<String>, embed: DiscordEmbed) -> (w: DiscordWebhook)
    ensures
        w.content == content,
        w.embeds@ == seq![embed],
{
    let mut embeds: Vec<DiscordEmbed> = Vec::new();
    embeds.push(embed);
    DiscordWebhook { content, embeds }
}

/// A Slack message with one attachment.
fn slack_one(text: String, attachment: SlackAttachment) -> (w: SlackWebhook)
    ensures
        w.text == text,
        w.attachments@ == seq![attachment],
{
    let mut attachments: Vec<SlackAttachment> = Vec::new();
    attachments.push(attachment);
    SlackWebhook { text, attachments }
}

/// The Discord message of a notification.
pub fn build_discord_payload(notification: &Notification) -> (w: DiscordWebhook)
    ensures
        discord_view(w) == discord_message(*notification),
{
    match notification {
        Notification::Release { version, changelog } => {
            let embed = DiscordEmbed {
                title: text2("Version ", version.as_str()),
                description: changelog.clone(),
                color: 0x00FF00,
                fields: Vec::new(),
            };
            let w = discord_one(Some(owned("🚀 New Release!")), embed);
            assert(discord_view(w).1 =~= discord_message(*notification).1) by {
                assert(w.embeds@[0].fields@.map_values(|f: DiscordField| (f.name@, f.value@, f.inline)) =~= Seq::<FieldView>::empty());
            }
            w
        },
        Notification::SecurityAlert { severity, message } => {
            let embed = DiscordEmbed {
                title: crate::plugin_error::text2(severity.as_str(), " Severity Alert"),
                description: message.clone(),
                color: 0xFF0000,
                fields: Vec::new(),
            };
            let w = discord_one(Some(owned("⚠️ Security Alert")), embed);
            assert(discord_view(w).1 =~= discord_message(*notification).1) by {
                assert(w.embeds@[0].fields@.map_values(|f: DiscordField| (f.name@, f.value@, f.inline)) =~= Seq::<FieldView>::empty());
            }
            w
        },
        Notification::CiStatus { status, branch, commit } => {
            let mut fields: Vec<DiscordField> = Vec::new();
            fields.push(DiscordField { name: owned("Branch"), value: branch.clone(), inline: true });
            fields.push(DiscordField { name: owned("Commit"), value: commit.clone(), inline: true });
            let color: u32 = if string_equals_str(status, "success") { 0x00FF00 } else { 0xFF0000 };
            let embed = DiscordEmbed { title: text2("CI: ", status.as_str()), description: String::new(), color, fields };
            let w = discord_one(None, embed);
            assert(discord_view(w).1 =~= discord_message(*notification).1) by {
                assert(w.embeds@[0].fields@.map_values(|f: DiscordField| (f.name@, f.value@, f.inline))
                    =~= seq![("Branch"@, branch@, true), ("Commit"@, commit@, true)]);
            }
            w
        },
        Notification::Error { component, error } => {
            let embed = DiscordEmbed { title: component.clone(), description: error.clone(), color: 0xFF6600, fields: Vec::new() };
            let w = discord_one(Some(owned("❌ Error Occurred")), embed);
            assert(discord_view(w).1 =~= discord_message(*notification).1) by {
                assert(w.embeds@[0].fields@.map_values(|f: DiscordField| (f.name@, f.value@, f.inline)) =~= Seq::<FieldView>::empty());
            }
            w
        },
    }
}

/// The Slack message of a notification.
pub fn build_slack_payload(notification: &Notification) -> (w: SlackWebhook)
    ensures
        slack_view(w) == slack_message(*notification),
{
    match notification {
        Notification::Release { version, changelog } => {
            let a = SlackAttachment {
                color: owned("good"),
                title: text2("Version ", version.as_str()),
                text: changelog.clone(),
                fields: Vec::new(),
            };
            let w = slack_one(owned("🚀 New Release!"), a);
            assert(slack_view(w).1 =~= slack_message(*notification).1) by {
                assert(w.attachments@[0].fields@.map_values(|f: SlackField| (f.title@, f.value@, f.short)) =~= Seq::<FieldView>::empty());
            }
            w
        },
        Notification::SecurityAlert { severity, message } => {
            let a = SlackAttachment {
                color: owned("danger"),
                title: text2(severity.as_str(), " Severity Alert"),
                text: message.clone(),
                fields: Vec::new(),
            };
            let w = slack_one(owned("⚠️ Security Alert"), a);
            assert(slack_view(w).1 =~= slack_message(*notification).1) by {
                assert(w.attachments@[0].fields@.map_values(|f: SlackField| (f.title@, f.value@, f.short)) =~= Seq::<FieldView>::empty());
            }
            w
        },
        Notification::CiStatus { status, branch, commit } => {
            let mut fields: Vec<SlackField> = Vec::new();
            fields.push(SlackField { title: owned("Branch"), value: branch.clone(), short: true });
            fields.push(SlackField { title: owned("Commit"), value: commit.clone(), short: true });
            let color = if string_equals_str(status, "success") { owned("good") } else { owned("danger") };
            let a = SlackAttachment { color, title: owned("Build Status"), text: String::new(), fields };
            let w = slack_one(text2("CI: ", status.as_str()), a);
            assert(slack_view(w).1 =~= slack_message(*notification).1) by {
                assert(w.attachments@[0].fields@.map_values(|f: SlackField| (f.title@, f.value@, f.short))
                    =~= seq![("Branch"@, branch@, true), ("Commit"@, commit@, true)]);
            }
            w
        },
        Notification::Error { component, error } => {
            let a = SlackAttachment { color: owned("warning"), title: component.clone(), text: error.clone(), fields: Vec::new() };
            let w = slack_one(owned("❌ Error Occurred"), a);
            assert(slack_view(w).1 =~= slack_message(*notification).1) by {
                assert(w.attachments@[0].fields@.map_values(|f: SlackField| (f.title@, f.value@, f.short)) =~= Seq::<FieldView>::empty());
            }
            w
        },
    }
}

} // verus!
