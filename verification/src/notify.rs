//! The notifier's text: the notification in either dialect, and the address
//! it is posted to.

use crate::escape::{
    escape_markdown_chars, expandable_quote, expandable_quote_chars, html_escape_chars,
    html_escaped, markdown_escaped,
};
use crate::config::{Config, ConfigView};
use crate::extract::{ExtractedMessage, MessageView};
use crate::session::Reply;
use crate::text::{chars_of, extend_chars, extend_str, same_text, string_of};
use vstd::prelude::*;
use vstd::string::StringExecFns;

verus! {

/// The output dialects.
#[derive(Clone, Copy, PartialEq, Eq, Structural, Debug)]
pub enum Dialect {
    /// The lightweight-markup dialect, which is the default.
    Markdown,
    /// The markup dialect.
    Html,
}

/// The dialect that a configured parse mode selects: the markup dialect for
/// `HTML`, the lightweight-markup dialect for anything else.
pub open spec fn dialect_named(mode: Seq<char>) -> Dialect {
    if mode == "HTML"@ {
        Dialect::Html
    } else {
        Dialect::Markdown
    }
}

/// The notification for `m` in the markup dialect.
pub open spec fn html_text(m: MessageView) -> Seq<char> {
    "\u{1F4E8} <b>"@ + html_escaped(m.subject) + "</b>\n<blockquote expandable>"@ + html_escaped(
        m.body,
    ) + "</blockquote>"@
}

/// The notification for `m` in the lightweight-markup dialect.
pub open spec fn markdown_text(m: MessageView) -> Seq<char> {
    "\u{1F4E8} *"@ + markdown_escaped(m.subject) + "*\n"@ + expandable_quote(m.body)
}

/// The notification for `m` in dialect `d`.
pub open spec fn notification_text(d: Dialect, m: MessageView) -> Seq<char> {
    match d {
        Dialect::Html => html_text(m),
        Dialect::Markdown => markdown_text(m),
    }
}

/// The address that a notification is posted to for the bot `token`.
pub open spec fn message_url(token: Seq<char>) -> Seq<char> {
    "https://api.telegram.org/bot"@ + token + "/sendMessage"@
}

/// The dialect that the configured parse mode selects.
pub fn dialect_of(parse_mode: &str) -> (d: Dialect)
    ensures
        d == dialect_named(parse_mode@),
{
    if same_text(parse_mode, "HTML") {
        Dialect::Html
    } else {
        Dialect::Markdown
    }
}

/// Builds the notification text for `m` in dialect `d`.
pub fn build_notification(d: Dialect, m: &ExtractedMessage) -> (text: String)
    ensures
        text@ == notification_text(d, m@),
{
    let subject = chars_of(m.subject.as_str());
    let body = chars_of(m.body.as_str());
    let mut out: Vec<char> = Vec::new();
    match d {
        Dialect::Html => {
            extend_str(&mut out, "\u{1F4E8} <b>");
            let s = html_escape_chars(&subject);
            extend_chars(&mut out, &s);
            extend_str(&mut out, "</b>\n<blockquote expandable>");
            let b = html_escape_chars(&body);
            extend_chars(&mut out, &b);
            extend_str(&mut out, "</blockquote>");
            assert(out@ =~= html_text(m@));
        },
        Dialect::Markdown => {
            extend_str(&mut out, "\u{1F4E8} *");
            let s = escape_markdown_chars(&subject);
            extend_chars(&mut out, &s);
            extend_str(&mut out, "*\n");
            let b = expandable_quote_chars(&body);
            extend_chars(&mut out, &b);
            assert(out@ =~= markdown_text(m@));
        },
    }
    string_of(&out)
}

/// The address that a notification is posted to for the bot `token`.
pub fn send_message_url(token: &str) -> (url: String)
    ensures
        url@ == message_url(token@),
{
    let mut url = String::from_str("https://api.telegram.org/bot");
    url.append(token);
    url.append("/sendMessage");
    url
}

/// One notification as the contracts see it.
pub struct NotificationView {
    pub url: Seq<char>,
    pub chat_id: Seq<char>,
    pub text: Seq<char>,
    pub parse_mode: Seq<char>,
}

/// The notification for message `m` under configuration `c`: posted to the
/// address of the configured bot, for the configured chat, with the text in
/// the dialect that the configured parse mode selects, and the parse mode as
/// configured.
pub open spec fn notification_for(c: ConfigView, m: MessageView) -> NotificationView {
    NotificationView {
        url: message_url(c.telegram_token),
        chat_id: c.telegram_chat_id,
        text: notification_text(dialect_named(c.parse_mode), m),
        parse_mode: c.parse_mode,
    }
}

/// One notification: where to post it, and the three fields of its payload.
#[derive(Clone, PartialEq, Eq, Debug)]
pub struct Notification {
    pub url: String,
    pub chat_id: String,
    pub text: String,
    pub parse_mode: String,
}

impl View for Notification {
    type V = NotificationView;

    open spec fn view(&self) -> NotificationView {
        NotificationView {
            url: self.url@,
            chat_id: self.chat_id@,
            text: self.text@,
            parse_mode: self.parse_mode@,
        }
    }
}

/// Builds the notification for message `m` under configuration `config`.
pub fn notify(config: &Config, m: &ExtractedMessage) -> (n: Notification)
    ensures
        n@ == notification_for(config@, m@),
{
    let dialect = dialect_of(config.parse_mode.as_str());
    Notification {
        url: send_message_url(config.telegram_token.as_str()),
        chat_id: config.telegram_chat_id.clone(),
        text: build_notification(dialect, m),
        parse_mode: config.parse_mode.clone(),
    }
}

/// The reply to the client once the notification was posted: the message
/// counts as accepted whether or not the notification went out.
pub fn reply_after_delivery(delivered: bool) -> (r: Reply)
    ensures
        r == Reply::Accepted,
{
    Reply::Accepted
}

} // verus!
