//! The notifier port: what is sent for an alert, and to whom. The transport
//! itself is not part of the engine; the notifier hands out the message,
//! and the caller reports back whether the transport accepted it.

use crate::notification::{NotificationAlert, NotificationAlertView, NotificationType};
use crate::postmark::PostmarkError;
use vstd::prelude::*;
use vstd::string::*;

verus! {

/// Body of an email, as plain text or as HTML.
#[derive(Debug)]
pub enum Body {
    Text(String),
    Html(String),
}

impl Body {
    /// The body's text, whatever its format.
    pub open spec fn text(self) -> Seq<char> {
        match self {
            Body::Text(t) => t@,
            Body::Html(t) => t@,
        }
    }
}

impl Default for Body {
    fn default() -> (r: Self)
        ensures
            r is Text,
            r.text() == Seq::<char>::empty(),
    {
        Body::Text(String::new())
    }
}

/// An email as the mail service takes it.
#[derive(Debug)]
pub struct SendEmailRequest {
    pub from: String,
    pub to: String,
    pub body: Body,
    pub cc: Option<String>,
    pub subject: Option<String>,
    pub tag: Option<String>,
}

/// Sender of every alert email.
pub open spec fn alert_sender() -> Seq<char> {
    "up.io <no-reply@sector42.io>"@
}

/// Subject line of the alert email for a check called `name`.
pub open spec fn alert_subject(name: Seq<char>) -> Seq<char> {
    "[DOWN] "@ + name
}

/// Text of every alert email.
pub open spec fn alert_text() -> Seq<char> {
    "Sent by up.io"@
}

/// The request `r` is the alert email for a check called `name`, addressed
/// to `to`.
pub open spec fn is_alert_email(r: SendEmailRequest, to: Seq<char>, name: Seq<char>) -> bool {
    &&& r.from@ == alert_sender()
    &&& r.to@ == to
    &&& r.subject matches Some(s) && s@ == alert_subject(name)
    &&& r.body is Text
    &&& r.body.text() == alert_text()
    &&& r.cc is None
    &&& r.tag is None
}

/// A call of a webhook.
#[derive(Debug)]
pub struct WebhookCall {
    pub url: String,
    pub check_uuid: u128,
    pub check_name: String,
    pub last_ping_at: Option<i64>,
}

/// What the transport has to do for one alert.
#[derive(Debug)]
pub enum Dispatch {
    Email(SendEmailRequest),
    Webhook(WebhookCall),
}

/// Why an alert could not be sent.
#[derive(Debug)]
pub enum NotifierError {
    /// The mail service refused the email or could not be reached.
    EmailSendError(PostmarkError),
    /// The channel names no destination of its kind.
    MissingDestination,
}

/// The destination that the channel of `alert` names for its kind.
pub open spec fn destination(alert: NotificationAlertView) -> Option<Seq<char>> {
    match alert.notification_type {
        NotificationType::Email => alert.email,
        NotificationType::Webhook => alert.url,
    }
}

/// `d` is the dispatch that `alert` calls for, to the destination `to`.
pub open spec fn is_dispatch_of(d: Dispatch, alert: NotificationAlertView, to: Seq<char>) -> bool {
    match alert.notification_type {
        NotificationType::Email => d matches Dispatch::Email(r) && is_alert_email(r, to, alert.name),
        NotificationType::Webhook => d matches Dispatch::Webhook(c) && {
            &&& c.url@ == to
            &&& c.check_uuid == alert.check_uuid
            &&& c.check_name@ == alert.name
            &&& c.last_ping_at == alert.last_ping_at
        },
    }
}

/// Turns alerts into dispatches.
#[derive(Clone, Copy, Debug)]
pub struct Notifier {}

impl Notifier {
    pub fn new() -> Self {
        Notifier {  }
    }

    /// Builds what has to be sent for `alert`: an email for an email
    /// channel, a webhook call for a webhook channel, each to the
    /// destination that the channel names. A channel without a destination
    /// of its kind gives an error, which counts as a failed delivery.
    pub fn send_alert(&self, alert: &NotificationAlert) -> (r: Result<Dispatch, NotifierError>)
        ensures
            r is Ok <==> destination(alert@) is Some,
            r matches Ok(d) ==> is_dispatch_of(d, alert@, destination(alert@)->0),
            r matches Err(e) ==> e is MissingDestination,
    {
        match alert.notification_type {
            NotificationType::Email => self.send_alert_email(alert),
            NotificationType::Webhook => self.call_alert_webhook(alert),
        }
    }

    /// The webhook call for `alert`.
    pub fn call_alert_webhook(&self, alert: &NotificationAlert) -> (r: Result<Dispatch, NotifierError>)
        ensures
            r is Ok <==> alert@.url is Some,
            r matches Ok(d) ==> d matches Dispatch::Webhook(c) && {
                &&& c.url@ == alert@.url->0
                &&& c.check_uuid == alert@.check_uuid
                &&& c.check_name@ == alert@.name
                &&& c.last_ping_at == alert@.last_ping_at
            },
            r matches Err(e) ==> e is MissingDestination,
    {
        match &alert.url {
            Some(url) => Ok(
                Dispatch::Webhook(
                    WebhookCall {
                        url: url.clone(),
                        check_uuid: alert.check_uuid,
                        check_name: alert.name.clone(),
                        last_ping_at: alert.last_ping_at,
                    },
                ),
            ),
            None => Err(NotifierError::MissingDestination),
        }
    }

    /// The alert email for `alert`.
    pub fn send_alert_email(&self, alert: &NotificationAlert) -> (r: Result<Dispatch, NotifierError>)
        ensures
            r is Ok <==> alert@.email is Some,
            r matches Ok(d) ==> d matches Dispatch::Email(m) && is_alert_email(m, alert@.email->0, alert@.name),
            r matches Err(e) ==> e is MissingDestination,
    {
        match &alert.email {
            Some(to) => {
                let mut subject = "[DOWN] ".to_string();
                subject.append(alert.name.as_str());
                Ok(
                    Dispatch::Email(
                        SendEmailRequest {
                            from: "up.io <no-reply@sector42.io>".to_string(),
                            to: to.clone(),
                            body: Body::Text("Sent by up.io".to_string()),
                            cc: None,
                            subject: Some(subject),
                            tag: None,
                        },
                    ),
                )
            },
            None => Err(NotifierError::MissingDestination),
        }
    }
}

} // verus!
