//! The unit of work read from the queue and the audit record written for
//! each delivery attempt.

use crate::headers::header_texts;
use vstd::prelude::*;

verus! {

/// One webhook notification to deliver.
#[derive(Clone, Debug, PartialEq, Eq)]
pub struct WebhookQueueMessage {
    /// The job the notification is about.
    pub job_id: String,
    /// The tenant the job belongs to.
    pub team_id: String,
    /// Carried through to the audit record only.
    pub scrape_id: Option<String>,
    /// The destination, checked at each attempt.
    pub webhook_url: String,
    /// What triggered the notification.
    pub event: String,
    /// The request body: the JSON text of the payload.
    pub payload: String,
    /// Header names and values for the request, in the order they are applied.
    pub headers: Vec<(String, String)>,
    /// The time one attempt may take, in milliseconds.
    pub timeout_ms: u64,
    /// The number of attempts made before this one.
    pub retry_count: u32,
}

/// The texts and numbers of a `WebhookQueueMessage`.
pub struct QueueMessageView {
    pub job_id: Seq<char>,
    pub team_id: Seq<char>,
    pub scrape_id: Option<Seq<char>>,
    pub webhook_url: Seq<char>,
    pub event: Seq<char>,
    pub payload: Seq<char>,
    pub headers: Seq<(Seq<char>, Seq<char>)>,
    pub timeout_ms: u64,
    pub retry_count: u32,
}

/// The text of an optional string.
pub open spec fn optional_text(text: Option<String>) -> Option<Seq<char>> {
    match text {
        Some(s) => Some(s@),
        None => None,
    }
}

impl View for WebhookQueueMessage {
    type V = QueueMessageView;

    open spec fn view(&self) -> QueueMessageView {
        QueueMessageView {
            job_id: self.job_id@,
            team_id: self.team_id@,
            scrape_id: optional_text(self.scrape_id),
            webhook_url: self.webhook_url@,
            event: self.event@,
            payload: self.payload@,
            headers: header_texts(self.headers@),
            timeout_ms: self.timeout_ms,
            retry_count: self.retry_count,
        }
    }
}

/// The audit record of one delivery attempt.
#[derive(Clone, Debug, PartialEq, Eq)]
pub struct WebhookLog {
    pub success: bool,
    pub error: Option<String>,
    pub team_id: String,
    pub crawl_id: String,
    pub scrape_id: Option<String>,
    pub url: String,
    pub status_code: Option<i32>,
    pub event: String,
}

/// The texts and numbers of a `WebhookLog`.
pub struct WebhookLogView {
    pub success: bool,
    pub error: Option<Seq<char>>,
    pub team_id: Seq<char>,
    pub crawl_id: Seq<char>,
    pub scrape_id: Option<Seq<char>>,
    pub url: Seq<char>,
    pub status_code: Option<i32>,
    pub event: Seq<char>,
}

impl View for WebhookLog {
    type V = WebhookLogView;

    open spec fn view(&self) -> WebhookLogView {
        WebhookLogView {
            success: self.success,
            error: optional_text(self.error),
            team_id: self.team_id@,
            crawl_id: self.crawl_id@,
            scrape_id: optional_text(self.scrape_id),
            url: self.url@,
            status_code: self.status_code,
            event: self.event@,
        }
    }
}

/// The record of an attempt at delivering `m`: the message's tenant, job,
/// scrape, destination and event, with how the attempt went.
pub open spec fn spec_audit_record(
    m: QueueMessageView,
    success: bool,
    status_code: Option<i32>,
    error: Option<Seq<char>>,
) -> WebhookLogView {
    WebhookLogView {
        success,
        error,
        team_id: m.team_id,
        crawl_id: m.job_id,
        scrape_id: m.scrape_id,
        url: m.webhook_url,
        status_code,
        event: m.event,
    }
}

/// The record of an attempt that failed before any response came.
pub open spec fn spec_failure_record(m: QueueMessageView, error: Seq<char>) -> WebhookLogView {
    spec_audit_record(m, false, None, Some(error))
}

/// A copy of an optional string.
pub fn clone_optional(text: &Option<String>) -> (copy: Option<String>)
    ensures
        copy == *text,
{
    match text {
        Some(s) => Some(s.clone()),
        None => None,
    }
}

/// Writes the audit record of one attempt at delivering `message`.
pub fn audit_record(
    message: &WebhookQueueMessage,
    success: bool,
    status_code: Option<i32>,
    error: Option<String>,
) -> (log: WebhookLog)
    ensures
        log@ == spec_audit_record(message@, success, status_code, optional_text(error)),
{
    WebhookLog {
        success,
        error,
        team_id: message.team_id.clone(),
        crawl_id: message.job_id.clone(),
        scrape_id: clone_optional(&message.scrape_id),
        url: message.webhook_url.clone(),
        status_code,
        event: message.event.clone(),
    }
}

/// Writes the audit record of an attempt that failed before any response came.
pub fn failure_record(message: &WebhookQueueMessage, error: String) -> (log: WebhookLog)
    ensures
        log@ == spec_failure_record(message@, error@),
{
    audit_record(message, false, None, Some(error))
}

} // verus!
