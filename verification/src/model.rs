//! The records that travel over the wire.

use vstd::prelude::*;

verus! {

/// How urgent a notification is.
#[derive(Clone, Copy, Debug, PartialEq, Eq, Structural)]
pub enum Severity {
    Critical,
    Important,
    Info,
}

impl Severity {
    /// The lowercase word that stands for this severity in a response body.
    pub open spec fn wire_name(self) -> Seq<char> {
        match self {
            Severity::Critical => "critical"@,
            Severity::Important => "important"@,
            Severity::Info => "info"@,
        }
    }

    /// The text written for this severity when a notification is encoded.
    pub fn as_str(self) -> (name: &'static str)
        ensures
            name@ == self.wire_name(),
    {
        match self {
            Severity::Critical => "critical",
            Severity::Important => "important",
            Severity::Info => "info",
        }
    }
}

/// The three words are pairwise different, so a reader of a response can
/// always tell which severity was meant.
pub proof fn wire_name_is_injective(a: Severity, b: Severity)
    requires
        a.wire_name() == b.wire_name(),
    ensures
        a == b,
{
    reveal_strlit("critical");
    reveal_strlit("important");
    reveal_strlit("info");
    assert("critical"@.len() == 8);
    assert("important"@.len() == 9);
    assert("info"@.len() == 4);
}

/// A group that notifications are addressed to.
#[derive(Clone, Debug)]
pub struct Organization {
    pub id: String,
    pub name: String,
}

/// What an `Organization` holds, as mathematical values.
pub ghost struct OrganizationView {
    pub id: Seq<char>,
    pub name: Seq<char>,
}

impl View for Organization {
    type V = OrganizationView;

    open spec fn view(&self) -> OrganizationView {
        OrganizationView { id: self.id@, name: self.name@ }
    }
}

/// One entry of the notification feed.
#[derive(Clone, Debug)]
pub struct Notification {
    pub id: String,
    pub org_id: String,
    pub source: String,
    pub severity: Severity,
    pub title: String,
    pub content: String,
    pub created_at: String,
    pub ack_count: Option<i32>,
    pub view_count: Option<i32>,
    pub github_hash: Option<String>,
}

/// What a `Notification` holds, as mathematical values.
pub ghost struct NotificationView {
    pub id: Seq<char>,
    pub org_id: Seq<char>,
    pub source: Seq<char>,
    pub severity: Severity,
    pub title: Seq<char>,
    pub content: Seq<char>,
    pub created_at: Seq<char>,
    pub ack_count: Option<i32>,
    pub view_count: Option<i32>,
    pub github_hash: Option<Seq<char>>,
}

impl View for Notification {
    type V = NotificationView;

    open spec fn view(&self) -> NotificationView {
        NotificationView {
            id: self.id@,
            org_id: self.org_id@,
            source: self.source@,
            severity: self.severity,
            title: self.title@,
            content: self.content@,
            created_at: self.created_at@,
            ack_count: self.ack_count,
            view_count: self.view_count,
            github_hash: match self.github_hash {
                Some(h) => Some(h@),
                None => None,
            },
        }
    }
}

/// A greeting stored in the `messages` table.
#[derive(Clone, Debug)]
pub struct Message {
    pub id: i32,
    pub text: String,
}

/// What a `Message` holds, as mathematical values.
pub ghost struct MessageView {
    pub id: i32,
    pub text: Seq<char>,
}

impl View for Message {
    type V = MessageView;

    open spec fn view(&self) -> MessageView {
        MessageView { id: self.id, text: self.text@ }
    }
}

} // verus!
