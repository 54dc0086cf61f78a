//! The fixed feeds behind the two collection endpoints.
//!
//! Both feeds are sample data held in memory. Each call builds the same
//! records in the same order and touches nothing else.

use crate::model::{Notification, NotificationView, Organization, OrganizationView, Severity};
use vstd::prelude::*;

verus! {

/// The records of a list of organizations, in order.
pub open spec fn organization_views(items: Seq<Organization>) -> Seq<OrganizationView> {
    Seq::new(items.len(), |i: int| items[i]@)
}

/// The records of a list of notifications, in order.
pub open spec fn notification_views(items: Seq<Notification>) -> Seq<NotificationView> {
    Seq::new(items.len(), |i: int| items[i]@)
}

/// The three organizations that the service knows, in the order it lists them.
pub open spec fn organizations_feed() -> Seq<OrganizationView> {
    seq![
        OrganizationView {
            id: "550e8400-e29b-41d4-a716-446655440000"@,
            name: "Ritsumeikan Univ."@,
        },
        OrganizationView {
            id: "678f9012-bcd3-4567-8901-234567890123"@,
            name: "Ackunity Team"@,
        },
        OrganizationView {
            id: "bcdef012-3456-789a-bcde-f0123456789a"@,
            name: "Competitive Programming"@,
        },
    ]
}

/// The three notifications that the service shows, in the order it lists them.
pub open spec fn notifications_feed() -> Seq<NotificationView> {
    seq![
        NotificationView {
            id: "1"@,
            org_id: "550e8400-e29b-41d4-a716-446655440000"@,
            source: "MANUAL"@,
            severity: Severity::Critical,
            title: "【重要】ハッカソン最終プレゼンについて"@,
            content: "プレゼン資料の提出期限は本日23:59です。デモ動画のリンクも忘れずに設定してください。未提出の場合は審査対象外となります。"@,
            created_at: "2025-12-19 12:00"@,
            ack_count: Some(12i32),
            view_count: None,
            github_hash: None,
        },
        NotificationView {
            id: "2"@,
            org_id: "ad4fbc32-1234-5678-90ab-cdef12345678"@,
            source: "GITHUB"@,
            severity: Severity::Important,
            title: "New PR: feat/notification-pool"@,
            content: "frontendコンポーネントの実装が完了しました。レビュアーによる承認が必要です。"@,
            created_at: "2025-12-19 11:30"@,
            ack_count: Some(5i32),
            view_count: None,
            github_hash: Some("#82ef12b"@),
        },
        NotificationView {
            id: "3"@,
            org_id: "bcdef012-3456-789a-bcde-f0123456789a"@,
            source: "SYSTEM"@,
            severity: Severity::Info,
            title: "今週のコンテスト案内"@,
            content: "明日の21時からABC（AtCoder Beginner Contest）が開催されます。"@,
            created_at: "2025-12-19 09:00"@,
            ack_count: None,
            view_count: Some(245i32),
            github_hash: None,
        },
    ]
}

/// Answers the notifications endpoint: the fixed feed, whatever was asked before.
pub fn get_notifications() -> (feed: Vec<Notification>)
    ensures
        feed@.len() == 3,
        notification_views(feed@) == notifications_feed(),
{
    let feed = vec![
        Notification {
            id: "1".to_string(),
            org_id: "550e8400-e29b-41d4-a716-446655440000".to_string(),
            source: "MANUAL".to_string(),
            severity: Severity::Critical,
            title: "【重要】ハッカソン最終プレゼンについて".to_string(),
            content: "プレゼン資料の提出期限は本日23:59です。デモ動画のリンクも忘れずに設定してください。未提出の場合は審査対象外となります。".to_string(),
            created_at: "2025-12-19 12:00".to_string(),
            ack_count: Some(12),
            view_count: None,
            github_hash: None,
        },
        Notification {
            id: "2".to_string(),
            org_id: "ad4fbc32-1234-5678-90ab-cdef12345678".to_string(),
            source: "GITHUB".to_string(),
            severity: Severity::Important,
            title: "New PR: feat/notification-pool".to_string(),
            content: "frontendコンポーネントの実装が完了しました。レビュアーによる承認が必要です。".to_string(),
            created_at: "2025-12-19 11:30".to_string(),
            ack_count: Some(5),
            view_count: None,
            github_hash: Some("#82ef12b".to_string()),
        },
        Notification {
            id: "3".to_string(),
            org_id: "bcdef012-3456-789a-bcde-f0123456789a".to_string(),
            source: "SYSTEM".to_string(),
            severity: Severity::Info,
            title: "今週のコンテスト案内".to_string(),
            content: "明日の21時からABC（AtCoder Beginner Contest）が開催されます。".to_string(),
            created_at: "2025-12-19 09:00".to_string(),
            ack_count: None,
            view_count: Some(245),
            github_hash: None,
        },
    ];
    assert(notification_views(feed@) =~= notifications_feed());
    feed
}

/// Answers the organizations endpoint: the fixed feed, whatever was asked before.
pub fn get_organizations() -> (feed: Vec<Organization>)
    ensures
        feed@.len() == 3,
        organization_views(feed@) == organizations_feed(),
{
    let feed = vec![
        Organization {
            id: "550e8400-e29b-41d4-a716-446655440000".to_string(),
            name: "Ritsumeikan Univ.".to_string(),
        },
        Organization {
            id: "678f9012-bcd3-4567-8901-234567890123".to_string(),
            name: "Ackunity Team".to_string(),
        },
        Organization {
            id: "bcdef012-3456-789a-bcde-f0123456789a".to_string(),
            name: "Competitive Programming".to_string(),
        },
    ];
    assert(organization_views(feed@) =~= organizations_feed());
    feed
}

/// Asking for the organizations twice gives the same records in the same
/// order: an answer never depends on an earlier one.
pub proof fn organizations_answers_agree(first: Seq<Organization>, second: Seq<Organization>)
    requires
        organization_views(first) == organizations_feed(),
        organization_views(second) == organizations_feed(),
    ensures
        organization_views(first) == organization_views(second),
        first.len() == second.len(),
        forall|i: int| 0 <= i < first.len() ==> first[i]@ == second[i]@,
{
    assert(organization_views(first).len() == first.len());
    assert(organization_views(second).len() == second.len());
    assert forall|i: int| 0 <= i < first.len() implies first[i]@ == second[i]@ by {
        assert(organization_views(first)[i] == organization_views(second)[i]);
    }
}

/// Asking for the notifications twice gives the same records in the same
/// order: an answer never depends on an earlier one.
pub proof fn notifications_answers_agree(first: Seq<Notification>, second: Seq<Notification>)
    requires
        notification_views(first) == notifications_feed(),
        notification_views(second) == notifications_feed(),
    ensures
        notification_views(first) == notification_views(second),
        first.len() == second.len(),
        forall|i: int| 0 <= i < first.len() ==> first[i]@ == second[i]@,
{
    assert(notification_views(first).len() == first.len());
    assert(notification_views(second).len() == second.len());
    assert forall|i: int| 0 <= i < first.len() implies first[i]@ == second[i]@ by {
        assert(notification_views(first)[i] == notification_views(second)[i]);
    }
}

/// How the three notifications are marked in a response body: the first
/// as critical, the second as important, the third as information.
pub proof fn feed_severities_on_the_wire()
    ensures
        notifications_feed().len() == 3,
        notifications_feed()[0].severity.wire_name() == "critical"@,
        notifications_feed()[1].severity.wire_name() == "important"@,
        notifications_feed()[2].severity.wire_name() == "info"@,
{
}

} // verus!
