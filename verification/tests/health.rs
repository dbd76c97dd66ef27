use inbox_integrations::connection::{
    IntegrationConnection, IntegrationConnectionStatus, ProviderKind,
};
use inbox_integrations::health::{
    aggregate_health, connection_status, describe_connection, notification_services,
    task_services, Severity,
};
use inbox_integrations::time::{Timestamp, UtcOffset};

fn kind(name: &str, notifications: bool, tasks: bool) -> ProviderKind {
    ProviderKind {
        name: name.to_string(),
        is_notification_service: notifications,
        is_task_service: tasks,
    }
}

fn connection(
    provider_kind: ProviderKind,
    status: IntegrationConnectionStatus,
) -> IntegrationConnection {
    IntegrationConnection {
        provider_kind,
        status,
        last_sync_started_at: None,
        last_sync_failure_message: None,
        failure_message: None,
    }
}

fn chat(status: IntegrationConnectionStatus) -> IntegrationConnection {
    connection(kind("Slack", true, false), status)
}

fn todo(status: IntegrationConnectionStatus) -> IntegrationConnection {
    connection(kind("Todoist", false, true), status)
}

fn noon() -> Timestamp {
    Timestamp::new(1_714_564_800, 0).expect("representable instant")
}

fn east(seconds: i32) -> UtcOffset {
    UtcOffset::east(seconds).expect("offset in range")
}

fn names(shown: &[&IntegrationConnection]) -> Vec<String> {
    shown.iter().map(|c| c.provider_kind.name.clone()).collect()
}

#[test]
fn no_connection_at_all_warns_that_nothing_is_connected() {
    assert_eq!(aggregate_health(&[]), Some("No integration connected"));
}

#[test]
fn connections_never_validated_warn_that_nothing_is_connected() {
    let connections = vec![
        chat(IntegrationConnectionStatus::Created),
        todo(IntegrationConnectionStatus::Failing),
        todo(IntegrationConnectionStatus::Created),
    ];
    assert_eq!(aggregate_health(&connections), Some("No integration connected"));
}

#[test]
fn one_validated_notification_service_warns_about_task_management() {
    let connections = vec![chat(IntegrationConnectionStatus::Validated)];
    assert_eq!(
        aggregate_health(&connections),
        Some("No task management integration connected")
    );
}

#[test]
fn a_task_service_that_is_not_connected_does_not_count() {
    let connections = vec![
        todo(IntegrationConnectionStatus::Failing),
        chat(IntegrationConnectionStatus::Validated),
        todo(IntegrationConnectionStatus::Created),
    ];
    assert_eq!(
        aggregate_health(&connections),
        Some("No task management integration connected")
    );
}

#[test]
fn a_connected_task_service_silences_the_warning() {
    assert_eq!(aggregate_health(&[todo(IntegrationConnectionStatus::Validated)]), None);
    let connections = vec![
        chat(IntegrationConnectionStatus::Failing),
        chat(IntegrationConnectionStatus::Created),
        todo(IntegrationConnectionStatus::Validated),
    ];
    assert_eq!(aggregate_health(&connections), None);
    let connections = vec![
        todo(IntegrationConnectionStatus::Validated),
        chat(IntegrationConnectionStatus::Validated),
    ];
    assert_eq!(aggregate_health(&connections), None);
}

#[test]
fn a_service_of_both_kinds_counts_as_task_service() {
    let both = connection(kind("Linear", true, true), IntegrationConnectionStatus::Validated);
    assert_eq!(aggregate_health(&[both]), None);
}

#[test]
fn a_service_of_neither_kind_is_still_connected() {
    let neither = connection(kind("Notion", false, false), IntegrationConnectionStatus::Validated);
    assert!(neither.is_connected());
    assert!(!neither.is_connected_task_service());
    assert_eq!(aggregate_health(&[neither]), Some("No task management integration connected"));
}

#[test]
fn connected_means_validated() {
    assert!(!chat(IntegrationConnectionStatus::Created).is_connected());
    assert!(chat(IntegrationConnectionStatus::Validated).is_connected());
    assert!(!chat(IntegrationConnectionStatus::Failing).is_connected());
    assert!(!chat(IntegrationConnectionStatus::Validated).is_connected_task_service());
    assert!(todo(IntegrationConnectionStatus::Validated).is_connected_task_service());
    assert!(!todo(IntegrationConnectionStatus::Failing).is_connected_task_service());
}

#[test]
fn synced_means_validated_without_sync_failure() {
    let mut c = chat(IntegrationConnectionStatus::Validated);
    assert!(c.is_synced());
    c.failure_message = Some("left over".to_string());
    assert!(c.is_synced());
    c.last_sync_failure_message = Some("timeout".to_string());
    assert!(!c.is_synced());
    assert!(!chat(IntegrationConnectionStatus::Created).is_synced());
    assert!(!chat(IntegrationConnectionStatus::Failing).is_synced());
}

#[test]
fn success_names_the_provider_and_the_local_time() {
    let mut c = chat(IntegrationConnectionStatus::Validated);
    c.last_sync_started_at = Some(noon());
    assert_eq!(
        connection_status(&c, east(7_200)),
        (Severity::Success, "Slack successfully synced at 2024-05-01T14:00:00+02:00".to_string())
    );
    assert_eq!(
        connection_status(&c, UtcOffset::utc()),
        (Severity::Success, "Slack successfully synced at 2024-05-01T12:00:00Z".to_string())
    );
    assert_eq!(
        connection_status(&c, east(-18_000)),
        (Severity::Success, "Slack successfully synced at 2024-05-01T07:00:00-05:00".to_string())
    );
}

#[test]
fn success_without_a_start_time_is_shorter() {
    let c = todo(IntegrationConnectionStatus::Validated);
    assert_eq!(
        connection_status(&c, east(7_200)),
        (Severity::Success, "Todoist successfully synced".to_string())
    );
}

#[test]
fn success_ignores_a_connection_failure_message() {
    let mut c = chat(IntegrationConnectionStatus::Validated);
    c.failure_message = Some("left over".to_string());
    assert_eq!(
        connection_status(&c, UtcOffset::utc()),
        (Severity::Success, "Slack successfully synced".to_string())
    );
}

#[test]
fn failing_connection_reports_its_failure() {
    let mut c = chat(IntegrationConnectionStatus::Failing);
    c.failure_message = Some("token revoked".to_string());
    assert_eq!(
        connection_status(&c, UtcOffset::utc()),
        (Severity::Error, "Connection failed: token revoked".to_string())
    );
}

#[test]
fn failing_connection_without_message_reports_the_bare_failure() {
    let c = chat(IntegrationConnectionStatus::Failing);
    assert_eq!(
        connection_status(&c, UtcOffset::utc()),
        (Severity::Error, "Connection failed".to_string())
    );
}

#[test]
fn connection_failure_takes_precedence_over_sync_failure() {
    let mut c = chat(IntegrationConnectionStatus::Failing);
    c.last_sync_started_at = Some(noon());
    c.last_sync_failure_message = Some("rate limited".to_string());
    c.failure_message = Some("token revoked".to_string());
    assert_eq!(
        connection_status(&c, east(3_600)),
        (Severity::Error, "Connection failed: token revoked".to_string())
    );
    c.failure_message = None;
    assert_eq!(
        connection_status(&c, east(3_600)),
        (Severity::Error, "Connection failed".to_string())
    );
}

#[test]
fn stale_sync_failure_overrides_validation() {
    let mut c = chat(IntegrationConnectionStatus::Validated);
    c.last_sync_started_at = Some(noon());
    c.last_sync_failure_message = Some("rate limited".to_string());
    assert_eq!(
        connection_status(&c, UtcOffset::utc()),
        (Severity::Error, "Failed to sync: rate limited".to_string())
    );
}

#[test]
fn created_connection_reports_a_sync_failure() {
    let mut c = chat(IntegrationConnectionStatus::Created);
    assert_eq!(
        connection_status(&c, UtcOffset::utc()),
        (Severity::Error, "Failed to sync".to_string())
    );
    c.last_sync_failure_message = Some("never ran".to_string());
    c.failure_message = Some("ignored".to_string());
    assert_eq!(
        connection_status(&c, UtcOffset::utc()),
        (Severity::Error, "Failed to sync: never ran".to_string())
    );
}

#[test]
fn empty_messages_are_still_messages() {
    let mut c = chat(IntegrationConnectionStatus::Failing);
    c.failure_message = Some(String::new());
    assert_eq!(
        connection_status(&c, UtcOffset::utc()),
        (Severity::Error, "Connection failed: ".to_string())
    );
    let mut c = chat(IntegrationConnectionStatus::Validated);
    c.last_sync_failure_message = Some(String::new());
    assert_eq!(
        connection_status(&c, UtcOffset::utc()),
        (Severity::Error, "Failed to sync: ".to_string())
    );
}

#[test]
fn describe_connection_shows_the_given_time_as_it_is() {
    let c = chat(IntegrationConnectionStatus::Validated);
    assert_eq!(
        describe_connection(&c, Some("half past nine")),
        (Severity::Success, "Slack successfully synced at half past nine".to_string())
    );
    assert_eq!(
        describe_connection(&c, Some("")),
        (Severity::Success, "Slack successfully synced at ".to_string())
    );
    assert_eq!(
        describe_connection(&c, None),
        (Severity::Success, "Slack successfully synced".to_string())
    );
}

#[test]
fn describe_connection_uses_the_time_only_for_a_success() {
    let mut c = chat(IntegrationConnectionStatus::Failing);
    c.failure_message = Some("token revoked".to_string());
    assert_eq!(
        describe_connection(&c, Some("half past nine")),
        (Severity::Error, "Connection failed: token revoked".to_string())
    );
    let mut c = chat(IntegrationConnectionStatus::Validated);
    c.last_sync_failure_message = Some("rate limited".to_string());
    assert_eq!(
        describe_connection(&c, Some("half past nine")),
        (Severity::Error, "Failed to sync: rate limited".to_string())
    );
}

#[test]
fn connection_status_is_describe_connection_on_the_rendered_time() {
    let mut c = chat(IntegrationConnectionStatus::Validated);
    c.last_sync_started_at = Some(noon());
    let zone = east(19_800);
    assert_eq!(
        connection_status(&c, zone),
        describe_connection(&c, Some(&noon().to_rfc3339(zone)))
    );
}

#[test]
fn provider_name_is_used_as_it_is() {
    let c = connection(kind("", true, false), IntegrationConnectionStatus::Validated);
    assert_eq!(
        connection_status(&c, UtcOffset::utc()),
        (Severity::Success, " successfully synced".to_string())
    );
    let c = connection(kind("Google Mail", true, false), IntegrationConnectionStatus::Validated);
    assert_eq!(
        connection_status(&c, UtcOffset::utc()),
        (Severity::Success, "Google Mail successfully synced".to_string())
    );
}

#[test]
fn services_are_listed_by_kind_in_the_order_given() {
    let connections = vec![
        connection(kind("Github", true, false), IntegrationConnectionStatus::Validated),
        connection(kind("Todoist", false, true), IntegrationConnectionStatus::Failing),
        connection(kind("Notion", false, false), IntegrationConnectionStatus::Validated),
        connection(kind("Linear", true, true), IntegrationConnectionStatus::Created),
        connection(kind("Slack", true, false), IntegrationConnectionStatus::Failing),
    ];
    assert_eq!(names(&notification_services(&connections)), ["Github", "Linear", "Slack"]);
    assert_eq!(names(&task_services(&connections)), ["Todoist", "Linear"]);
}

#[test]
fn listing_services_of_nothing_gives_nothing() {
    assert!(notification_services(&[]).is_empty());
    assert!(task_services(&[]).is_empty());
    let only_tasks = vec![todo(IntegrationConnectionStatus::Validated)];
    assert!(notification_services(&only_tasks).is_empty());
    assert_eq!(task_services(&only_tasks), [&only_tasks[0]]);
}

#[test]
fn the_warning_ignores_order_and_repetition() {
    let a = chat(IntegrationConnectionStatus::Validated);
    let b = todo(IntegrationConnectionStatus::Failing);
    let c = todo(IntegrationConnectionStatus::Validated);
    let without_tasks = [
        vec![a.clone(), b.clone()],
        vec![b.clone(), a.clone()],
        vec![b.clone(), a.clone(), b.clone(), a.clone()],
    ];
    for connections in without_tasks {
        assert_eq!(
            aggregate_health(&connections),
            Some("No task management integration connected")
        );
    }
    let with_tasks = [
        vec![a.clone(), b.clone(), c.clone()],
        vec![c.clone(), b.clone(), a.clone()],
        vec![b.clone(), c.clone(), c.clone(), a.clone(), b.clone()],
    ];
    for connections in with_tasks {
        assert_eq!(aggregate_health(&connections), None);
    }
}
