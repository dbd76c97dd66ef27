//! Health signals derived from integration connections.
//!
//! [`aggregate_health`] yields the warning that concerns the inbox as a whole,
//! [`connection_status`] the severity and diagnostic of one connection.

use vstd::prelude::*;
use vstd::string::*;
use crate::connection::{ConnectionView, IntegrationConnection, IntegrationConnectionStatus};
use crate::time::{rfc3339_text, UtcOffset};

verus! {

/// How a connection's diagnostic is to be read.
#[derive(Clone, Copy, Debug, PartialEq, Eq, Hash)]
pub enum Severity {
    Success,
    Error,
}

/// Whether some connection of `connections` is connected.
pub open spec fn any_connected(connections: Seq<ConnectionView>) -> bool {
    exists|i: int| 0 <= i < connections.len() && (#[trigger] connections[i]).is_connected()
}

/// Whether some connection of `connections` is a connected task service.
pub open spec fn any_connected_task_service(connections: Seq<ConnectionView>) -> bool {
    exists|i: int|
        0 <= i < connections.len() && (#[trigger] connections[i]).is_connected_task_service()
}

/// The warning that `connections` as a whole call for, if any. The checks
/// apply in this order, so a set without any connection gets the first.
pub open spec fn health_warning(connections: Seq<ConnectionView>) -> Option<Seq<char>> {
    if !any_connected(connections) {
        Some("No integration connected"@)
    } else if !any_connected_task_service(connections) {
        Some("No task management integration connected"@)
    } else {
        None
    }
}

/// The inbox-wide warning for a snapshot of the connections.
///
/// Warns when nothing is connected, else when no task service is connected,
/// and is silent as soon as one connected task service is present.
pub fn aggregate_health(connections: &[IntegrationConnection]) -> (warning: Option<&'static str>)
    ensures
        warning.deep_view() == health_warning(connections.deep_view()),
        any_connected_task_service(connections.deep_view()) ==> warning is None,
{
    let ghost views = connections.deep_view();
    let mut connected = false;
    let mut task_service = false;
    let mut i: usize = 0;
    while i < connections.len()
        invariant
            i <= connections.len(),
            views == connections.deep_view(),
            connected <==> exists|j: int| 0 <= j < i && (#[trigger] views[j]).is_connected(),
            task_service <==> exists|j: int|
                0 <= j < i && (#[trigger] views[j]).is_connected_task_service(),
        decreases connections.len() - i,
    {
        let connection = &connections[i];
        assert(views[i as int] == connection@);
        if connection.is_connected() {
            connected = true;
        }
        if connection.is_connected_task_service() {
            task_service = true;
        }
        i += 1;
    }
    proof {
        if any_connected_task_service(views) {
            lemma_connected_task_service_silences_warning(views);
        }
    }
    if !connected {
        Some("No integration connected")
    } else if !task_service {
        Some("No task management integration connected")
    } else {
        None
    }
}

/// Diagnostic of a connection whose last synchronization went well; `at` is
/// the rendered start of that synchronization, if it is known.
pub open spec fn synced_text(provider: Seq<char>, at: Option<Seq<char>>) -> Seq<char> {
    match at {
        Some(at) => provider + " successfully synced at "@ + at,
        None => provider + " successfully synced"@,
    }
}

/// Diagnostic of a failing connection.
pub open spec fn connection_failed_text(message: Option<Seq<char>>) -> Seq<char> {
    match message {
        Some(message) => "Connection failed: "@ + message,
        None => "Connection failed"@,
    }
}

/// Diagnostic of a connection whose last synchronization did not go well.
pub open spec fn sync_failed_text(message: Option<Seq<char>>) -> Seq<char> {
    match message {
        Some(message) => "Failed to sync: "@ + message,
        None => "Failed to sync"@,
    }
}

/// Severity and diagnostic of `connection`, where `synced_at` is the rendered
/// start of its last synchronization.
///
/// The first case that applies decides: a validated connection without a
/// sync failure is a success; a failing connection reports the failure of the
/// connection, whatever the last synchronization left behind; anything else
/// reports the failure of the synchronization.
pub open spec fn status_of(connection: ConnectionView, synced_at: Option<Seq<char>>) -> (
    Severity,
    Seq<char>,
) {
    if connection.is_synced() {
        (Severity::Success, synced_text(connection.provider_kind.name, synced_at))
    } else if connection.status is Failing {
        (Severity::Error, connection_failed_text(connection.failure_message))
    } else {
        (Severity::Error, sync_failed_text(connection.last_sync_failure_message))
    }
}

/// The start of the last synchronization of `connection` as local time
/// `offset` seconds east of UTC, if it is known.
pub open spec fn local_sync_time(connection: ConnectionView, offset: int) -> Option<Seq<char>> {
    match connection.last_sync_started_at {
        Some(at) => Some(rfc3339_text(at.secs(), at.nanos(), offset)),
        None => None,
    }
}

/// `head` followed by `tail`.
fn joined(head: &str, tail: &str) -> (text: String)
    ensures
        text@ == head@ + tail@,
{
    let mut text = String::from_str(head);
    text.append(tail);
    text
}

/// `prefix` followed by the message, or `bare` where there is no message.
fn failure_text(prefix: &str, bare: &str, message: &Option<String>) -> (text: String)
    ensures
        text@ == match message.deep_view() {
            Some(message) => prefix@ + message,
            None => bare@,
        },
{
    match message {
        Some(message) => joined(prefix, message.as_str()),
        None => String::from_str(bare),
    }
}

/// Severity and diagnostic of one connection, given the rendered start of its
/// last synchronization.
///
/// `synced_at` is used only in the diagnostic of a success and appears there
/// as it is.
pub fn describe_connection(connection: &IntegrationConnection, synced_at: Option<&str>) -> (status: (
    Severity,
    String,
))
    ensures
        status.0 == status_of(connection@, synced_at.deep_view()).0,
        status.1@ == status_of(connection@, synced_at.deep_view()).1,
{
    match (connection.status, &connection.last_sync_failure_message) {
        (IntegrationConnectionStatus::Validated, None) => {
            let mut text = connection.provider_kind.name.clone();
            match synced_at {
                Some(at) => {
                    text.append(" successfully synced at ");
                    text.append(at);
                },
                None => {
                    text.append(" successfully synced");
                },
            }
            (Severity::Success, text)
        },
        (IntegrationConnectionStatus::Failing, _) => (
            Severity::Error,
            failure_text("Connection failed: ", "Connection failed", &connection.failure_message),
        ),
        (_, message) => (
            Severity::Error,
            failure_text("Failed to sync: ", "Failed to sync", message),
        ),
    }
}

/// Severity and diagnostic of one connection, with the start of its last
/// synchronization rendered as local time in `zone`: RFC 3339, whole seconds,
/// explicit zone suffix.
pub fn connection_status(connection: &IntegrationConnection, zone: UtcOffset) -> (status: (
    Severity,
    String,
))
    ensures
        status.0 == status_of(connection@, local_sync_time(connection@, zone.seconds())).0,
        status.1@ == status_of(connection@, local_sync_time(connection@, zone.seconds())).1,
{
    let rendered = if connection.is_synced() {
        match &connection.last_sync_started_at {
            Some(at) => Some(at.to_rfc3339(zone)),
            None => None,
        }
    } else {
        None
    };
    let synced_at = match &rendered {
        Some(text) => Some(text.as_str()),
        None => None,
    };
    describe_connection(connection, synced_at)
}

/// Whether the provider of `connection` holds tasks (`tasks`) or feeds
/// notifications (`!tasks`).
spec fn serves(connection: ConnectionView, tasks: bool) -> bool {
    if tasks {
        connection.provider_kind.is_task_service
    } else {
        connection.provider_kind.is_notification_service
    }
}

/// The connections whose provider serves as asked, in the order given.
fn services<'a>(connections: &'a [IntegrationConnection], tasks: bool) -> (shown: Vec<
    &'a IntegrationConnection,
>)
    ensures
        shown.deep_view() == connections.deep_view().filter(|c: ConnectionView| serves(c, tasks)),
{
    let ghost views = connections.deep_view();
    let ghost wanted = |c: ConnectionView| serves(c, tasks);
    let mut shown: Vec<&'a IntegrationConnection> = Vec::new();
    let mut i: usize = 0;
    proof {
        reveal(Seq::filter);
        assert(views.take(0).filter(wanted) == shown.deep_view());
    }
    while i < connections.len()
        invariant
            i <= connections.len(),
            views == connections.deep_view(),
            wanted == |c: ConnectionView| serves(c, tasks),
            shown.deep_view() == views.take(i as int).filter(wanted),
        decreases connections.len() - i,
    {
        let connection = &connections[i];
        proof {
            assert(views.take(i + 1) == views.take(i as int).push(connection@));
            views.take(i as int).lemma_filter_push(connection@, wanted);
        }
        let listed = if tasks {
            connection.provider_kind.is_task_service
        } else {
            connection.provider_kind.is_notification_service
        };
        if listed {
            shown.push(connection);
        }
        i += 1;
    }
    proof {
        assert(views.take(i as int) == views);
    }
    shown
}

/// The connections that feed notifications, in the order given.
pub fn notification_services<'a>(connections: &'a [IntegrationConnection]) -> (shown: Vec<
    &'a IntegrationConnection,
>)
    ensures
        shown.deep_view() == connections.deep_view().filter(
            |c: ConnectionView| c.provider_kind.is_notification_service,
        ),
{
    proof {
        assert((|c: ConnectionView| serves(c, false)) =~= (|c: ConnectionView|
            c.provider_kind.is_notification_service));
    }
    services(connections, false)
}

/// The connections to services that hold tasks, in the order given.
pub fn task_services<'a>(connections: &'a [IntegrationConnection]) -> (shown: Vec<
    &'a IntegrationConnection,
>)
    ensures
        shown.deep_view() == connections.deep_view().filter(
            |c: ConnectionView| c.provider_kind.is_task_service,
        ),
{
    proof {
        assert((|c: ConnectionView| serves(c, true)) =~= (|c: ConnectionView|
            c.provider_kind.is_task_service));
    }
    services(connections, true)
}

/// A failing connection reports the failure of the connection, never that of
/// its last synchronization, even where the synchronization left a message.
pub proof fn lemma_connection_failure_takes_precedence(
    connection: ConnectionView,
    synced_at: Option<Seq<char>>,
)
    requires
        connection.status is Failing,
    ensures
        status_of(connection, synced_at) == (
            Severity::Error,
            connection_failed_text(connection.failure_message),
        ),
        status_of(connection, synced_at).1 != sync_failed_text(
            connection.last_sync_failure_message,
        ),
{
    reveal_strlit("Connection failed: ");
    reveal_strlit("Connection failed");
    reveal_strlit("Failed to sync: ");
    reveal_strlit("Failed to sync");
    let reported = connection_failed_text(connection.failure_message);
    let other = sync_failed_text(connection.last_sync_failure_message);
    assert(reported[0] == 'C');
    assert(other[0] == 'F');
}

/// A sync failure recorded on a validated connection is reported: the status
/// alone does not make a success.
pub proof fn lemma_stale_sync_failure_is_reported(
    connection: ConnectionView,
    synced_at: Option<Seq<char>>,
)
    requires
        connection.status is Validated,
        connection.last_sync_failure_message is Some,
    ensures
        status_of(connection, synced_at) == (
            Severity::Error,
            sync_failed_text(connection.last_sync_failure_message),
        ),
{
}

/// Without any connection the warning is that nothing is connected.
pub proof fn lemma_no_connection_warns_first()
    ensures
        health_warning(Seq::empty()) == Some("No integration connected"@),
{
}

/// A connected service that holds no tasks, alone, calls for the warning about
/// task management.
pub proof fn lemma_lone_service_without_tasks_warns(connection: ConnectionView)
    requires
        connection.is_connected(),
        !connection.provider_kind.is_task_service,
    ensures
        health_warning(seq![connection]) == Some("No task management integration connected"@),
{
    assert(seq![connection][0].is_connected());
}

/// What is connected in `a` is connected in `b`, if every connection of `a`
/// occurs in `b`.
proof fn lemma_connected_members_carry_over(a: Seq<ConnectionView>, b: Seq<ConnectionView>)
    requires
        forall|c: ConnectionView| a.contains(c) ==> b.contains(c),
    ensures
        any_connected(a) ==> any_connected(b),
        any_connected_task_service(a) ==> any_connected_task_service(b),
{
    if any_connected(a) {
        let i = choose|i: int| 0 <= i < a.len() && (#[trigger] a[i]).is_connected();
        assert(a.contains(a[i]));
        let j = choose|j: int| 0 <= j < b.len() && b[j] == a[i];
        assert(b[j].is_connected());
    }
    if any_connected_task_service(a) {
        let i = choose|i: int| 0 <= i < a.len() && (#[trigger] a[i]).is_connected_task_service();
        assert(a.contains(a[i]));
        let j = choose|j: int| 0 <= j < b.len() && b[j] == a[i];
        assert(b[j].is_connected_task_service());
    }
}

/// The inbox-wide warning depends on which connections are present, not on
/// their order nor on how often one occurs.
pub proof fn lemma_health_warning_depends_on_members(
    a: Seq<ConnectionView>,
    b: Seq<ConnectionView>,
)
    requires
        forall|c: ConnectionView| a.contains(c) <==> b.contains(c),
    ensures
        health_warning(a) == health_warning(b),
{
    lemma_connected_members_carry_over(a, b);
    lemma_connected_members_carry_over(b, a);
}

/// One connected task service silences the inbox-wide warning.
pub proof fn lemma_connected_task_service_silences_warning(connections: Seq<ConnectionView>)
    requires
        any_connected_task_service(connections),
    ensures
        health_warning(connections) is None,
{
    let i = choose|i: int|
        0 <= i < connections.len() && (#[trigger] connections[i]).is_connected_task_service();
    assert(connections[i].is_connected());
}

} // verus!
