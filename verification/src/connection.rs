//! Connections to outside services, as a sync process reports them.

use vstd::prelude::*;
use crate::time::Timestamp;

verus! {

/// The kind of outside service behind a connection: its display name and what
/// it can serve as. A service may feed notifications, hold tasks, both or
/// neither.
#[derive(Clone, Debug, PartialEq, Eq, Hash)]
pub struct ProviderKind {
    pub name: String,
    pub is_notification_service: bool,
    pub is_task_service: bool,
}

/// What a [`ProviderKind`] holds.
pub struct ProviderKindView {
    pub name: Seq<char>,
    pub is_notification_service: bool,
    pub is_task_service: bool,
}

impl View for ProviderKind {
    type V = ProviderKindView;

    open spec fn view(&self) -> ProviderKindView {
        ProviderKindView {
            name: self.name@,
            is_notification_service: self.is_notification_service,
            is_task_service: self.is_task_service,
        }
    }
}

/// Where a connection stands: just created, validated at least once, or
/// failing.
#[derive(Clone, Copy, Debug, PartialEq, Eq, Hash)]
pub enum IntegrationConnectionStatus {
    Created,
    Validated,
    Failing,
}

/// One connection to an outside service.
///
/// `failure_message` describes a failure of the connection itself and is
/// meaningful only while the status is `Failing`. `last_sync_failure_message`
/// describes the failure of the most recent synchronization and may be set
/// whatever the status: a validated connection can carry the message of an
/// earlier failed attempt.
#[derive(Clone, Debug, PartialEq, Eq)]
pub struct IntegrationConnection {
    pub provider_kind: ProviderKind,
    pub status: IntegrationConnectionStatus,
    pub last_sync_started_at: Option<Timestamp>,
    pub last_sync_failure_message: Option<String>,
    pub failure_message: Option<String>,
}

/// What an [`IntegrationConnection`] holds.
pub struct ConnectionView {
    pub provider_kind: ProviderKindView,
    pub status: IntegrationConnectionStatus,
    pub last_sync_started_at: Option<Timestamp>,
    pub last_sync_failure_message: Option<Seq<char>>,
    pub failure_message: Option<Seq<char>>,
}

impl ConnectionView {
    /// A connection is connected once it has been validated.
    pub open spec fn is_connected(self) -> bool {
        self.status is Validated
    }

    /// A connected connection to a service that holds tasks.
    pub open spec fn is_connected_task_service(self) -> bool {
        self.is_connected() && self.provider_kind.is_task_service
    }

    /// A connected connection whose last synchronization left no failure.
    pub open spec fn is_synced(self) -> bool {
        self.is_connected() && self.last_sync_failure_message is None
    }
}

impl View for IntegrationConnection {
    type V = ConnectionView;

    open spec fn view(&self) -> ConnectionView {
        ConnectionView {
            provider_kind: self.provider_kind@,
            status: self.status,
            last_sync_started_at: self.last_sync_started_at,
            last_sync_failure_message: self.last_sync_failure_message.deep_view(),
            failure_message: self.failure_message.deep_view(),
        }
    }
}

impl DeepView for IntegrationConnection {
    type V = ConnectionView;

    open spec fn deep_view(&self) -> ConnectionView {
        self@
    }
}

impl IntegrationConnection {
    /// Whether the connection has been validated.
    pub fn is_connected(&self) -> (connected: bool)
        ensures
            connected == self@.is_connected(),
    {
        match self.status {
            IntegrationConnectionStatus::Validated => true,
            _ => false,
        }
    }

    /// Whether the connection has been validated and its last synchronization
    /// left no failure.
    pub fn is_synced(&self) -> (synced: bool)
        ensures
            synced == self@.is_synced(),
    {
        self.is_connected() && self.last_sync_failure_message.is_none()
    }

    /// Whether the connection has been validated and its service holds tasks.
    pub fn is_connected_task_service(&self) -> (connected: bool)
        ensures
            connected == self@.is_connected_task_service(),
    {
        self.is_connected() && self.provider_kind.is_task_service
    }
}

} // verus!
