//! Sync configuration of the chat provider and its reconciliation.
//!
//! Saved items are synchronized either as notifications or as tasks. The user
//! edits the configuration one intent at a time; each intent yields a new
//! configuration that differs from the current one only in what the intent
//! targets.

use vstd::prelude::*;
use crate::task::{PresetDueDate, ProjectSummary, ProjectSummaryView, TaskPriority};

verus! {

/// Defaults given to the tasks created from saved items.
#[derive(Clone, Debug, PartialEq, Eq)]
pub struct SlackSyncTaskConfig {
    pub target_project: Option<ProjectSummary>,
    pub default_due_at: Option<PresetDueDate>,
    pub default_priority: TaskPriority,
}

/// What a [`SlackSyncTaskConfig`] holds.
pub struct TaskConfigView {
    pub target_project: Option<ProjectSummaryView>,
    pub default_due_at: Option<PresetDueDate>,
    pub default_priority: TaskPriority,
}

impl TaskConfigView {
    /// The task defaults of a configuration that never had any: no project,
    /// no due date, the least urgent priority.
    pub open spec fn unconfigured() -> TaskConfigView {
        TaskConfigView {
            target_project: None,
            default_due_at: None,
            default_priority: TaskPriority::lowest_urgency(),
        }
    }
}

impl View for SlackSyncTaskConfig {
    type V = TaskConfigView;

    open spec fn view(&self) -> TaskConfigView {
        TaskConfigView {
            target_project: self.target_project.deep_view(),
            default_due_at: self.default_due_at,
            default_priority: self.default_priority,
        }
    }
}

impl Default for SlackSyncTaskConfig {
    fn default() -> (config: SlackSyncTaskConfig)
        ensures
            config@ == TaskConfigView::unconfigured(),
    {
        SlackSyncTaskConfig {
            target_project: None,
            default_due_at: None,
            default_priority: TaskPriority::P4,
        }
    }
}

/// How saved items are synchronized: exactly one mode is active.
#[derive(Clone, Debug, PartialEq, Eq)]
pub enum SlackSyncType {
    AsNotifications,
    AsTasks(SlackSyncTaskConfig),
}

/// What a [`SlackSyncType`] holds.
pub enum SyncTypeView {
    AsNotifications,
    AsTasks(TaskConfigView),
}

impl SyncTypeView {
    /// The task defaults in force: those of tasks mode, or the unconfigured
    /// ones in notifications mode.
    pub open spec fn task_config(self) -> TaskConfigView {
        match self {
            SyncTypeView::AsTasks(config) => config,
            SyncTypeView::AsNotifications => TaskConfigView::unconfigured(),
        }
    }
}

impl View for SlackSyncType {
    type V = SyncTypeView;

    open spec fn view(&self) -> SyncTypeView {
        match self {
            SlackSyncType::AsNotifications => SyncTypeView::AsNotifications,
            SlackSyncType::AsTasks(config) => SyncTypeView::AsTasks(config@),
        }
    }
}

impl SlackSyncType {
    /// The task defaults in force: those held in tasks mode, or fresh ones
    /// when entering tasks mode from notifications mode.
    pub fn into_task_config(self) -> (config: SlackSyncTaskConfig)
        ensures
            config@ == self@.task_config(),
    {
        match self {
            SlackSyncType::AsTasks(config) => config,
            SlackSyncType::AsNotifications => SlackSyncTaskConfig::default(),
        }
    }
}

/// Sync configuration of the provider.
#[derive(Clone, Debug, PartialEq, Eq)]
pub struct SlackConfig {
    /// Master switch of the synchronization; the mode is inert while it is off.
    pub sync_enabled: bool,
    pub sync_type: SlackSyncType,
}

/// What a [`SlackConfig`] holds.
pub struct SlackConfigView {
    pub sync_enabled: bool,
    pub sync_type: SyncTypeView,
}

impl View for SlackConfig {
    type V = SlackConfigView;

    open spec fn view(&self) -> SlackConfigView {
        SlackConfigView { sync_enabled: self.sync_enabled, sync_type: self.sync_type@ }
    }
}

/// One edit that a user can make to a [`SlackConfig`].
#[derive(Clone, Debug, PartialEq, Eq)]
pub enum SyncIntent {
    /// Switch the synchronization on or off.
    SetEnabled(bool),
    /// Synchronize saved items as notifications.
    SelectNotificationsMode,
    /// Synchronize saved items as tasks.
    SelectTasksMode,
    /// Assign created tasks to this project.
    SetTargetProject(ProjectSummary),
    /// Give created tasks this due date, or none.
    SetDefaultDueAt(Option<PresetDueDate>),
    /// Give created tasks this priority; `None` asks for the default one.
    SetDefaultPriority(Option<TaskPriority>),
}

/// What a [`SyncIntent`] holds.
pub enum SyncIntentView {
    SetEnabled(bool),
    SelectNotificationsMode,
    SelectTasksMode,
    SetTargetProject(ProjectSummaryView),
    SetDefaultDueAt(Option<PresetDueDate>),
    SetDefaultPriority(Option<TaskPriority>),
}

impl View for SyncIntent {
    type V = SyncIntentView;

    open spec fn view(&self) -> SyncIntentView {
        match self {
            SyncIntent::SetEnabled(enabled) => SyncIntentView::SetEnabled(*enabled),
            SyncIntent::SelectNotificationsMode => SyncIntentView::SelectNotificationsMode,
            SyncIntent::SelectTasksMode => SyncIntentView::SelectTasksMode,
            SyncIntent::SetTargetProject(project) => SyncIntentView::SetTargetProject(project@),
            SyncIntent::SetDefaultDueAt(due) => SyncIntentView::SetDefaultDueAt(*due),
            SyncIntent::SetDefaultPriority(priority) => SyncIntentView::SetDefaultPriority(
                *priority,
            ),
        }
    }
}

impl SlackConfigView {
    /// Whether the task defaults are in force, that is, whether tasks mode is
    /// the active one.
    pub open spec fn task_config_enabled(self) -> bool {
        self.sync_type is AsTasks
    }

    /// The configuration with the master switch set to `enabled`.
    pub open spec fn set_enabled(self, enabled: bool) -> SlackConfigView {
        SlackConfigView { sync_enabled: enabled, ..self }
    }

    /// The configuration in notifications mode; task defaults are dropped.
    pub open spec fn select_notifications_mode(self) -> SlackConfigView {
        SlackConfigView { sync_type: SyncTypeView::AsNotifications, ..self }
    }

    /// The configuration in tasks mode, with the task defaults it had there
    /// or, coming from notifications mode, the unconfigured ones.
    pub open spec fn select_tasks_mode(self) -> SlackConfigView {
        SlackConfigView { sync_type: SyncTypeView::AsTasks(self.sync_type.task_config()), ..self }
    }

    /// The configuration in tasks mode with `project` as the target project.
    pub open spec fn set_target_project(self, project: ProjectSummaryView) -> SlackConfigView {
        SlackConfigView {
            sync_type: SyncTypeView::AsTasks(
                TaskConfigView { target_project: Some(project), ..self.sync_type.task_config() },
            ),
            ..self
        }
    }

    /// The configuration in tasks mode with `due` as the default due date.
    pub open spec fn set_default_due_at(self, due: Option<PresetDueDate>) -> SlackConfigView {
        SlackConfigView {
            sync_type: SyncTypeView::AsTasks(
                TaskConfigView { default_due_at: due, ..self.sync_type.task_config() },
            ),
            ..self
        }
    }

    /// The configuration in tasks mode with `priority` as the default
    /// priority, or the least urgent one where `priority` is `None`.
    pub open spec fn set_default_priority(self, priority: Option<TaskPriority>) -> SlackConfigView {
        SlackConfigView {
            sync_type: SyncTypeView::AsTasks(
                TaskConfigView {
                    default_priority: match priority {
                        Some(chosen) => chosen,
                        None => TaskPriority::lowest_urgency(),
                    },
                    ..self.sync_type.task_config()
                },
            ),
            ..self
        }
    }

    /// The configuration that follows `self` under `intent`.
    pub open spec fn apply(self, intent: SyncIntentView) -> SlackConfigView {
        match intent {
            SyncIntentView::SetEnabled(enabled) => self.set_enabled(enabled),
            SyncIntentView::SelectNotificationsMode => self.select_notifications_mode(),
            SyncIntentView::SelectTasksMode => self.select_tasks_mode(),
            SyncIntentView::SetTargetProject(project) => self.set_target_project(project),
            SyncIntentView::SetDefaultDueAt(due) => self.set_default_due_at(due),
            SyncIntentView::SetDefaultPriority(priority) => self.set_default_priority(priority),
        }
    }
}

impl SlackConfig {
    /// Whether the task defaults are in force. Derived from the mode on every
    /// read; there is no stored flag that could disagree with it.
    pub fn task_config_enabled(&self) -> (enabled: bool)
        ensures
            enabled == self@.task_config_enabled(),
    {
        match &self.sync_type {
            SlackSyncType::AsTasks(_) => true,
            SlackSyncType::AsNotifications => false,
        }
    }

    /// Switches the synchronization on or off and leaves the mode alone.
    pub fn set_enabled(self, enabled: bool) -> (next: SlackConfig)
        ensures
            next@ == self@.set_enabled(enabled),
    {
        SlackConfig { sync_enabled: enabled, sync_type: self.sync_type }
    }

    /// Selects notifications mode. Task defaults held so far are dropped.
    pub fn select_notifications_mode(self) -> (next: SlackConfig)
        ensures
            next@ == self@.select_notifications_mode(),
    {
        SlackConfig { sync_enabled: self.sync_enabled, sync_type: SlackSyncType::AsNotifications }
    }

    /// Selects tasks mode. Task defaults are kept if the configuration was in
    /// tasks mode already, and start unconfigured otherwise.
    pub fn select_tasks_mode(self) -> (next: SlackConfig)
        ensures
            next@ == self@.select_tasks_mode(),
    {
        let tasks = self.sync_type.into_task_config();
        SlackConfig { sync_enabled: self.sync_enabled, sync_type: SlackSyncType::AsTasks(tasks) }
    }

    /// Sets the project that created tasks are assigned to, entering tasks
    /// mode if need be.
    pub fn set_target_project(self, project: ProjectSummary) -> (next: SlackConfig)
        ensures
            next@ == self@.set_target_project(project@),
    {
        let tasks = self.sync_type.into_task_config();
        SlackConfig {
            sync_enabled: self.sync_enabled,
            sync_type: SlackSyncType::AsTasks(
                SlackSyncTaskConfig {
                    target_project: Some(project),
                    default_due_at: tasks.default_due_at,
                    default_priority: tasks.default_priority,
                },
            ),
        }
    }

    /// Sets the due date that created tasks get, entering tasks mode if need
    /// be.
    pub fn set_default_due_at(self, due: Option<PresetDueDate>) -> (next: SlackConfig)
        ensures
            next@ == self@.set_default_due_at(due),
    {
        let tasks = self.sync_type.into_task_config();
        SlackConfig {
            sync_enabled: self.sync_enabled,
            sync_type: SlackSyncType::AsTasks(
                SlackSyncTaskConfig {
                    target_project: tasks.target_project,
                    default_due_at: due,
                    default_priority: tasks.default_priority,
                },
            ),
        }
    }

    /// Sets the priority that created tasks get, entering tasks mode if need
    /// be. Without a chosen priority the least urgent one is set: the field is
    /// never left empty.
    pub fn set_default_priority(self, priority: Option<TaskPriority>) -> (next: SlackConfig)
        ensures
            next@ == self@.set_default_priority(priority),
    {
        let tasks = self.sync_type.into_task_config();
        let chosen = match priority {
            Some(chosen) => chosen,
            None => TaskPriority::default(),
        };
        SlackConfig {
            sync_enabled: self.sync_enabled,
            sync_type: SlackSyncType::AsTasks(
                SlackSyncTaskConfig {
                    target_project: tasks.target_project,
                    default_due_at: tasks.default_due_at,
                    default_priority: chosen,
                },
            ),
        }
    }

    /// Reconciles the configuration with one user intent.
    pub fn apply(self, intent: SyncIntent) -> (next: SlackConfig)
        ensures
            next@ == self@.apply(intent@),
    {
        match intent {
            SyncIntent::SetEnabled(enabled) => self.set_enabled(enabled),
            SyncIntent::SelectNotificationsMode => self.select_notifications_mode(),
            SyncIntent::SelectTasksMode => self.select_tasks_mode(),
            SyncIntent::SetTargetProject(project) => self.set_target_project(project),
            SyncIntent::SetDefaultDueAt(due) => self.set_default_due_at(due),
            SyncIntent::SetDefaultPriority(priority) => self.set_default_priority(priority),
        }
    }
}

/// Selecting tasks mode twice in a row gives what selecting it once gives:
/// the second selection finds tasks mode and keeps its defaults.
pub proof fn lemma_select_tasks_mode_is_idempotent(config: SlackConfigView)
    ensures
        config.select_tasks_mode().select_tasks_mode() == config.select_tasks_mode(),
        config.apply(SyncIntentView::SelectTasksMode).apply(SyncIntentView::SelectTasksMode)
            == config.apply(SyncIntentView::SelectTasksMode),
{
}

/// Leaving tasks mode and coming back, with no edit in between, loses the
/// task defaults: the configuration returns unconfigured, whatever project,
/// due date or priority it held before.
pub proof fn lemma_mode_switch_resets_task_config(config: SlackConfigView)
    ensures
        config.select_notifications_mode().select_tasks_mode() == (SlackConfigView {
            sync_enabled: config.sync_enabled,
            sync_type: SyncTypeView::AsTasks(TaskConfigView::unconfigured()),
        }),
        config.select_notifications_mode().select_tasks_mode().sync_type.task_config().target_project
            is None,
{
}

/// Setting the default priority without choosing one sets the least urgent
/// priority.
pub proof fn lemma_missing_priority_becomes_lowest_urgency(config: SlackConfigView)
    ensures
        config.set_default_priority(None).sync_type == SyncTypeView::AsTasks(
            TaskConfigView {
                default_priority: TaskPriority::P4,
                ..config.sync_type.task_config()
            },
        ),
        config.set_default_priority(None) == config.set_default_priority(Some(TaskPriority::P4)),
{
}

/// In tasks mode, setting the default priority changes the default priority
/// and nothing else.
pub proof fn lemma_set_default_priority_keeps_other_fields(
    config: SlackConfigView,
    tasks: TaskConfigView,
    priority: TaskPriority,
)
    requires
        config.sync_type == SyncTypeView::AsTasks(tasks),
    ensures
        config.set_default_priority(Some(priority)) == (SlackConfigView {
            sync_enabled: config.sync_enabled,
            sync_type: SyncTypeView::AsTasks(
                TaskConfigView {
                    target_project: tasks.target_project,
                    default_due_at: tasks.default_due_at,
                    default_priority: priority,
                },
            ),
        }),
{
}

/// Every intent leaves alone what it does not target.
///
/// Only `SetEnabled` changes the master switch, and it changes nothing else. Of the
/// task defaults in force, each is changed only by the intent that sets it and
/// by the selection of notifications mode, which drops them all.
pub proof fn lemma_apply_keeps_untargeted_fields(config: SlackConfigView, intent: SyncIntentView)
    ensures
        intent !is SetEnabled ==> config.apply(intent).sync_enabled == config.sync_enabled,
        intent is SetEnabled ==> config.apply(intent).sync_type == config.sync_type,
        intent !is SelectNotificationsMode && intent !is SetTargetProject ==> config.apply(
            intent,
        ).sync_type.task_config().target_project == config.sync_type.task_config().target_project,
        intent !is SelectNotificationsMode && intent !is SetDefaultDueAt ==> config.apply(
            intent,
        ).sync_type.task_config().default_due_at == config.sync_type.task_config().default_due_at,
        intent !is SelectNotificationsMode && intent !is SetDefaultPriority ==> config.apply(
            intent,
        ).sync_type.task_config().default_priority
            == config.sync_type.task_config().default_priority,
{
}

/// The mode after an intent: unchanged by `SetEnabled`, notifications mode
/// after its selection, tasks mode after every other intent.
pub proof fn lemma_mode_after_intent(config: SlackConfigView, intent: SyncIntentView)
    ensures
        config.apply(intent).task_config_enabled() == match intent {
            SyncIntentView::SetEnabled(_) => config.task_config_enabled(),
            SyncIntentView::SelectNotificationsMode => false,
            _ => true,
        },
{
}

} // verus!
