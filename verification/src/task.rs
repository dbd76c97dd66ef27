//! Task attributes that a sync configuration can preset.

use vstd::prelude::*;

verus! {

/// Urgency of a task, from `P1` (most urgent) to `P4` (least urgent).
#[derive(Clone, Copy, Debug, PartialEq, Eq, Hash)]
pub enum TaskPriority {
    P1,
    P2,
    P3,
    P4,
}

impl TaskPriority {
    /// The priority used where none was chosen: the least urgent one.
    pub open spec fn lowest_urgency() -> TaskPriority {
        TaskPriority::P4
    }
}

impl Default for TaskPriority {
    fn default() -> (priority: TaskPriority)
        ensures
            priority == TaskPriority::lowest_urgency(),
    {
        TaskPriority::P4
    }
}

/// A due date given relative to the day a task is created.
#[derive(Clone, Copy, Debug, PartialEq, Eq, Hash)]
pub enum PresetDueDate {
    Today,
    Tomorrow,
    ThisWeekend,
    NextWeek,
}

/// A project of the task service: its identifier there and its display name.
#[derive(Clone, Debug, PartialEq, Eq, Hash)]
pub struct ProjectSummary {
    pub source_id: String,
    pub name: String,
}

/// What a [`ProjectSummary`] holds.
pub struct ProjectSummaryView {
    pub source_id: Seq<char>,
    pub name: Seq<char>,
}

impl View for ProjectSummary {
    type V = ProjectSummaryView;

    open spec fn view(&self) -> ProjectSummaryView {
        ProjectSummaryView { source_id: self.source_id@, name: self.name@ }
    }
}

impl DeepView for ProjectSummary {
    type V = ProjectSummaryView;

    open spec fn deep_view(&self) -> ProjectSummaryView {
        self@
    }
}

} // verus!
