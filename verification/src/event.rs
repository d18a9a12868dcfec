//! Events, and the steps in which they are dealt with.

use crate::hypr::{
    Address, HyprClient, HyprWorkspace, HyprWorkspaceView, Monitor, WorkspaceType,
};
use crate::update::{Reaction, ReactionView};
use vstd::prelude::*;

verus! {

/// Something that happened in the compositor.
#[derive(Debug)]
pub enum Event {
    WorkspaceAdded(WorkspaceType),
    WorkspaceChanged(WorkspaceType),
    /// Another monitor is active, and shows this workspace.
    ActiveMonitorChanged(Option<WorkspaceType>),
    WorkspaceMoved(WorkspaceType),
    WorkspaceRenamed { id: i32, name: String },
    WorkspaceDeleted(i32),
    UrgentStateChanged(Address),
    WindowOpened { address: Address, workspace_name: String, class: String },
    WindowClosed(Address),
    WindowMoved { address: Address, workspace: WorkspaceType },
    ActiveWindowChanged(Option<ActiveWindow>),
}

/// The window that became active.
#[derive(Debug)]
pub struct ActiveWindow {
    pub address: Address,
    pub class: String,
}

/// What a workspace is looked up for.
#[derive(Debug)]
pub enum Trigger {
    /// The workspace was added.
    Added,
    /// The workspace became the active one.
    Changed,
    /// The workspace was moved to another monitor.
    Moved,
    /// A window was opened on the workspace.
    WindowOpened { address: Address, workspace_name: String, class: String },
    /// A window was moved to the workspace.
    WindowMoved { address: Address },
}

/// What a [`Trigger`] holds.
pub enum TriggerView {
    Added,
    Changed,
    Moved,
    WindowOpened { address: Seq<char>, workspace_name: Seq<char>, class: Seq<char> },
    WindowMoved { address: Seq<char> },
}

impl View for Trigger {
    type V = TriggerView;

    open spec fn view(&self) -> TriggerView {
        match *self {
            Trigger::Added => TriggerView::Added,
            Trigger::Changed => TriggerView::Changed,
            Trigger::Moved => TriggerView::Moved,
            Trigger::WindowOpened { address, workspace_name, class } => TriggerView::WindowOpened {
                address: address@,
                workspace_name: workspace_name@,
                class: class@,
            },
            Trigger::WindowMoved { address } => TriggerView::WindowMoved { address: address@ },
        }
    }
}

/// A workspace to look up by its name.
#[derive(Debug)]
pub struct Search {
    pub trigger: Trigger,
    pub name: String,
}

/// A workspace that was looked up, and of which it is open whether a monitor shows it.
#[derive(Debug)]
pub struct Found {
    pub trigger: Trigger,
    pub workspace: HyprWorkspace,
}

/// What Hyprland answers when it is asked.
#[derive(Debug)]
pub struct Answers {
    pub workspaces: Result<Vec<HyprWorkspace>, String>,
    pub monitors: Result<Vec<Monitor>, String>,
    pub clients: Result<Vec<HyprClient>, String>,
}

/// What comes next.
#[derive(Debug)]
pub enum Step {
    /// Ask for the workspaces, and go on with [`crate::client::Client::with_workspaces`].
    AskWorkspaces(Search),
    /// Ask for the monitors, and go on with [`crate::client::Client::with_monitors`].
    AskMonitors(Found),
    /// Ask for the windows, and go on with [`crate::client::Client::with_clients`].
    AskClients(Address),
    /// The event is dealt with.
    Done(Reaction),
}

/// What a [`Step`] holds.
#[verifier::ext_equal]
pub enum StepView {
    AskWorkspaces { trigger: TriggerView, name: Seq<char> },
    AskMonitors { trigger: TriggerView, workspace: HyprWorkspaceView },
    AskClients { address: Seq<char> },
    Done(ReactionView),
}

impl View for Step {
    type V = StepView;

    open spec fn view(&self) -> StepView {
        match *self {
            Step::AskWorkspaces(search) => StepView::AskWorkspaces {
                trigger: search.trigger@,
                name: search.name@,
            },
            Step::AskMonitors(found) => StepView::AskMonitors {
                trigger: found.trigger@,
                workspace: found.workspace@,
            },
            Step::AskClients(address) => StepView::AskClients { address: address@ },
            Step::Done(reaction) => StepView::Done(reaction@),
        }
    }
}

} // verus!
