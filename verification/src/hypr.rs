//! What Hyprland reports about its windows, workspaces, monitors and keyboards.

use vstd::prelude::*;

verus! {

/// The address by which Hyprland names a window, such as `0x55d3c0ffee00`.
#[derive(Debug, Eq)]
pub struct Address(pub String);

impl View for Address {
    type V = Seq<char>;

    open spec fn view(&self) -> Seq<char> {
        self.0@
    }
}

impl PartialEq for Address {
    fn eq(&self, other: &Address) -> (same: bool) {
        self.0 == other.0
    }
}

impl vstd::std_specs::cmp::PartialEqSpecImpl for Address {
    open spec fn obeys_eq_spec() -> bool {
        true
    }

    open spec fn eq_spec(&self, other: &Address) -> bool {
        self@ == other@
    }
}

/// A window, as Hyprland lists it.
#[derive(Debug)]
pub struct HyprClient {
    pub address: Address,
    /// Id of the workspace that the window is on.
    pub workspace_id: i32,
    /// Name of the workspace that the window is on.
    pub workspace_name: String,
    pub class: String,
}

/// What a [`HyprClient`] holds.
pub struct HyprClientView {
    pub address: Seq<char>,
    pub workspace_id: i32,
    pub workspace_name: Seq<char>,
    pub class: Seq<char>,
}

impl View for HyprClient {
    type V = HyprClientView;

    open spec fn view(&self) -> HyprClientView {
        HyprClientView {
            address: self.address@,
            workspace_id: self.workspace_id,
            workspace_name: self.workspace_name@,
            class: self.class@,
        }
    }
}

/// A workspace, as Hyprland lists it.
#[derive(Debug)]
pub struct HyprWorkspace {
    pub id: i32,
    pub name: String,
    /// Name of the monitor that the workspace is on.
    pub monitor: String,
}

/// What a [`HyprWorkspace`] holds.
pub struct HyprWorkspaceView {
    pub id: i32,
    pub name: Seq<char>,
    pub monitor: Seq<char>,
}

impl View for HyprWorkspace {
    type V = HyprWorkspaceView;

    open spec fn view(&self) -> HyprWorkspaceView {
        HyprWorkspaceView { id: self.id, name: self.name@, monitor: self.monitor@ }
    }
}

/// What a list of workspaces holds.
pub open spec fn workspace_views(workspaces: Seq<HyprWorkspace>) -> Seq<HyprWorkspaceView> {
    workspaces.map_values(|workspace: HyprWorkspace| workspace@)
}

/// A monitor, by the workspace that it shows.
#[derive(Debug)]
pub struct Monitor {
    pub active_workspace_id: i32,
}

/// The workspace that an event is about.
#[derive(Debug)]
pub enum WorkspaceType {
    /// A workspace with a name.
    Regular(String),
    /// A special workspace, which may have a name.
    Special(Option<String>),
}

impl View for WorkspaceType {
    type V = Seq<char>;

    /// The name of the workspace, empty for a special workspace without one.
    open spec fn view(&self) -> Seq<char> {
        match self {
            WorkspaceType::Regular(name) => name@,
            WorkspaceType::Special(Some(name)) => name@,
            WorkspaceType::Special(None) => seq![],
        }
    }
}

/// The name of a workspace, empty for a special workspace without one.
pub fn get_workspace_name(name: WorkspaceType) -> (text: String)
    ensures
        text@ == name@,
{
    match name {
        WorkspaceType::Regular(name) => name,
        WorkspaceType::Special(name) => match name {
            Some(name) => name,
            None => String::new(),
        },
    }
}

/// Some monitor shows the workspace with this id.
pub open spec fn shown(monitors: Seq<Monitor>, id: i32) -> bool {
    exists|i: int| 0 <= i < monitors.len() && (#[trigger] monitors[i]).active_workspace_id == id
}

/// The monitors in a reply, none where Hyprland could not be asked.
pub open spec fn monitors_in(reply: Result<Vec<Monitor>, String>) -> Seq<Monitor> {
    match reply {
        Ok(monitors) => monitors@,
        Err(_) => seq![],
    }
}

fn shows(monitors: &Vec<Monitor>, workspace: &HyprWorkspace) -> (found: bool)
    ensures
        found == shown(monitors@, workspace.id),
{
    let mut i: usize = 0;
    while i < monitors.len()
        invariant
            i <= monitors.len(),
            forall|j: int|
                0 <= j < i ==> (#[trigger] monitors@[j]).active_workspace_id != workspace.id,
        decreases monitors.len() - i,
    {
        if monitors[i].active_workspace_id == workspace.id {
            return true;
        }
        i = i + 1;
    }
    false
}

/// Creates a function which determines if a workspace is visible.
///
/// What it says of a workspace holds only as long as the monitors show what they showed.
pub fn create_is_visible(reply: Result<Vec<Monitor>, String>) -> (is_visible: impl Fn(
    &HyprWorkspace,
) -> bool)
    ensures
        forall|workspace: &HyprWorkspace| #[trigger] call_requires(is_visible, (workspace,)),
        forall|workspace: &HyprWorkspace, visible: bool| #[trigger]
            call_ensures(is_visible, (workspace,), visible) ==> visible == shown(
                monitors_in(reply),
                workspace.id,
            ),
{
    let monitors = match reply {
        Ok(monitors) => monitors,
        Err(_) => Vec::new(),
    };
    move |workspace: &HyprWorkspace| -> (visible: bool)
        ensures
            visible == shown(monitors@, workspace.id),
        { shows(&monitors, workspace) }
}

} // verus!
