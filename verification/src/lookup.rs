//! Finding workspaces and windows in what Hyprland lists.

use crate::cache::{lists_classes, WindowCache};
use crate::hypr::{
    workspace_views, Address, HyprClient, HyprClientView, HyprWorkspace, HyprWorkspaceView,
};
use crate::workspace::{described, visibility_of, Visibility, Workspace};
use vstd::prelude::*;

verus! {

/// The first workspace with this name.
pub open spec fn first_named(
    workspaces: Seq<HyprWorkspaceView>,
    name: Seq<char>,
) -> Option<HyprWorkspaceView>
    decreases workspaces.len(),
{
    if workspaces.len() == 0 {
        None
    } else if workspaces[0].name == name {
        Some(workspaces[0])
    } else {
        first_named(workspaces.drop_first(), name)
    }
}

/// The first window at this address.
pub open spec fn first_at(clients: Seq<HyprClientView>, address: Seq<char>) -> Option<
    HyprClientView,
>
    decreases clients.len(),
{
    if clients.len() == 0 {
        None
    } else if clients[0].address == address {
        Some(clients[0])
    } else {
        first_at(clients.drop_first(), address)
    }
}

/// What a list of windows holds.
pub open spec fn client_views(clients: Seq<HyprClient>) -> Seq<HyprClientView> {
    clients.map_values(|client: HyprClient| client@)
}

/// The first of the workspaces that has the name.
pub fn find_workspace(workspaces: Vec<HyprWorkspace>, name: &String) -> (found: Option<
    HyprWorkspace,
>)
    ensures
        first_named(workspace_views(workspaces@), name@) == (match found {
            Some(workspace) => Some(workspace@),
            None => None,
        }),
{
    let ghost listed = workspace_views(workspaces@);
    assert(listed.skip(0) =~= listed);
    for workspace in iter: workspaces.into_iter()
        invariant
            iter.seq() == workspaces@,
            listed == workspace_views(workspaces@),
            first_named(listed, name@) == first_named(listed.skip(iter.index() as int), name@),
    {
        let ghost rest = listed.skip(iter.index() as int);
        assert(rest[0] == workspace@);
        if workspace.name == *name {
            return Some(workspace);
        }
        assert(rest.drop_first() =~= listed.skip(iter.index() + 1));
    }
    assert(listed.skip(listed.len() as int) =~= seq![]);
    None
}

/// The id of the workspace that the first of the windows at the address is on.
pub fn find_client_workspace(clients: &Vec<HyprClient>, address: &Address) -> (found: Option<i64>)
    ensures
        found == (match first_at(client_views(clients@), address@) {
            Some(client) => Some(client.workspace_id as i64),
            None => None,
        }),
{
    let ghost listed = client_views(clients@);
    assert(listed.skip(0) =~= listed);
    let mut i: usize = 0;
    while i < clients.len()
        invariant
            i <= clients.len(),
            listed == client_views(clients@),
            first_at(listed, address@) == first_at(listed.skip(i as int), address@),
        decreases clients.len() - i,
    {
        let ghost rest = listed.skip(i as int);
        assert(rest[0] == clients@[i as int]@);
        if clients[i].address == *address {
            return Some(clients[i].workspace_id as i64);
        }
        assert(rest.drop_first() =~= listed.skip(i + 1));
        i = i + 1;
    }
    None
}

/// The active workspace for a status bar, without its classes.
pub fn get_active_workspace(reply: Result<HyprWorkspace, String>) -> (active: Result<
    Workspace,
    String,
>)
    ensures
        match (reply, active) {
            (Ok(workspace), Ok(active)) => active@ == described(
                workspace@,
                visibility_of(true, true),
                seq![],
            ),
            (Err(error), Err(passed_on)) => passed_on == error,
            _ => false,
        },
        reply matches Ok(workspace) ==> {
            &&& active matches Ok(active)
            &&& active.id == workspace.id
            &&& active.index == workspace.id
            &&& active.name == workspace.name
            &&& active.monitor == workspace.monitor
            &&& active.visibility == (Visibility::Visible { focused: true })
            &&& active.classes@.len() == 0
        },
{
    match reply {
        Ok(workspace) => Ok(Workspace::from((Visibility::focused(), workspace))),
        Err(error) => Err(error),
    }
}

/// The workspace for a status bar, with the classes of the windows on it.
pub fn get_workspace(
    visibility: Visibility,
    workspace: HyprWorkspace,
    window_cache: &WindowCache,
) -> (described_workspace: Workspace)
    ensures
        described_workspace@ == described(
            workspace@,
            visibility,
            window_cache.class_listing(workspace.id as i64),
        ),
        lists_classes(window_cache@, described_workspace.id, described_workspace@.classes),
        described_workspace.id == workspace.id,
        described_workspace.index == workspace.id,
        described_workspace.name == workspace.name,
        described_workspace.monitor == workspace.monitor,
        described_workspace.visibility == visibility,
{
    let mut described_workspace = Workspace::from((visibility, workspace));
    described_workspace.classes = window_cache.get_classes_for_workspace(described_workspace.id);
    described_workspace
}

} // verus!
