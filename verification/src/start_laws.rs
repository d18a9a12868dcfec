//! What is known before the first event, and what a new subscriber is sent.

use crate::cache::{texts, WindowView};
use crate::client::Client;
use crate::event_laws::{is_seen, lemma_listing, lemma_updates, on_a_monitor, presents};
use crate::hypr::{workspace_views, HyprClient, HyprWorkspace, Monitor};
use crate::laws::law_cache_starts_with_the_listed_windows;
use crate::request_laws::law_lua_is_spelled_out;
use crate::update::{Notice, Reaction, WorkspaceUpdate};
use crate::workspace::{Visibility, Workspace};
use vstd::prelude::*;

verus! {

/// The window at `i` has the address, and none after it has.
pub open spec fn is_last_at(clients: Seq<HyprClient>, address: Seq<char>, i: int) -> bool {
    &&& 0 <= i < clients.len()
    &&& clients[i].address.0@ == address
    &&& forall|j: int| i < j < clients.len() ==> (#[trigger] clients[j]).address.0@ != address
}

/// The client starts with the windows that Hyprland lists, the last of those with one address, and
/// with none where it could not be asked. No workspace is active yet.
pub proof fn law_client_starts_with_the_listed_windows(
    client: Client,
    clients: Result<Vec<HyprClient>, String>,
    provider: Result<String, String>,
    address: Seq<char>,
)
    requires
        client.started(clients, provider),
    ensures
        client.active is None,
        match clients {
            Err(_) => !client.window_cache@.contains_key(address),
            Ok(clients) => {
                &&& client.window_cache@.contains_key(address) <==> exists|i: int| #[trigger]
                    is_last_at(clients@, address, i)
                &&& forall|i: int| #[trigger]
                    is_last_at(clients@, address, i) ==> client.window_cache@[address] == (
                    WindowView {
                        workspace_id: clients@[i].workspace_id as i64,
                        workspace_name: clients@[i].workspace_name@,
                        class: clients@[i].class@,
                    })
            },
        },
{
    if let Ok(clients) = clients {
        let listed = clients@.map_values(|client: HyprClient| client@);
        law_cache_starts_with_the_listed_windows(listed);
        if client.window_cache@.contains_key(address) {
            let i = choose|i: int|
                0 <= i < listed.len() && (#[trigger] listed[i]).address == address;
            lemma_last_at(clients@, address, i);
        }
        assert forall|i: int| #[trigger] is_last_at(clients@, address, i) implies client
            .window_cache@.contains_key(address) && client.window_cache@[address] == (WindowView {
            workspace_id: clients@[i].workspace_id as i64,
            workspace_name: clients@[i].workspace_name@,
            class: clients@[i].class@,
        }) by {
            assert(listed[i].address == address);
            assert forall|j: int| i < j < listed.len() implies (#[trigger] listed[j]).address
                != listed[i].address by {
                assert(clients@[j].address.0@ != address);
            }
        }
    }
}

proof fn lemma_last_at(clients: Seq<HyprClient>, address: Seq<char>, i: int)
    requires
        0 <= i < clients.len(),
        clients[i].address.0@ == address,
    ensures
        exists|j: int| #[trigger] is_last_at(clients, address, j),
    decreases clients.len() - i,
{
    if exists|j: int| i < j < clients.len() && (#[trigger] clients[j]).address.0@ == address {
        let j = choose|j: int|
            i < j < clients.len() && (#[trigger] clients[j]).address.0@ == address;
        lemma_last_at(clients, address, j);
    } else {
        assert(is_last_at(clients, address, i));
    }
}

/// Dispatchers are called in the Lua form where Hyprland says that its configuration is provided
/// by `lua`, to the letter, and in no other case.
pub proof fn law_lua_is_taken_at_its_word(
    client: Client,
    clients: Result<Vec<HyprClient>, String>,
    provider: Result<String, String>,
)
    requires
        client.started(clients, provider),
    ensures
        client.use_lua_dispatch <==> (provider matches Ok(name) && name@ =~= seq!['l', 'u', 'a']),
{
    law_lua_is_spelled_out(provider);
}

/// The workspace that Hyprland gives as the active one is the active one, without classes, and
/// none is where Hyprland could not be asked, which is noted. Nothing else changes.
pub proof fn law_active_workspace_is_noted(
    before: Client,
    after: Client,
    reply: Result<HyprWorkspace, String>,
    notice: Option<Notice>,
)
    requires
        after.listening_since(before, reply, notice),
    ensures
        after.window_cache == before.window_cache,
        after.use_lua_dispatch == before.use_lua_dispatch,
        match reply {
            Ok(workspace) => {
                &&& notice is None
                &&& after.active matches Some(active)
                &&& active.id == workspace.id
                &&& active.index == workspace.id
                &&& active.name@ == workspace.name@
                &&& active.monitor@ == workspace.monitor@
                &&& active.visibility == (Visibility::Visible { focused: true })
                &&& active.classes@.len() == 0
            },
            Err(error) => {
                &&& after.active is None
                &&& notice matches Some(Notice::ActiveWorkspaceFailed(said))
                &&& said@ == error@
            },
        },
{
    if let (Ok(workspace), Some(active)) = (reply, after.active) {
        assert(texts(active.classes@).len() == active.classes@.len());
    }
}

/// A new subscriber is sent the workspaces that Hyprland lists, all of them and in their order,
/// each with the windows on it, and focused where it has the name of the active one.
pub proof fn law_subscriber_is_sent_all_workspaces(
    client: Client,
    active: Result<HyprWorkspace, String>,
    monitors: Result<Vec<Monitor>, String>,
    workspaces: Result<Vec<HyprWorkspace>, String>,
    reaction: Reaction,
)
    requires
        client.window_cache.wf(),
        client.subscribed(active, monitors, workspaces, reaction@),
    ensures
        match workspaces {
            Err(error) => {
                &&& reaction.updates@.len() == 0
                &&& reaction.notice matches Some(Notice::WorkspacesFailed(said))
                &&& said@ == error@
            },
            Ok(workspaces) => {
                &&& reaction.notice is None
                &&& reaction.updates@.len() == 1
                &&& reaction.updates@[0] matches WorkspaceUpdate::Init(all)
                &&& all@.len() == workspaces@.len()
                &&& forall|i: int|
                    0 <= i < all@.len() ==> presents(
                        #[trigger] all@[i],
                        workspaces@[i],
                        client.window_cache@,
                    ) && is_seen(
                        all@[i].visibility,
                        active matches Ok(active) && active.name@ == workspaces@[i].name@,
                        on_a_monitor(monitors, workspaces@[i].id),
                    )
            },
        },
{
    lemma_updates(reaction);
    if let Ok(workspaces) = workspaces {
        assert(reaction.updates@[0]@ == reaction@.updates[0]);
        if let WorkspaceUpdate::Init(all) = reaction.updates@[0] {
            let views = all@.map_values(|workspace: Workspace| workspace@);
            assert(views.len() == all@.len());
            assert(workspace_views(workspaces@).len() == workspaces@.len());
            assert forall|i: int| 0 <= i < all@.len() implies presents(
                #[trigger] all@[i],
                workspaces@[i],
                client.window_cache@,
            ) && is_seen(
                all@[i].visibility,
                active matches Ok(active) && active.name@ == workspaces@[i].name@,
                on_a_monitor(monitors, workspaces@[i].id),
            ) by {
                assert(views[i] == all@[i]@);
                assert(workspace_views(workspaces@)[i] == workspaces@[i]@);
                lemma_listing(client.window_cache, all@[i].id, all@[i].classes@);
            }
        }
    }
}

} // verus!
