//! What is announced of each event, from the event to the last of its steps.
//!
//! The laws speak of the lists that Hyprland answers with, of the updates that are sent and of
//! the state before and after, and of nothing in between.

use crate::cache::{classes_at, goes_through, lists_classes, texts, WindowCache, WindowView};
use crate::client::Client;
use crate::event::{ActiveWindow, Answers, Event, StepView, Trigger, TriggerView};
use crate::hypr::{
    monitors_in, shown, workspace_views, Address, HyprClient, HyprWorkspace, Monitor, WorkspaceType,
};
use crate::lookup::{client_views, first_at, first_named};
use crate::update::{
    workspace_view, Notice, NoticeView, Reaction, ReactionView, UpdateView, WorkspaceUpdate,
};
use crate::workspace::{Visibility, Workspace, WorkspaceView};
use vstd::prelude::*;

verus! {

/// The workspace that an event is about has this name.
pub open spec fn is_called(workspace: WorkspaceType, name: Seq<char>) -> bool {
    match workspace {
        WorkspaceType::Regular(text) => text@ == name,
        WorkspaceType::Special(Some(text)) => text@ == name,
        WorkspaceType::Special(None) => name.len() == 0,
    }
}

/// The workspace at `i` has the name, and none before it has.
pub open spec fn is_first_named(
    workspaces: Seq<HyprWorkspace>,
    name: Seq<char>,
    i: int,
) -> bool {
    &&& 0 <= i < workspaces.len()
    &&& workspaces[i].name@ == name
    &&& forall|j: int| 0 <= j < i ==> (#[trigger] workspaces[j]).name@ != name
}

/// None of the workspaces has the name.
pub open spec fn none_named(workspaces: Seq<HyprWorkspace>, name: Seq<char>) -> bool {
    forall|i: int| 0 <= i < workspaces.len() ==> (#[trigger] workspaces[i]).name@ != name
}

/// The window at `i` has the address, and none before it has.
pub open spec fn is_first_at(clients: Seq<HyprClient>, address: Seq<char>, i: int) -> bool {
    &&& 0 <= i < clients.len()
    &&& clients[i].address.0@ == address
    &&& forall|j: int| 0 <= j < i ==> (#[trigger] clients[j]).address.0@ != address
}

/// Hyprland could be asked for the monitors, and one of them shows the workspace with this id.
pub open spec fn on_a_monitor(reply: Result<Vec<Monitor>, String>, id: i32) -> bool {
    reply matches Ok(monitors) && exists|i: int|
        0 <= i < monitors@.len() && (#[trigger] monitors@[i]).active_workspace_id == id
}

/// The active workspace is known, and has this name.
pub open spec fn active_is(client: Client, name: Seq<char>) -> bool {
    client.active matches Some(active) && active.name@ == name
}

/// The windows of a class on a workspace.
pub open spec fn windows_of_class(
    windows: Map<Seq<char>, WindowView>,
    workspace_id: i64,
    class: Seq<char>,
) -> Set<Seq<char>> {
    Set::new(
        |address: Seq<char>|
            windows.contains_key(address) && windows[address].workspace_id == workspace_id
                && windows[address].class == class,
    )
}

/// How often a class is in a list.
pub open spec fn occurrences(classes: Seq<String>, class: Seq<char>) -> nat {
    classes.filter(|text: String| text@ == class).len()
}

/// Each class is in the list as often as there are windows of it on the workspace.
pub open spec fn counts_windows(
    windows: Map<Seq<char>, WindowView>,
    workspace_id: i64,
    classes: Seq<String>,
) -> bool {
    forall|class: Seq<char>| #[trigger]
        occurrences(classes, class) == windows_of_class(windows, workspace_id, class).len()
}

/// `workspace` is the one that Hyprland lists as `listed`, with its windows.
pub open spec fn presents(
    workspace: Workspace,
    listed: HyprWorkspace,
    windows: Map<Seq<char>, WindowView>,
) -> bool {
    &&& workspace.id == listed.id
    &&& workspace.index == listed.id
    &&& workspace.name@ == listed.name@
    &&& workspace.monitor@ == listed.monitor@
    &&& counts_windows(windows, listed.id as i64, workspace.classes@)
}

/// The visibility of a workspace that is or is not active, and that a monitor shows or none.
pub open spec fn is_seen(visibility: Visibility, active: bool, on_a_monitor: bool) -> bool {
    &&& visibility == (Visibility::Visible { focused: true }) <==> active
    &&& visibility == (Visibility::Visible { focused: false }) <==> !active && on_a_monitor
    &&& visibility == Visibility::Hidden <==> !active && !on_a_monitor
}

/// Both are the same workspace, down to the order of the classes.
pub open spec fn same_workspace(a: Workspace, b: Workspace) -> bool {
    &&& a.id == b.id
    &&& a.index == b.index
    &&& a.name@ == b.name@
    &&& a.monitor@ == b.monitor@
    &&& a.visibility == b.visibility
    &&& a.classes@.len() == b.classes@.len()
    &&& forall|i: int|
        0 <= i < a.classes@.len() ==> (#[trigger] a.classes@[i])@ == (#[trigger] b.classes@[i])@
}

/// A lookup by name gives the workspace at the lowest place that has the name, if any has.
pub proof fn law_lookup_finds_the_first_workspace(workspaces: Seq<HyprWorkspace>, name: Seq<char>)
    ensures
        match first_named(workspace_views(workspaces), name) {
            Some(found) => exists|i: int| #[trigger]
                is_first_named(workspaces, name, i) && found == workspaces[i]@,
            None => none_named(workspaces, name),
        },
    decreases workspaces.len(),
{
    if workspaces.len() > 0 {
        let views = workspace_views(workspaces);
        if workspaces[0].name@ == name {
            assert(is_first_named(workspaces, name, 0));
        } else {
            let rest = workspaces.drop_first();
            assert(workspace_views(rest) =~= views.drop_first());
            law_lookup_finds_the_first_workspace(rest, name);
            assert(forall|i: int|
                0 < i < workspaces.len() ==> #[trigger] workspaces[i] == rest[i - 1]);
            if first_named(views, name) is Some {
                let i = choose|i: int| #[trigger]
                    is_first_named(rest, name, i) && first_named(views, name) == Some(rest[i]@);
                assert(is_first_named(workspaces, name, i + 1));
            }
        }
    }
}

/// A lookup by address gives the window at the lowest place that has the address, if any has.
pub proof fn law_lookup_finds_the_first_window(clients: Seq<HyprClient>, address: Seq<char>)
    ensures
        match first_at(client_views(clients), address) {
            Some(found) => exists|i: int| #[trigger]
                is_first_at(clients, address, i) && found == clients[i]@,
            None => forall|i: int|
                0 <= i < clients.len() ==> (#[trigger] clients[i]).address.0@ != address,
        },
    decreases clients.len(),
{
    if clients.len() > 0 {
        let views = client_views(clients);
        if clients[0].address@ == address {
            assert(is_first_at(clients, address, 0));
        } else {
            let rest = clients.drop_first();
            assert(client_views(rest) =~= views.drop_first());
            law_lookup_finds_the_first_window(rest, address);
            assert(forall|i: int|
                0 < i < clients.len() ==> #[trigger] clients[i] == rest[i - 1]);
            if first_at(views, address) is Some {
                let i = choose|i: int| #[trigger]
                    is_first_at(rest, address, i) && first_at(views, address) == Some(rest[i]@);
                assert(is_first_at(clients, address, i + 1));
            }
        }
    }
}

proof fn lemma_occurrences(
    windows: Map<Seq<char>, WindowView>,
    addresses: Seq<Seq<char>>,
    classes: Seq<String>,
    class: Seq<char>,
)
    requires
        addresses.no_duplicates(),
        texts(classes) == classes_at(windows, addresses),
    ensures
        occurrences(classes, class) == addresses.to_set().filter(
            |address: Seq<char>| windows[address].class == class,
        ).len(),
        addresses.to_set().finite(),
    decreases addresses.len(),
{
    let is_class = |address: Seq<char>| windows[address].class == class;
    let text_is = |text: String| text@ == class;
    assert(classes.len() == texts(classes).len());
    assert(classes_at(windows, addresses).len() == addresses.len());
    reveal(Seq::filter);
    if addresses.len() == 0 {
        assert(addresses.to_set().filter(is_class) =~= Set::empty());
    } else {
        let rest = addresses.drop_last();
        let last = addresses.last();
        assert(texts(classes.drop_last()) =~= texts(classes).drop_last());
        assert(classes_at(windows, rest) =~= classes_at(windows, addresses).drop_last());
        lemma_occurrences(windows, rest, classes.drop_last(), class);
        assert(texts(classes).last() == classes.last()@);
        assert(classes_at(windows, addresses).last() == windows[last].class);
        assert(!rest.to_set().contains(last));
        assert(addresses.to_set() =~= rest.to_set().insert(last)) by {
            assert forall|address: Seq<char>| addresses.to_set().contains(
                address,
            ) == rest.to_set().insert(last).contains(address) by {
                if addresses.contains(address) && address != last {
                    let i = choose|i: int| 0 <= i < addresses.len() && addresses[i] == address;
                    assert(rest[i] == address);
                }
                if rest.contains(address) {
                    let i = choose|i: int| 0 <= i < rest.len() && rest[i] == address;
                    assert(addresses[i] == address);
                }
            }
        }
        let before = rest.to_set().filter(is_class);
        if is_class(last) {
            assert(addresses.to_set().filter(is_class) =~= before.insert(last));
        } else {
            assert(addresses.to_set().filter(is_class) =~= before);
        }
    }
}

/// A list of the classes on a workspace has each class as often as there are windows of it there.
pub proof fn law_class_list_counts_the_windows(
    windows: Map<Seq<char>, WindowView>,
    workspace_id: i64,
    classes: Seq<String>,
)
    requires
        lists_classes(windows, workspace_id, texts(classes)),
    ensures
        counts_windows(windows, workspace_id, classes),
{
    let addresses = choose|addresses: Seq<Seq<char>>| #[trigger]
        goes_through(windows, workspace_id, addresses) && texts(classes) == classes_at(
            windows,
            addresses,
        );
    assert forall|class: Seq<char>| #[trigger]
        occurrences(classes, class) == windows_of_class(windows, workspace_id, class).len() by {
        lemma_occurrences(windows, addresses, classes, class);
        assert(addresses.to_set().filter(|address: Seq<char>| windows[address].class == class)
            =~= windows_of_class(windows, workspace_id, class));
    }
}

pub(crate) proof fn lemma_updates(reaction: Reaction)
    ensures
        reaction@.updates.len() == reaction.updates@.len(),
        forall|i: int|
            0 <= i < reaction.updates@.len() ==> #[trigger] reaction.updates@[i]@
                == reaction@.updates[i],
{
}

pub(crate) proof fn lemma_listing(cache: WindowCache, workspace_id: i64, classes: Seq<String>)
    requires
        cache.wf(),
        texts(classes) == cache.class_listing(workspace_id),
    ensures
        counts_windows(cache@, workspace_id, classes),
{
    cache.lemma_class_listing(workspace_id);
    law_class_list_counts_the_windows(cache@, workspace_id, classes);
}

proof fn lemma_same_texts(a: Seq<String>, b: Seq<String>)
    requires
        texts(a) == texts(b),
    ensures
        a.len() == b.len(),
        forall|i: int| 0 <= i < a.len() ==> (#[trigger] a[i])@ == (#[trigger] b[i])@,
{
    assert(texts(a).len() == a.len());
    assert(texts(b).len() == b.len());
    assert forall|i: int| 0 <= i < a.len() implies (#[trigger] a[i])@ == (#[trigger] b[i])@ by {
        assert(texts(a)[i] == a[i]@);
        assert(texts(b)[i] == b[i]@);
    }
}

/// What a lookup gives, by the place at which the workspace is listed.
proof fn lemma_looked_into(
    before: Client,
    after: Client,
    trigger: TriggerView,
    name: Seq<char>,
    answers: Answers,
    reaction: ReactionView,
)
    requires
        after.looked_into(before, trigger, name, answers, reaction),
    ensures
        match answers.workspaces {
            Err(error) => {
                &&& after == before
                &&& reaction.updates.len() == 0
                &&& reaction.notice == Some(NoticeView::WorkspaceFailed(error@))
            },
            Ok(workspaces) => {
                &&& none_named(workspaces@, name) ==> after.reacted(
                    before,
                    trigger,
                    None,
                    reaction,
                )
                &&& forall|i: int| #[trigger]
                    is_first_named(workspaces@, name, i) ==> after.reacted(
                        before,
                        trigger,
                        Some(
                            before.describes(
                                trigger,
                                workspaces@[i]@,
                                on_a_monitor(answers.monitors, workspaces@[i].id),
                            ),
                        ),
                        reaction,
                    )
            },
        },
{
    if let Ok(workspaces) = answers.workspaces {
        law_lookup_finds_the_first_workspace(workspaces@, name);
        assert forall|i: int| #[trigger] is_first_named(workspaces@, name, i) implies after.reacted(
            before,
            trigger,
            Some(
                before.describes(
                    trigger,
                    workspaces@[i]@,
                    on_a_monitor(answers.monitors, workspaces@[i].id),
                ),
            ),
            reaction,
        ) by {
            let found = first_named(workspace_views(workspaces@), name);
            let j = choose|j: int| #[trigger]
                is_first_named(workspaces@, name, j) && found == Some(workspaces@[j]@);
            assert(workspaces@[i].name@ == name && workspaces@[j].name@ == name);
            assert(i == j);
            assert(shown(monitors_in(answers.monitors), workspaces@[i].id) == on_a_monitor(
                answers.monitors,
                workspaces@[i].id,
            ));
        }
    }
}

/// What is sent where the workspaces could not be asked for, or none has the name: nothing.
pub open spec fn is_silent(reaction: Reaction, before: Client, after: Client) -> bool {
    reaction.updates@.len() == 0 && after == before
}

/// A workspace that is added and that Hyprland lists is announced, whatever windows are on it, and
/// nothing else is. The state stays as it is.
pub proof fn law_added_workspace_is_announced(
    before: Client,
    after: Client,
    workspace: WorkspaceType,
    name: Seq<char>,
    answers: Answers,
    reaction: Reaction,
)
    requires
        before.window_cache.wf(),
        is_called(workspace, name),
        after.came_of(before, Event::WorkspaceAdded(workspace), answers, reaction@),
    ensures
        after == before,
        match answers.workspaces {
            Err(error) => is_silent(reaction, before, after) && (reaction.notice matches Some(
                Notice::WorkspaceFailed(said),
            ) && said@ == error@),
            Ok(workspaces) => {
                &&& none_named(workspaces@, name) ==> is_silent(reaction, before, after)
                    && reaction.notice is None
                &&& forall|i: int| #[trigger]
                    is_first_named(workspaces@, name, i) ==> {
                        &&& reaction.notice is None
                        &&& reaction.updates@.len() == 1
                        &&& reaction.updates@[0] matches WorkspaceUpdate::Add(added)
                        &&& presents(added, workspaces@[i], before.window_cache@)
                        &&& is_seen(
                            added.visibility,
                            active_is(before, name),
                            on_a_monitor(answers.monitors, workspaces@[i].id),
                        )
                    }
            },
        },
{
    assert(name =~= workspace@);
    lemma_updates(reaction);
    lemma_looked_into(before, after, TriggerView::Added, name, answers, reaction@);
    if let Ok(workspaces) = answers.workspaces {
        assert forall|i: int| #[trigger] is_first_named(workspaces@, name, i) implies {
            &&& reaction.notice is None
            &&& reaction.updates@.len() == 1
            &&& reaction.updates@[0] matches WorkspaceUpdate::Add(added)
            &&& presents(added, workspaces@[i], before.window_cache@)
            &&& is_seen(
                added.visibility,
                active_is(before, name),
                on_a_monitor(answers.monitors, workspaces@[i].id),
            )
        } by {
            assert(reaction.updates@[0]@ == reaction@.updates[0]);
            if let WorkspaceUpdate::Add(added) = reaction.updates@[0] {
                lemma_listing(before.window_cache, added.id, added.classes@);
            }
        }
    }
}

/// From `at` on, the updates say that the focus went from the workspace that was active to the one
/// that is, which Hyprland lists as `listed`, and that it needs no attention.
pub open spec fn announces_focus(
    updates: Seq<WorkspaceUpdate>,
    at: int,
    before: Client,
    after: Client,
    listed: HyprWorkspace,
    on_a_monitor: bool,
) -> bool {
    &&& updates[at] matches WorkspaceUpdate::Focus { old: was, new: now }
    &&& (match (was, before.active) {
        (Some(was), Some(active)) => same_workspace(was, active),
        (None, None) => true,
        _ => false,
    })
    &&& presents(now, listed, before.window_cache@)
    &&& is_seen(now.visibility, false, on_a_monitor)
    &&& (after.active matches Some(active) && same_workspace(active, now))
    &&& updates[at + 1] == (WorkspaceUpdate::Urgent { id: listed.id as i64, urgent: false })
}

proof fn lemma_announces_focus(
    updates: Seq<WorkspaceUpdate>,
    at: int,
    before: Client,
    after: Client,
    listed: HyprWorkspace,
    trigger: TriggerView,
    on_a_monitor: bool,
)
    requires
        before.window_cache.wf(),
        trigger is Changed || trigger is Moved,
        0 <= at,
        at + 2 == updates.len(),
        !active_is(before, listed.name@),
        ({
            let now = before.describes(trigger, listed@, on_a_monitor);
            &&& updates[at]@ == UpdateView::Focus { old: workspace_view(before.active), new: now }
            &&& updates[at + 1]@ == UpdateView::Urgent { id: now.id, urgent: false }
            &&& workspace_view(after.active) == Some(now)
        }),
    ensures
        announces_focus(updates, at, before, after, listed, on_a_monitor),
{
    if let WorkspaceUpdate::Focus { old: was, new: now } = updates[at] {
        lemma_listing(before.window_cache, now.id, now.classes@);
        if let (Some(was), Some(active)) = (was, before.active) {
            lemma_same_texts(was.classes@, active.classes@);
        }
        if let Some(active) = after.active {
            lemma_same_texts(active.classes@, now.classes@);
        }
    }
}

/// Whether the user goes to another workspace or to another monitor, the workspace that is named,
/// of whichever kind, is the active one afterwards, where Hyprland lists it. That it is so is
/// announced where another one was active, and nothing is sent where it was active already.
pub proof fn law_named_workspace_becomes_active(
    before: Client,
    after: Client,
    event: Event,
    workspace: WorkspaceType,
    name: Seq<char>,
    answers: Answers,
    reaction: Reaction,
)
    requires
        before.window_cache.wf(),
        is_called(workspace, name),
        event == Event::WorkspaceChanged(workspace) || event == Event::ActiveMonitorChanged(
            Some(workspace),
        ),
        after.came_of(before, event, answers, reaction@),
    ensures
        after.window_cache == before.window_cache,
        match answers.workspaces {
            Err(error) => is_silent(reaction, before, after) && (reaction.notice matches Some(
                Notice::WorkspaceFailed(said),
            ) && said@ == error@),
            Ok(workspaces) => {
                &&& none_named(workspaces@, name) ==> is_silent(reaction, before, after)
                    && reaction.notice == Some(Notice::WorkspaceNotFound)
                &&& forall|i: int| #[trigger]
                    is_first_named(workspaces@, name, i) ==> {
                        &&& reaction.notice is None
                        &&& active_is(after, name)
                        &&& active_is(before, name) ==> is_silent(reaction, before, after)
                        &&& !active_is(before, name) ==> reaction.updates@.len() == 2
                            && announces_focus(
                            reaction.updates@,
                            0,
                            before,
                            after,
                            workspaces@[i],
                            on_a_monitor(answers.monitors, workspaces@[i].id),
                        )
                    }
            },
        },
{
    assert(name =~= workspace@);
    lemma_updates(reaction);
    lemma_looked_into(before, after, TriggerView::Changed, name, answers, reaction@);
    if let Ok(workspaces) = answers.workspaces {
        law_lookup_finds_the_first_workspace(workspaces@, name);
        assert forall|i: int| #[trigger] is_first_named(workspaces@, name, i) implies {
            &&& reaction.notice is None
            &&& active_is(after, name)
            &&& active_is(before, name) ==> is_silent(reaction, before, after)
            &&& !active_is(before, name) ==> reaction.updates@.len() == 2 && announces_focus(
                reaction.updates@,
                0,
                before,
                after,
                workspaces@[i],
                on_a_monitor(answers.monitors, workspaces@[i].id),
            )
        } by {
            if !active_is(before, name) {
                assert(reaction.updates@[0]@ == reaction@.updates[0]);
                assert(reaction.updates@[1]@ == reaction@.updates[1]);
                lemma_announces_focus(
                    reaction.updates@,
                    0,
                    before,
                    after,
                    workspaces@[i],
                    TriggerView::Changed,
                    on_a_monitor(answers.monitors, workspaces@[i].id),
                );
            }
        }
    }
}

/// Another monitor of which no workspace is named changes nothing, and that is noted.
pub proof fn law_monitor_without_workspace_is_noted(
    before: Client,
    after: Client,
    answers: Answers,
    reaction: Reaction,
)
    requires
        after.came_of(before, Event::ActiveMonitorChanged(None), answers, reaction@),
    ensures
        is_silent(reaction, before, after),
        reaction.notice == Some(Notice::NoWorkspaceName),
{
    lemma_updates(reaction);
}

/// A workspace that moves to another monitor is announced, where Hyprland lists it, and becomes
/// the active one, which is announced where it was not.
pub proof fn law_moved_workspace_is_announced(
    before: Client,
    after: Client,
    workspace: WorkspaceType,
    name: Seq<char>,
    answers: Answers,
    reaction: Reaction,
)
    requires
        before.window_cache.wf(),
        is_called(workspace, name),
        after.came_of(before, Event::WorkspaceMoved(workspace), answers, reaction@),
    ensures
        after.window_cache == before.window_cache,
        match answers.workspaces {
            Err(error) => is_silent(reaction, before, after) && (reaction.notice matches Some(
                Notice::WorkspaceFailed(said),
            ) && said@ == error@),
            Ok(workspaces) => {
                &&& none_named(workspaces@, name) ==> is_silent(reaction, before, after)
                    && reaction.notice == Some(Notice::WorkspaceNotFound)
                &&& forall|i: int| #[trigger]
                    is_first_named(workspaces@, name, i) ==> {
                        let on_a_monitor = on_a_monitor(answers.monitors, workspaces@[i].id);
                        &&& reaction.notice is None
                        &&& active_is(after, name)
                        &&& (reaction.updates@[0] matches WorkspaceUpdate::Move(moved) && presents(
                            moved,
                            workspaces@[i],
                            before.window_cache@,
                        ) && is_seen(moved.visibility, active_is(before, name), on_a_monitor))
                        &&& active_is(before, name) ==> reaction.updates@.len() == 1 && after
                            == before
                        &&& !active_is(before, name) ==> reaction.updates@.len() == 3
                            && announces_focus(
                            reaction.updates@,
                            1,
                            before,
                            after,
                            workspaces@[i],
                            on_a_monitor,
                        )
                    }
            },
        },
{
    assert(name =~= workspace@);
    lemma_updates(reaction);
    lemma_looked_into(before, after, TriggerView::Moved, name, answers, reaction@);
    if let Ok(workspaces) = answers.workspaces {
        law_lookup_finds_the_first_workspace(workspaces@, name);
        assert forall|i: int| #[trigger] is_first_named(workspaces@, name, i) implies {
            let on_a_monitor = on_a_monitor(answers.monitors, workspaces@[i].id);
            &&& reaction.notice is None
            &&& active_is(after, name)
            &&& (reaction.updates@[0] matches WorkspaceUpdate::Move(moved) && presents(
                moved,
                workspaces@[i],
                before.window_cache@,
            ) && is_seen(moved.visibility, active_is(before, name), on_a_monitor))
            &&& active_is(before, name) ==> reaction.updates@.len() == 1 && after == before
            &&& !active_is(before, name) ==> reaction.updates@.len() == 3 && announces_focus(
                reaction.updates@,
                1,
                before,
                after,
                workspaces@[i],
                on_a_monitor,
            )
        } by {
            assert(reaction.updates@[0]@ == reaction@.updates[0]);
            if let WorkspaceUpdate::Move(moved) = reaction.updates@[0] {
                lemma_listing(before.window_cache, moved.id, moved.classes@);
            }
            if !active_is(before, name) {
                assert(reaction.updates@[1]@ == reaction@.updates[1]);
                assert(reaction.updates@[2]@ == reaction@.updates[2]);
                lemma_announces_focus(
                    reaction.updates@,
                    1,
                    before,
                    after,
                    workspaces@[i],
                    TriggerView::Moved,
                    on_a_monitor(answers.monitors, workspaces@[i].id),
                );
            }
        }
    }
}

/// A workspace that is renamed is announced with its new name and the classes on it, and one that
/// is deleted by its id, and nothing else is. Neither asks Hyprland anything, nor changes the
/// state.
pub proof fn law_renamed_and_deleted_workspaces_are_announced(
    before: Client,
    after: Client,
    event: Event,
    answers: Answers,
    reaction: Reaction,
)
    requires
        before.window_cache.wf(),
        event is WorkspaceRenamed || event is WorkspaceDeleted,
        after.came_of(before, event, answers, reaction@),
    ensures
        after == before,
        reaction.notice is None,
        reaction.updates@.len() == 1,
        event matches Event::WorkspaceDeleted(id) ==> reaction.updates@[0]
            == WorkspaceUpdate::Remove(id as i64),
        event matches Event::WorkspaceRenamed { id, name } ==> (reaction.updates@[0] matches
            WorkspaceUpdate::Rename { id: told, name: renamed, classes: Some(classes) } && told
            == id && renamed@ == name@ && counts_windows(
            before.window_cache@,
            id as i64,
            classes@,
        )),
{
    lemma_updates(reaction);
    assert(reaction.updates@[0]@ == reaction@.updates[0]);
    if let WorkspaceUpdate::Rename { id, name, classes: Some(classes) } = reaction.updates@[0] {
        lemma_listing(before.window_cache, id, classes@);
    }
}

/// A window that asks for attention makes the workspace urgent that Hyprland lists it on.
pub proof fn law_urgent_window_is_announced(
    before: Client,
    after: Client,
    address: Address,
    answers: Answers,
    reaction: Reaction,
)
    requires
        after.came_of(before, Event::UrgentStateChanged(address), answers, reaction@),
    ensures
        after == before,
        match answers.clients {
            Err(error) => is_silent(reaction, before, after) && (reaction.notice matches Some(
                Notice::ClientsFailed(said),
            ) && said@ == error@),
            Ok(clients) => {
                &&& (forall|i: int|
                    0 <= i < clients@.len() ==> (#[trigger] clients@[i]).address.0@ != address.0@)
                    ==> is_silent(reaction, before, after) && reaction.notice == Some(
                    Notice::ClientNotFound,
                )
                &&& forall|i: int| #[trigger]
                    is_first_at(clients@, address.0@, i) ==> {
                        &&& reaction.notice is None
                        &&& reaction.updates@.len() == 1
                        &&& reaction.updates@[0] == (WorkspaceUpdate::Urgent {
                            id: clients@[i].workspace_id as i64,
                            urgent: true,
                        })
                    }
            },
        },
{
    lemma_updates(reaction);
    if let Ok(clients) = answers.clients {
        law_lookup_finds_the_first_window(clients@, address.0@);
        assert forall|i: int| #[trigger] is_first_at(clients@, address.0@, i) implies {
            &&& reaction.notice is None
            &&& reaction.updates@.len() == 1
            &&& reaction.updates@[0] == (WorkspaceUpdate::Urgent {
                id: clients@[i].workspace_id as i64,
                urgent: true,
            })
        } by {
            let found = first_at(client_views(clients@), address.0@);
            let j = choose|j: int| #[trigger]
                is_first_at(clients@, address.0@, j) && found == Some(clients@[j]@);
            assert(clients@[i].address.0@ == address.0@ && clients@[j].address.0@ == address.0@);
            assert(i == j);
            assert(reaction.updates@[0]@ == reaction@.updates[0]);
        }
    }
}

/// The update says that a window came to the workspace, and gives the classes that are on it.
pub open spec fn tells_added(
    update: WorkspaceUpdate,
    windows: Map<Seq<char>, WindowView>,
    id: i64,
    name: Seq<char>,
) -> bool {
    update matches WorkspaceUpdate::AddWindow { id: told, name: called, classes: Some(classes) }
        && told == id && called@ == name && counts_windows(windows, id, classes@)
}

/// The update says that a window left the workspace, and gives the classes that are on it.
pub open spec fn tells_removed(
    update: WorkspaceUpdate,
    windows: Map<Seq<char>, WindowView>,
    id: i64,
    name: Seq<char>,
) -> bool {
    update matches WorkspaceUpdate::RemoveWindow { id: told, name: called, classes: Some(classes) }
        && told == id && called@ == name && counts_windows(windows, id, classes@)
}

/// A window that opens on a workspace that Hyprland lists is cached there, and announced by the
/// classes on the workspace afterwards, and nothing else is. The active workspace plays no part.
pub proof fn law_opened_window_is_announced(
    before: Client,
    after: Client,
    address: Address,
    workspace_name: String,
    class: String,
    answers: Answers,
    reaction: Reaction,
)
    requires
        after.window_cache.wf(),
        after.came_of(
            before,
            Event::WindowOpened { address, workspace_name, class },
            answers,
            reaction@,
        ),
    ensures
        after.active == before.active,
        match answers.workspaces {
            Err(error) => is_silent(reaction, before, after) && (reaction.notice matches Some(
                Notice::WorkspaceFailed(said),
            ) && said@ == error@),
            Ok(workspaces) => {
                &&& none_named(workspaces@, workspace_name@) ==> is_silent(reaction, before, after)
                    && reaction.notice == Some(Notice::WorkspaceNotFound)
                &&& forall|i: int| #[trigger]
                    is_first_named(workspaces@, workspace_name@, i) ==> {
                        let id = workspaces@[i].id as i64;
                        &&& reaction.notice is None
                        &&& after.window_cache@ == before.window_cache@.insert(
                            address.0@,
                            WindowView {
                                workspace_id: id,
                                workspace_name: workspace_name@,
                                class: class@,
                            },
                        )
                        &&& reaction.updates@.len() == 1
                        &&& tells_added(
                            reaction.updates@[0],
                            after.window_cache@,
                            id,
                            workspace_name@,
                        )
                    }
            },
        },
{
    let trigger = TriggerView::WindowOpened {
        address: address@,
        workspace_name: workspace_name@,
        class: class@,
    };
    lemma_updates(reaction);
    lemma_looked_into(before, after, trigger, workspace_name@, answers, reaction@);
    if let Ok(workspaces) = answers.workspaces {
        law_lookup_finds_the_first_workspace(workspaces@, workspace_name@);
        assert forall|i: int| #[trigger]
            is_first_named(workspaces@, workspace_name@, i) implies reaction.updates@.len() == 1
            && tells_added(
            reaction.updates@[0],
            after.window_cache@,
            workspaces@[i].id as i64,
            workspace_name@,
        ) by {
            assert(reaction.updates@[0]@ == reaction@.updates[0]);
            if let WorkspaceUpdate::AddWindow { id, name, classes: Some(classes) } =
                reaction.updates@[0] {
                lemma_listing(after.window_cache, id, classes@);
            }
        }
    }
}

/// A window that closes leaves the cache, and the workspace that it was on is told so, with the
/// classes that are left there. Of a window that was not in the cache nothing is told.
pub proof fn law_closed_window_is_announced(
    before: Client,
    after: Client,
    address: Address,
    answers: Answers,
    reaction: Reaction,
)
    requires
        after.window_cache.wf(),
        after.came_of(before, Event::WindowClosed(address), answers, reaction@),
    ensures
        after.active == before.active,
        before.window_cache@.contains_key(address.0@) ==> {
            let window = before.window_cache@[address.0@];
            &&& reaction.notice is None
            &&& after.window_cache@ == before.window_cache@.remove(address.0@)
            &&& reaction.updates@.len() == 1
            &&& tells_removed(
                reaction.updates@[0],
                after.window_cache@,
                window.workspace_id,
                window.workspace_name,
            )
        },
        !before.window_cache@.contains_key(address.0@) ==> {
            &&& is_silent(reaction, before, after)
            &&& reaction.notice matches Some(Notice::UnknownWindowClosed(said))
            &&& said@ == address.0@
        },
{
    lemma_updates(reaction);
    if before.window_cache@.contains_key(address.0@) {
        assert(reaction.updates@[0]@ == reaction@.updates[0]);
        if let WorkspaceUpdate::RemoveWindow { id, name, classes: Some(classes) } =
            reaction.updates@[0] {
            lemma_listing(after.window_cache, id, classes@);
        }
    }
}

/// A cached window that moves to a workspace that Hyprland lists is told to leave the one that the
/// cache had for it, and then to come to the other one, whatever windows are on either.
pub proof fn law_moved_window_leaves_and_arrives(
    before: Client,
    after: Client,
    address: Address,
    workspace: WorkspaceType,
    name: Seq<char>,
    answers: Answers,
    reaction: Reaction,
)
    requires
        after.window_cache.wf(),
        is_called(workspace, name),
        after.came_of(before, Event::WindowMoved { address, workspace }, answers, reaction@),
    ensures
        after.active == before.active,
        match answers.workspaces {
            Err(error) => is_silent(reaction, before, after) && (reaction.notice matches Some(
                Notice::WorkspaceFailed(said),
            ) && said@ == error@),
            Ok(workspaces) => {
                &&& none_named(workspaces@, name) ==> is_silent(reaction, before, after)
                    && reaction.notice == Some(Notice::WorkspaceNotFound)
                &&& forall|i: int| #[trigger]
                    is_first_named(workspaces@, name, i) ==> if before.window_cache@.contains_key(
                        address.0@,
                    ) {
                        let window = before.window_cache@[address.0@];
                        let id = workspaces@[i].id as i64;
                        &&& reaction.notice is None
                        &&& after.window_cache@ == before.window_cache@.insert(
                            address.0@,
                            WindowView {
                                workspace_id: id,
                                workspace_name: name,
                                class: window.class,
                            },
                        )
                        &&& reaction.updates@.len() == 2
                        &&& tells_removed(
                            reaction.updates@[0],
                            after.window_cache@,
                            window.workspace_id,
                            window.workspace_name,
                        )
                        &&& tells_added(reaction.updates@[1], after.window_cache@, id, name)
                    } else {
                        &&& is_silent(reaction, before, after)
                        &&& reaction.notice matches Some(Notice::UnknownWindowMoved(said))
                        &&& said@ == name
                    }
            },
        },
{
    let trigger = TriggerView::WindowMoved { address: address@ };
    assert(name =~= workspace@);
    lemma_updates(reaction);
    lemma_looked_into(before, after, trigger, name, answers, reaction@);
    if let Ok(workspaces) = answers.workspaces {
        law_lookup_finds_the_first_workspace(workspaces@, name);
        if before.window_cache@.contains_key(address.0@) {
            assert forall|i: int| #[trigger] is_first_named(workspaces@, name, i) implies {
                let window = before.window_cache@[address.0@];
                &&& reaction.updates@.len() == 2
                &&& tells_removed(
                    reaction.updates@[0],
                    after.window_cache@,
                    window.workspace_id,
                    window.workspace_name,
                )
                &&& tells_added(
                    reaction.updates@[1],
                    after.window_cache@,
                    workspaces@[i].id as i64,
                    name,
                )
            } by {
                assert(reaction.updates@[0]@ == reaction@.updates[0]);
                assert(reaction.updates@[1]@ == reaction@.updates[1]);
                if let WorkspaceUpdate::RemoveWindow { id, name, classes: Some(classes) } =
                    reaction.updates@[0] {
                    lemma_listing(after.window_cache, id, classes@);
                }
                if let WorkspaceUpdate::AddWindow { id, name, classes: Some(classes) } =
                    reaction.updates@[1] {
                    lemma_listing(after.window_cache, id, classes@);
                }
            }
        }
    }
}

/// A cached window whose class becomes another one that is not empty is announced to its
/// workspace, once, whatever else runs there. Any other word of the active window changes nothing.
pub proof fn law_changed_class_is_announced(
    before: Client,
    after: Client,
    window: Option<ActiveWindow>,
    answers: Answers,
    reaction: Reaction,
)
    requires
        after.window_cache.wf(),
        after.came_of(before, Event::ActiveWindowChanged(window), answers, reaction@),
    ensures
        after.active == before.active,
        reaction.notice is None,
        match window {
            None => is_silent(reaction, before, after),
            Some(active) => {
                let known = before.window_cache@.contains_key(active.address.0@);
                let cached = before.window_cache@[active.address.0@];
                &&& active.class@.len() == 0 || !known || cached.class == active.class@
                    ==> is_silent(reaction, before, after)
                &&& active.class@.len() > 0 && known && cached.class != active.class@ ==> {
                    &&& after.window_cache@ == before.window_cache@.insert(
                        active.address.0@,
                        WindowView {
                            workspace_id: cached.workspace_id,
                            workspace_name: cached.workspace_name,
                            class: active.class@,
                        },
                    )
                    &&& reaction.updates@.len() == 1
                    &&& tells_added(
                        reaction.updates@[0],
                        after.window_cache@,
                        cached.workspace_id,
                        cached.workspace_name,
                    )
                }
            },
        },
{
    lemma_updates(reaction);
    if reaction.updates@.len() == 1 {
        assert(reaction.updates@[0]@ == reaction@.updates[0]);
        if let WorkspaceUpdate::AddWindow { id, name, classes: Some(classes) } =
            reaction.updates@[0] {
            lemma_listing(after.window_cache, id, classes@);
        }
    }
}

/// The update says that the windows of the workspace are others, and gives the classes on it.
pub open spec fn tells_windows(
    update: WorkspaceUpdate,
    windows: Map<Seq<char>, WindowView>,
    id: i64,
) -> bool {
    match update {
        WorkspaceUpdate::AddWindow { id: told, name, classes: Some(classes) } => told == id
            && counts_windows(windows, id, classes@),
        WorkspaceUpdate::RemoveWindow { id: told, name, classes: Some(classes) } => told == id
            && counts_windows(windows, id, classes@),
        _ => false,
    }
}

/// Some update says so of the workspace.
pub open spec fn is_told(
    updates: Seq<WorkspaceUpdate>,
    windows: Map<Seq<char>, WindowView>,
    id: i64,
) -> bool {
    exists|i: int| 0 <= i < updates.len() && tells_windows(#[trigger] updates[i], windows, id)
}

/// The event opens a window that the cache has on this workspace, on another one.
pub open spec fn opens_elsewhere(before: Client, event: Event, answers: Answers, id: i64) -> bool {
    &&& event matches Event::WindowOpened { address, workspace_name, class }
    &&& before.window_cache@.contains_key(address.0@)
    &&& before.window_cache@[address.0@].workspace_id == id
    &&& answers.workspaces matches Ok(workspaces)
    &&& exists|i: int| #[trigger]
        is_first_named(workspaces@, workspace_name@, i) && workspaces@[i].id != id
}

/// Whatever Hyprland reports, a workspace with other classes on it than before is named by an
/// update, together with the classes that it has now. Left out is the workspace of a cached window
/// that is reported to open a second time, on another workspace: only that one is named.
pub proof fn law_class_changes_are_announced(
    before: Client,
    after: Client,
    event: Event,
    answers: Answers,
    reaction: Reaction,
    id: i64,
    class: Seq<char>,
)
    requires
        before.window_cache.wf(),
        after.window_cache.wf(),
        after.came_of(before, event, answers, reaction@),
        !opens_elsewhere(before, event, answers, id),
        windows_of_class(before.window_cache@, id, class).len() != windows_of_class(
            after.window_cache@,
            id,
            class,
        ).len(),
    ensures
        is_told(reaction.updates@, after.window_cache@, id),
{
    let windows = before.window_cache@;
    let left = after.window_cache@;
    assert(!(windows_of_class(windows, id, class) =~= windows_of_class(left, id, class)));
    match event {
        Event::WorkspaceAdded(workspace) => {
            law_added_workspace_is_announced(
                before,
                after,
                workspace,
                workspace@,
                answers,
                reaction,
            );
        },
        Event::WorkspaceChanged(workspace) => {
            law_named_workspace_becomes_active(
                before,
                after,
                event,
                workspace,
                workspace@,
                answers,
                reaction,
            );
        },
        Event::ActiveMonitorChanged(Some(workspace)) => {
            law_named_workspace_becomes_active(
                before,
                after,
                event,
                workspace,
                workspace@,
                answers,
                reaction,
            );
        },
        Event::ActiveMonitorChanged(None) => {
            law_monitor_without_workspace_is_noted(before, after, answers, reaction);
        },
        Event::WorkspaceMoved(workspace) => {
            law_moved_workspace_is_announced(
                before,
                after,
                workspace,
                workspace@,
                answers,
                reaction,
            );
        },
        Event::WorkspaceRenamed { id: renamed, name } => {
            law_renamed_and_deleted_workspaces_are_announced(
                before,
                after,
                event,
                answers,
                reaction,
            );
        },
        Event::WorkspaceDeleted(deleted) => {
            law_renamed_and_deleted_workspaces_are_announced(
                before,
                after,
                event,
                answers,
                reaction,
            );
        },
        Event::UrgentStateChanged(address) => {
            law_urgent_window_is_announced(before, after, address, answers, reaction);
        },
        Event::WindowOpened { address, workspace_name, class: opened } => {
            law_opened_window_is_announced(
                before,
                after,
                address,
                workspace_name,
                opened,
                answers,
                reaction,
            );
            if let Ok(workspaces) = answers.workspaces {
                law_lookup_finds_the_first_workspace(workspaces@, workspace_name@);
                if !none_named(workspaces@, workspace_name@) {
                    let i = choose|i: int| #[trigger]
                        is_first_named(workspaces@, workspace_name@, i);
                    assert(is_first_named(workspaces@, workspace_name@, i));
                    assert(workspaces@[i].id == id);
                    assert(tells_added(reaction.updates@[0], left, id, workspace_name@));
                }
            }
        },
        Event::WindowClosed(address) => {
            law_closed_window_is_announced(before, after, address, answers, reaction);
            if windows.contains_key(address.0@) {
                let window = windows[address.0@];
                assert(window.workspace_id == id);
                assert(tells_removed(reaction.updates@[0], left, id, window.workspace_name));
            }
        },
        Event::WindowMoved { address, workspace } => {
            law_moved_window_leaves_and_arrives(
                before,
                after,
                address,
                workspace,
                workspace@,
                answers,
                reaction,
            );
            if let Ok(workspaces) = answers.workspaces {
                law_lookup_finds_the_first_workspace(workspaces@, workspace@);
                if !none_named(workspaces@, workspace@) {
                    let i = choose|i: int| #[trigger] is_first_named(workspaces@, workspace@, i);
                    assert(is_first_named(workspaces@, workspace@, i));
                    if windows.contains_key(address.0@) {
                        let window = windows[address.0@];
                        assert(window.workspace_id == id || workspaces@[i].id == id);
                        if window.workspace_id == id {
                            assert(tells_removed(
                                reaction.updates@[0],
                                left,
                                id,
                                window.workspace_name,
                            ));
                        } else {
                            assert(tells_added(reaction.updates@[1], left, id, workspace@));
                        }
                    }
                }
            }
        },
        Event::ActiveWindowChanged(window) => {
            law_changed_class_is_announced(before, after, window, answers, reaction);
            if let Some(active) = window {
                let cached = windows[active.address.0@];
                assert(cached.workspace_id == id);
                assert(tells_added(reaction.updates@[0], left, id, cached.workspace_name));
            }
        },
    }
}

/// From `at` on, the updates say that the focus went from the workspace that was active to this
/// one, which is the active one now, and that it needs no attention.
pub open spec fn refocuses(
    updates: Seq<WorkspaceUpdate>,
    at: int,
    before: Client,
    after: Client,
    workspace: Workspace,
) -> bool {
    &&& updates[at] matches WorkspaceUpdate::Focus { old: was, new: now }
    &&& (match (was, before.active) {
        (Some(was), Some(active)) => same_workspace(was, active),
        (None, None) => true,
        _ => false,
    })
    &&& same_workspace(now, workspace)
    &&& (after.active matches Some(active) && same_workspace(active, workspace))
    &&& updates[at + 1] == (WorkspaceUpdate::Urgent { id: workspace.id, urgent: false })
}

proof fn lemma_refocuses(
    updates: Seq<WorkspaceUpdate>,
    at: int,
    before: Client,
    after: Client,
    workspace: Workspace,
)
    requires
        0 <= at,
        at + 2 == updates.len(),
        updates[at]@ == (UpdateView::Focus {
            old: workspace_view(before.active),
            new: workspace@,
        }),
        updates[at + 1]@ == (UpdateView::Urgent { id: workspace.id, urgent: false }),
        workspace_view(after.active) == Some(workspace@),
    ensures
        refocuses(updates, at, before, after, workspace),
{
    if let WorkspaceUpdate::Focus { old: was, new: now } = updates[at] {
        lemma_same_texts(now.classes@, workspace.classes@);
        if let (Some(was), Some(active)) = (was, before.active) {
            lemma_same_texts(was.classes@, active.classes@);
        }
        if let Some(active) = after.active {
            lemma_same_texts(active.classes@, workspace.classes@);
        }
    }
}

/// A workspace that was not found is noted, but for one that was added, and changes nothing. One
/// that was found is announced as it was found: added or moved, and focused unless it says that it
/// is.
pub proof fn law_found_workspace_is_announced(
    before: Client,
    after: Client,
    trigger: Trigger,
    workspace: Option<Workspace>,
    reaction: Reaction,
)
    requires
        trigger is Added || trigger is Changed || trigger is Moved || workspace is None,
        after.reacted(before, trigger@, workspace_view(workspace), reaction@),
    ensures
        after.window_cache == before.window_cache,
        after.use_lua_dispatch == before.use_lua_dispatch,
        match workspace {
            None => is_silent(reaction, before, after) && reaction.notice == (if trigger is Added {
                None
            } else {
                Some(Notice::WorkspaceNotFound)
            }),
            Some(workspace) => {
                let updates = reaction.updates@;
                let focused = workspace.visibility == (Visibility::Visible { focused: true });
                &&& reaction.notice is None
                &&& trigger is Added ==> after == before && updates.len() == 1 && (
                updates[0] matches WorkspaceUpdate::Add(added) && same_workspace(
                    added,
                    workspace,
                ))
                &&& trigger is Changed && focused ==> is_silent(reaction, before, after)
                &&& trigger is Changed && !focused ==> updates.len() == 2 && refocuses(
                    updates,
                    0,
                    before,
                    after,
                    workspace,
                )
                &&& trigger is Moved ==> (updates[0] matches WorkspaceUpdate::Move(moved)
                    && same_workspace(moved, workspace))
                &&& trigger is Moved && focused ==> after == before && updates.len() == 1
                &&& trigger is Moved && !focused ==> updates.len() == 3 && refocuses(
                    updates,
                    1,
                    before,
                    after,
                    workspace,
                )
            },
        },
{
    lemma_updates(reaction);
    let updates = reaction.updates@;
    if let Some(workspace) = workspace {
        if updates.len() > 0 {
            assert(updates[0]@ == reaction@.updates[0]);
        }
        if updates.len() > 1 {
            assert(updates[1]@ == reaction@.updates[1]);
        }
        if updates.len() > 2 {
            assert(updates[2]@ == reaction@.updates[2]);
        }
        let focused = workspace.visibility == (Visibility::Visible { focused: true });
        if trigger is Added {
            if let WorkspaceUpdate::Add(added) = updates[0] {
                lemma_same_texts(added.classes@, workspace.classes@);
            }
        } else if trigger is Moved {
            if let WorkspaceUpdate::Move(moved) = updates[0] {
                lemma_same_texts(moved.classes@, workspace.classes@);
            }
            if !focused {
                lemma_refocuses(updates, 1, before, after, workspace);
            }
        } else if !focused {
            lemma_refocuses(updates, 0, before, after, workspace);
        }
    }
}

/// A window on a workspace that was found is cached there, and announced: one that opens to that
/// workspace, and one that moves to the one that it leaves as well. A window that moves and is not
/// in the cache is noted, and changes nothing.
pub proof fn law_window_on_found_workspace_is_announced(
    before: Client,
    after: Client,
    trigger: Trigger,
    workspace: Workspace,
    reaction: Reaction,
)
    requires
        after.window_cache.wf(),
        trigger is WindowOpened || trigger is WindowMoved,
        after.reacted(before, trigger@, Some(workspace@), reaction@),
    ensures
        after.active == before.active,
        after.use_lua_dispatch == before.use_lua_dispatch,
        match trigger {
            Trigger::WindowOpened { address, workspace_name, class } => {
                &&& reaction.notice is None
                &&& after.window_cache@ == before.window_cache@.insert(
                    address.0@,
                    WindowView {
                        workspace_id: workspace.id,
                        workspace_name: workspace_name@,
                        class: class@,
                    },
                )
                &&& reaction.updates@.len() == 1
                &&& tells_added(
                    reaction.updates@[0],
                    after.window_cache@,
                    workspace.id,
                    workspace.name@,
                )
            },
            Trigger::WindowMoved { address } => if before.window_cache@.contains_key(address.0@) {
                let window = before.window_cache@[address.0@];
                &&& reaction.notice is None
                &&& after.window_cache@ == before.window_cache@.insert(
                    address.0@,
                    WindowView {
                        workspace_id: workspace.id,
                        workspace_name: workspace.name@,
                        class: window.class,
                    },
                )
                &&& reaction.updates@.len() == 2
                &&& tells_removed(
                    reaction.updates@[0],
                    after.window_cache@,
                    window.workspace_id,
                    window.workspace_name,
                )
                &&& tells_added(
                    reaction.updates@[1],
                    after.window_cache@,
                    workspace.id,
                    workspace.name@,
                )
            } else {
                &&& is_silent(reaction, before, after)
                &&& reaction.notice matches Some(Notice::UnknownWindowMoved(said))
                &&& said@ == workspace.name@
            },
            _ => true,
        },
{
    lemma_updates(reaction);
    let updates = reaction.updates@;
    if updates.len() > 0 {
        assert(updates[0]@ == reaction@.updates[0]);
        if let WorkspaceUpdate::AddWindow { id, name, classes: Some(classes) } = updates[0] {
            lemma_listing(after.window_cache, id, classes@);
        }
        if let WorkspaceUpdate::RemoveWindow { id, name, classes: Some(classes) } = updates[0] {
            lemma_listing(after.window_cache, id, classes@);
        }
    }
    if updates.len() > 1 {
        assert(updates[1]@ == reaction@.updates[1]);
        if let WorkspaceUpdate::AddWindow { id, name, classes: Some(classes) } = updates[1] {
            lemma_listing(after.window_cache, id, classes@);
        }
    }
}

/// The workspace is the one that Hyprland lists as `listed`, seen as an active one or as one that
/// a monitor shows or none.
pub open spec fn is_found(
    workspace: WorkspaceView,
    listed: HyprWorkspace,
    windows: Map<Seq<char>, WindowView>,
    active: bool,
    on_a_monitor: bool,
) -> bool {
    &&& workspace.id == listed.id
    &&& workspace.index == listed.id
    &&& workspace.name == listed.name@
    &&& workspace.monitor == listed.monitor@
    &&& lists_classes(windows, listed.id as i64, workspace.classes)
    &&& is_seen(workspace.visibility, active, on_a_monitor)
}

/// Once the monitors are known, so is how visible the workspace is. Where a window opens, no
/// workspace is taken to be the active one.
pub proof fn law_monitors_settle_the_visibility(
    before: Client,
    after: Client,
    trigger: Trigger,
    listed: HyprWorkspace,
    monitors: Result<Vec<Monitor>, String>,
    reaction: Reaction,
)
    requires
        before.window_cache.wf(),
        after.located(before, trigger@, listed@, monitors, reaction@),
    ensures
        exists|workspace: WorkspaceView| #[trigger]
            after.reacted(before, trigger@, Some(workspace), reaction@) && is_found(
                workspace,
                listed,
                before.window_cache@,
                active_is(before, listed.name@) && !(trigger is WindowOpened),
                on_a_monitor(monitors, listed.id),
            ),
{
    let on_a_monitor = shown(monitors_in(monitors), listed.id);
    let workspace = before.describes(trigger@, listed@, on_a_monitor);
    before.window_cache.lemma_class_listing(listed.id as i64);
    assert(after.reacted(before, trigger@, Some(workspace), reaction@));
}

/// Of the workspaces in a reply, the first with the name is the one that was looked for. The
/// monitors are asked for where it is not the active one, and otherwise it is settled at once.
pub proof fn law_search_is_by_name(
    before: Client,
    after: Client,
    trigger: Trigger,
    name: Seq<char>,
    reply: Result<Vec<HyprWorkspace>, String>,
    step: StepView,
)
    requires
        before.window_cache.wf(),
        after.searched(before, trigger@, name, reply, step),
    ensures
        match reply {
            Err(error) => {
                &&& after == before
                &&& step matches StepView::Done(reaction)
                &&& reaction.updates.len() == 0
                &&& reaction.notice == Some(NoticeView::WorkspaceFailed(error@))
            },
            Ok(workspaces) => {
                &&& none_named(workspaces@, name) ==> (step matches StepView::Done(reaction)
                    && after.reacted(before, trigger@, None, reaction))
                &&& forall|i: int| #[trigger]
                    is_first_named(workspaces@, name, i) ==> if active_is(before, name) && !(
                    trigger is WindowOpened) {
                        &&& step matches StepView::Done(reaction)
                        &&& exists|workspace: WorkspaceView| #[trigger]
                            after.reacted(before, trigger@, Some(workspace), reaction) && is_found(
                                workspace,
                                workspaces@[i],
                                before.window_cache@,
                                true,
                                true,
                            )
                    } else {
                        &&& after == before
                        &&& step == (StepView::AskMonitors {
                            trigger: trigger@,
                            workspace: workspaces@[i]@,
                        })
                    }
            },
        },
{
    if let Ok(workspaces) = reply {
        law_lookup_finds_the_first_workspace(workspaces@, name);
        assert forall|i: int| #[trigger] is_first_named(workspaces@, name, i) implies if active_is(
            before,
            name,
        ) && !(trigger is WindowOpened) {
            &&& step matches StepView::Done(reaction)
            &&& exists|workspace: WorkspaceView| #[trigger]
                after.reacted(before, trigger@, Some(workspace), reaction) && is_found(
                    workspace,
                    workspaces@[i],
                    before.window_cache@,
                    true,
                    true,
                )
        } else {
            &&& after == before
            &&& step == (StepView::AskMonitors {
                trigger: trigger@,
                workspace: workspaces@[i]@,
            })
        } by {
            let found = first_named(workspace_views(workspaces@), name);
            let j = choose|j: int| #[trigger]
                is_first_named(workspaces@, name, j) && found == Some(workspaces@[j]@);
            assert(workspaces@[i].name@ == name && workspaces@[j].name@ == name);
            assert(i == j);
            if let StepView::Done(reaction) = step {
                let workspace = before.describes(trigger@, workspaces@[i]@, true);
                before.window_cache.lemma_class_listing(workspaces@[i].id as i64);
                assert(after.reacted(before, trigger@, Some(workspace), reaction));
            }
        }
    }
}

/// No event changes the form in which dispatchers are called.
pub proof fn law_events_keep_the_form_of_requests(
    before: Client,
    after: Client,
    event: Event,
    answers: Answers,
    reaction: Reaction,
)
    requires
        after.came_of(before, event, answers, reaction@),
    ensures
        after.use_lua_dispatch == before.use_lua_dispatch,
{
}

} // verus!
