//! What holds of the cache, the focus and the requests across calls.

use crate::cache::{
    classes_at, goes_through, lists_classes, windows_listed, windows_on, WindowView,
};
use crate::client::{focus_updates, Client};
use crate::dispatch::{decimal, digit, digits, lua_argument};
use crate::event::{Event, StepView, TriggerView};
use crate::hypr::{Address, HyprClientView, HyprWorkspaceView};
use crate::keyboard::{layout_named, lemma_field_len};
use crate::lookup::first_named;
use crate::update::{workspace_view, NoticeView, ReactionView, UpdateView};
use crate::workspace::WorkspaceView;
use vstd::prelude::*;

verus! {

/// What is put into the cache for a window that was not in it is taken out again without a trace.
pub proof fn law_remove_undoes_insert(
    windows: Map<Seq<char>, WindowView>,
    address: Seq<char>,
    window: WindowView,
)
    requires
        !windows.contains_key(address),
    ensures
        windows.insert(address, window).contains_key(address),
        windows.insert(address, window)[address] == window,
        windows.insert(address, window).remove(address) == windows,
{
    assert(windows.insert(address, window).remove(address) =~= windows);
}

/// A list of windows leaves those in the cache whose addresses it names, and no others; of those
/// with one address, the last.
pub proof fn law_cache_starts_with_the_listed_windows(clients: Seq<HyprClientView>)
    ensures
        forall|address: Seq<char>| #[trigger]
            windows_listed(clients).contains_key(address) <==> exists|i: int|
                0 <= i < clients.len() && (#[trigger] clients[i]).address == address,
        forall|i: int|
            0 <= i < clients.len() && (forall|j: int|
                i < j < clients.len() ==> (#[trigger] clients[j]).address
                    != clients[i].address) ==> windows_listed(clients)[(
            #[trigger] clients[i]).address] == (WindowView {
                workspace_id: clients[i].workspace_id as i64,
                workspace_name: clients[i].workspace_name,
                class: clients[i].class,
            }),
        windows_listed(clients).dom().finite(),
    decreases clients.len(),
{
    if clients.len() > 0 {
        let before = clients.drop_last();
        let last = clients.last();
        law_cache_starts_with_the_listed_windows(before);
        assert(forall|i: int| 0 <= i < before.len() ==> #[trigger] before[i] == clients[i]);
        assert forall|address: Seq<char>| #[trigger]
            windows_listed(clients).contains_key(address) <==> exists|i: int|
                0 <= i < clients.len() && (#[trigger] clients[i]).address == address by {
            if windows_listed(clients).contains_key(address) {
                if address == last.address {
                    assert(clients[clients.len() - 1].address == address);
                } else {
                    assert(windows_listed(before).contains_key(address));
                    let i = choose|i: int|
                        0 <= i < before.len() && (#[trigger] before[i]).address == address;
                    assert(clients[i].address == address);
                }
            }
            if exists|i: int| 0 <= i < clients.len() && (#[trigger] clients[i]).address == address {
                let i = choose|i: int|
                    0 <= i < clients.len() && (#[trigger] clients[i]).address == address;
                if i < before.len() {
                    assert(before[i].address == address);
                }
            }
        }
        assert forall|i: int|
            0 <= i < clients.len() && (forall|j: int|
                i < j < clients.len() ==> (#[trigger] clients[j]).address
                    != clients[i].address) implies windows_listed(clients)[(
        #[trigger] clients[i]).address] == (WindowView {
            workspace_id: clients[i].workspace_id as i64,
            workspace_name: clients[i].workspace_name,
            class: clients[i].class,
        }) by {
            if i < before.len() {
                assert(before[i] == clients[i]);
                assert(clients[clients.len() - 1].address != clients[i].address);
                assert(forall|j: int|
                    i < j < before.len() ==> (#[trigger] before[j]).address != before[i].address);
            }
        }
    }
}

/// A workspace has as many classes listed as there are windows on it, each of a window on it, and
/// the class of every window on it is listed.
pub proof fn law_one_class_for_each_window(
    windows: Map<Seq<char>, WindowView>,
    workspace_id: i64,
    classes: Seq<Seq<char>>,
)
    requires
        lists_classes(windows, workspace_id, classes),
    ensures
        classes.len() == windows_on(windows, workspace_id).len(),
        forall|class: Seq<char>| #[trigger]
            classes.contains(class) <==> exists|address: Seq<char>| #[trigger]
                windows_on(windows, workspace_id).contains(address) && windows[address].class
                    == class,
{
    let addresses = choose|addresses: Seq<Seq<char>>| #[trigger]
        goes_through(windows, workspace_id, addresses) && classes == classes_at(windows, addresses);
    addresses.unique_seq_to_set();
    let on = windows_on(windows, workspace_id);
    assert forall|class: Seq<char>| #[trigger]
        classes.contains(class) <==> exists|address: Seq<char>| #[trigger]
            on.contains(address) && windows[address].class == class by {
        if classes.contains(class) {
            let i = choose|i: int| 0 <= i < classes.len() && classes[i] == class;
            assert(addresses.contains(addresses[i]));
            assert(addresses.to_set().contains(addresses[i]));
        }
        if exists|address: Seq<char>| #[trigger]
            on.contains(address) && windows[address].class == class {
            let address = choose|address: Seq<char>| #[trigger]
                on.contains(address) && windows[address].class == class;
            assert(addresses.to_set().contains(address));
            let i = choose|i: int| 0 <= i < addresses.len() && addresses[i] == address;
            assert(classes[i] == class);
        }
    }
}

/// What happens to a window that neither was nor is on a workspace does not change which lists of
/// classes are right for it.
pub proof fn law_other_workspaces_keep_their_classes(
    windows: Map<Seq<char>, WindowView>,
    address: Seq<char>,
    window: WindowView,
    workspace_id: i64,
    classes: Seq<Seq<char>>,
)
    requires
        windows.contains_key(address) ==> windows[address].workspace_id != workspace_id,
        window.workspace_id != workspace_id,
    ensures
        lists_classes(windows.insert(address, window), workspace_id, classes) <==> lists_classes(
            windows,
            workspace_id,
            classes,
        ),
        lists_classes(windows.remove(address), workspace_id, classes) <==> lists_classes(
            windows,
            workspace_id,
            classes,
        ),
{
    let inserted = windows.insert(address, window);
    let removed = windows.remove(address);
    let on = windows_on(windows, workspace_id);
    assert(windows_on(inserted, workspace_id) =~= on);
    assert(windows_on(removed, workspace_id) =~= on);
    assert forall|addresses: Seq<Seq<char>>|
        addresses.to_set() == on implies #[trigger] classes_at(windows, addresses) == classes_at(
        inserted,
        addresses,
    ) && classes_at(windows, addresses) == classes_at(removed, addresses) by {
        assert forall|i: int| 0 <= i < addresses.len() implies #[trigger] addresses[i]
            != address by {
            assert(addresses.to_set().contains(addresses[i]));
        }
        assert(classes_at(windows, addresses) =~= classes_at(inserted, addresses));
        assert(classes_at(windows, addresses) =~= classes_at(removed, addresses));
    }
    if lists_classes(windows, workspace_id, classes) {
        let addresses = choose|addresses: Seq<Seq<char>>| #[trigger]
            goes_through(windows, workspace_id, addresses) && classes == classes_at(
                windows,
                addresses,
            );
        assert(goes_through(inserted, workspace_id, addresses));
        assert(goes_through(removed, workspace_id, addresses));
    }
    if lists_classes(inserted, workspace_id, classes) {
        let addresses = choose|addresses: Seq<Seq<char>>| #[trigger]
            goes_through(inserted, workspace_id, addresses) && classes == classes_at(
                inserted,
                addresses,
            );
        assert(goes_through(windows, workspace_id, addresses));
        assert(classes_at(windows, addresses) == classes_at(inserted, addresses));
    }
    if lists_classes(removed, workspace_id, classes) {
        let addresses = choose|addresses: Seq<Seq<char>>| #[trigger]
            goes_through(removed, workspace_id, addresses) && classes == classes_at(
                removed,
                addresses,
            );
        assert(goes_through(windows, workspace_id, addresses));
        assert(classes_at(windows, addresses) == classes_at(removed, addresses));
    }
}

/// A workspace that is found has the name that it was looked for by.
pub proof fn law_found_workspace_has_the_name(
    workspaces: Seq<HyprWorkspaceView>,
    name: Seq<char>,
)
    ensures
        match first_named(workspaces, name) {
            Some(workspace) => workspace.name == name && workspaces.contains(workspace),
            None => forall|i: int|
                0 <= i < workspaces.len() ==> (#[trigger] workspaces[i]).name != name,
        },
    decreases workspaces.len(),
{
    if workspaces.len() > 0 {
        let rest = workspaces.drop_first();
        if workspaces[0].name != name {
            law_found_workspace_has_the_name(rest, name);
            assert(forall|i: int|
                1 <= i < workspaces.len() ==> #[trigger] workspaces[i] == rest[i - 1]);
            if let Some(workspace) = first_named(rest, name) {
                let i = choose|i: int| 0 <= i < rest.len() && rest[i] == workspace;
                assert(workspaces[i + 1] == workspace);
            }
        } else {
            assert(workspaces.contains(workspaces[0]));
        }
    }
}

proof fn lemma_same_set_same_multiset<A, B>(a: Seq<A>, b: Seq<A>, f: spec_fn(A) -> B)
    requires
        a.no_duplicates(),
        b.no_duplicates(),
        a.to_set() == b.to_set(),
    ensures
        a.map_values(f).to_multiset() == b.map_values(f).to_multiset(),
    decreases a.len(),
{
    broadcast use vstd::seq_lib::group_to_multiset_ensures;

    a.unique_seq_to_set();
    b.unique_seq_to_set();
    if a.len() == 0 {
        assert(a.map_values(f) =~= b.map_values(f));
    } else {
        let x = a.last();
        assert(a.to_set().contains(x));
        let j = choose|j: int| 0 <= j < b.len() && b[j] == x;
        let a_rest = a.drop_last();
        let b_rest = b.remove(j);
        assert forall|y: A| a_rest.to_set().contains(y) == b_rest.to_set().contains(y) by {
            if a_rest.contains(y) {
                let i = choose|i: int| 0 <= i < a_rest.len() && a_rest[i] == y;
                assert(a[i] == y);
                assert(a.to_set().contains(y));
                let k = choose|k: int| 0 <= k < b.len() && b[k] == y;
                assert(b_rest[if k < j { k } else { k - 1 }] == y);
            }
            if b_rest.contains(y) {
                let i = choose|i: int| 0 <= i < b_rest.len() && b_rest[i] == y;
                let was = if i < j { i } else { i + 1 };
                assert(b[was] == y);
                assert(b.to_set().contains(y));
                let k = choose|k: int| 0 <= k < a.len() && a[k] == y;
                assert(k != a.len() - 1);
                assert(a_rest[k] == y);
            }
        }
        assert(a_rest.to_set() =~= b_rest.to_set());
        assert(b_rest.no_duplicates()) by {
            assert forall|i: int, k: int|
                0 <= i < b_rest.len() && 0 <= k < b_rest.len() && i != k implies b_rest[i]
                != b_rest[k] by {
                assert(b_rest[i] == b[if i < j { i } else { i + 1 }]);
                assert(b_rest[k] == b[if k < j { k } else { k + 1 }]);
            }
        }
        lemma_same_set_same_multiset(a_rest, b_rest, f);
        assert(a.map_values(f) =~= a_rest.map_values(f).push(f(x)));
        assert(b.map_values(f).remove(j) =~= b_rest.map_values(f));
        let all = b.map_values(f).to_multiset();
        assert(all.contains(f(x))) by {
            assert(b.map_values(f)[j] == f(x));
        }
        assert(all.remove(f(x)).insert(f(x)) =~= all);
    }
}

/// The cache may list classes in any order, and that is all that it may choose.
pub proof fn law_class_lists_differ_in_order_only(
    windows: Map<Seq<char>, WindowView>,
    workspace_id: i64,
    classes: Seq<Seq<char>>,
    others: Seq<Seq<char>>,
)
    requires
        lists_classes(windows, workspace_id, classes),
        lists_classes(windows, workspace_id, others),
    ensures
        classes.to_multiset() == others.to_multiset(),
{
    let a = choose|addresses: Seq<Seq<char>>| #[trigger]
        goes_through(windows, workspace_id, addresses) && classes == classes_at(windows, addresses);
    let b = choose|addresses: Seq<Seq<char>>| #[trigger]
        goes_through(windows, workspace_id, addresses) && others == classes_at(windows, addresses);
    lemma_same_set_same_multiset(a, b, |address: Seq<char>| windows[address].class);
}

/// A window that comes to a workspace adds its class to those that are listed there, and nothing
/// else.
pub proof fn law_new_window_adds_its_class(
    windows: Map<Seq<char>, WindowView>,
    address: Seq<char>,
    window: WindowView,
    before: Seq<Seq<char>>,
    after: Seq<Seq<char>>,
)
    requires
        windows.contains_key(address) ==> windows[address].workspace_id != window.workspace_id,
        lists_classes(windows, window.workspace_id, before),
        lists_classes(windows.insert(address, window), window.workspace_id, after),
    ensures
        after.to_multiset() == before.to_multiset().insert(window.class),
{
    broadcast use vstd::seq_lib::group_to_multiset_ensures;

    let id = window.workspace_id;
    let inserted = windows.insert(address, window);
    let addresses = choose|addresses: Seq<Seq<char>>| #[trigger]
        goes_through(windows, id, addresses) && before == classes_at(windows, addresses);
    let all = addresses.push(address);
    let on = windows_on(windows, id);
    assert(!addresses.to_set().contains(address));
    assert(forall|i: int| 0 <= i < addresses.len() ==> #[trigger] addresses[i] != address) by {
        assert(forall|i: int|
            0 <= i < addresses.len() ==> addresses.to_set().contains(#[trigger] addresses[i]));
    }
    assert(windows_on(inserted, id) =~= on.insert(address));
    assert forall|other: Seq<char>| all.to_set().contains(other) == on.insert(address).contains(
        other,
    ) by {
        if on.contains(other) {
            assert(addresses.to_set().contains(other));
            let i = choose|i: int| 0 <= i < addresses.len() && addresses[i] == other;
            assert(all[i] == other);
        }
        if other == address {
            assert(all[addresses.len() as int] == other);
        }
        if all.contains(other) && other != address {
            let i = choose|i: int| 0 <= i < all.len() && all[i] == other;
            assert(addresses[i] == other);
            assert(addresses.to_set().contains(other));
        }
    }
    assert(all.to_set() =~= windows_on(inserted, id));
    assert(goes_through(inserted, id, all));
    assert(classes_at(inserted, all) =~= before.push(window.class));
    assert(lists_classes(inserted, id, before.push(window.class)));
    law_class_lists_differ_in_order_only(inserted, id, after, before.push(window.class));
}

/// A window that leaves a workspace, by closing or by moving to another one, takes its class from
/// those that are listed there, and nothing else.
pub proof fn law_gone_window_takes_its_class(
    windows: Map<Seq<char>, WindowView>,
    address: Seq<char>,
    left: Map<Seq<char>, WindowView>,
    before: Seq<Seq<char>>,
    after: Seq<Seq<char>>,
)
    requires
        windows.contains_key(address),
        left == windows.remove(address) || exists|window: WindowView|
            window.workspace_id != windows[address].workspace_id && left == #[trigger] windows.insert(
                address,
                window,
            ),
        lists_classes(windows, windows[address].workspace_id, before),
        lists_classes(left, windows[address].workspace_id, after),
    ensures
        before.to_multiset() == after.to_multiset().insert(windows[address].class),
{
    assert(left.insert(address, windows[address]) =~= windows);
    law_new_window_adds_its_class(left, address, windows[address], after, before);
}

/// What a lookup for `trigger` gives where Hyprland listed `workspace` for the name.
pub open spec fn looked_up(
    client: Client,
    trigger: TriggerView,
    workspace: Option<HyprWorkspaceView>,
    shown: bool,
) -> Option<WorkspaceView> {
    match workspace {
        Some(workspace) => Some(client.describes(trigger, workspace, shown)),
        None => None,
    }
}

/// A change of focus is announced from the workspace that was active to the one that is, never to
/// one with the name of the active one, and followed by the word that the new one needs no
/// attention. Where none is announced, the active workspace is what it was. Either way, a
/// workspace that was changed to or moved, and that Hyprland lists, is then the active one.
pub proof fn law_focus_follows_the_active_workspace(
    before: Client,
    after: Client,
    trigger: TriggerView,
    workspace: Option<HyprWorkspaceView>,
    shown: bool,
    reaction: ReactionView,
)
    requires
        after.reacted(before, trigger, looked_up(before, trigger, workspace, shown), reaction),
    ensures
        forall|i: int| 0 <= i < reaction.updates.len() ==> (#[trigger] reaction.updates[i] matches
            UpdateView::Focus { old: was, new: now } ==> {
            &&& was == workspace_view(before.active)
            &&& workspace_view(after.active) == Some(now)
            &&& (was matches Some(was) ==> was.name != now.name)
            &&& i + 1 < reaction.updates.len()
            &&& reaction.updates[i + 1] == (UpdateView::Urgent { id: now.id, urgent: false })
        }),
        (forall|i: int|
            0 <= i < reaction.updates.len() ==> !(#[trigger] reaction.updates[i] is Focus))
            ==> after.active == before.active,
        (trigger is Changed || trigger is Moved) && workspace is Some ==> after.active_name_for(
            trigger,
        ) == Some(workspace->0.name),
{
    if let Some(found) = looked_up(before, trigger, workspace, shown) {
        let announced = focus_updates(workspace_view(before.active), found);
        if !found.is_focused() && (trigger is Changed || trigger is Moved) {
            let at: int = if trigger is Changed { 0 } else { 1 };
            assert(reaction.updates[at] == announced[0]);
            assert(reaction.updates[at + 1] == announced[1]);
        }
    }
}

/// Once a change to a workspace has been dealt with, another word of the same change does nothing.
pub proof fn law_second_change_is_silent(
    before: Client,
    after: Client,
    workspace: HyprWorkspaceView,
    shown: bool,
    reaction: ReactionView,
    again: HyprWorkspaceView,
    shown_again: bool,
    later: Client,
    second: ReactionView,
)
    requires
        after.reacted(
            before,
            TriggerView::Changed,
            Some(before.describes(TriggerView::Changed, workspace, shown)),
            reaction,
        ),
        again.name == workspace.name,
        later.reacted(
            after,
            TriggerView::Changed,
            Some(after.describes(TriggerView::Changed, again, shown_again)),
            second,
        ),
    ensures
        after.active_name_for(TriggerView::Changed) == Some(workspace.name),
        later == after,
        second == ReactionView::sends(seq![]),
{
}

/// Events about windows leave the active workspace alone, and events about workspaces leave the
/// windows alone.
pub proof fn law_windows_and_focus_are_apart(
    before: Client,
    after: Client,
    trigger: TriggerView,
    workspace: Option<WorkspaceView>,
    reaction: ReactionView,
)
    requires
        after.reacted(before, trigger, workspace, reaction),
    ensures
        trigger is WindowOpened || trigger is WindowMoved ==> after.active == before.active,
        trigger is Added || trigger is Changed || trigger is Moved ==> after.window_cache
            == before.window_cache,
        after.use_lua_dispatch == before.use_lua_dispatch,
{
}

/// What is dealt with without asking for the workspaces never changes the active workspace, nor
/// announces a change of focus.
pub proof fn law_direct_events_keep_the_focus(
    before: Client,
    after: Client,
    event: Event,
    step: StepView,
)
    requires
        after.handled(before, event, step),
    ensures
        after.active == before.active,
        after.use_lua_dispatch == before.use_lua_dispatch,
        step matches StepView::Done(reaction) ==> forall|i: int|
            0 <= i < reaction.updates.len() ==> !(#[trigger] reaction.updates[i] is Focus),
{
}

/// A window that opens and closes again leaves the cache as it was, and is announced to leave the
/// workspace that it was announced to enter.
pub proof fn law_close_undoes_open(
    before: Client,
    opened: Client,
    closed: Client,
    address: Address,
    workspace_name: Seq<char>,
    class: Seq<char>,
    workspace: WorkspaceView,
    reaction: ReactionView,
    step: StepView,
)
    requires
        !before.window_cache@.contains_key(address@),
        opened.reacted(
            before,
            TriggerView::WindowOpened { address: address@, workspace_name, class },
            Some(workspace),
            reaction,
        ),
        closed.handled(opened, Event::WindowClosed(address), step),
    ensures
        closed.window_cache@ == before.window_cache@,
        closed.active == before.active,
        reaction.updates.len() == 1,
        reaction.updates[0] matches UpdateView::AddWindow { id, .. } && id == workspace.id,
        step matches StepView::Done(last) && last.updates.len() == 1 && (last.updates[0] matches
            UpdateView::RemoveWindow { id, name, .. } && id == workspace.id && name
            == workspace_name),
{
    assert(closed.window_cache@ =~= before.window_cache@);
}

/// A window that moves stays in the cache, with its class, and the other windows stay where they
/// are. What is not in the cache is not put into it.
pub proof fn law_move_keeps_the_windows(
    before: Client,
    after: Client,
    address: Seq<char>,
    workspace: Option<WorkspaceView>,
    reaction: ReactionView,
)
    requires
        after.reacted(before, TriggerView::WindowMoved { address }, workspace, reaction),
    ensures
        after.window_cache@.dom() == before.window_cache@.dom(),
        forall|other: Seq<char>| #[trigger]
            before.window_cache@.contains_key(other) ==> {
                &&& after.window_cache@[other].class == before.window_cache@[other].class
                &&& other != address ==> after.window_cache@[other] == before.window_cache@[other]
            },
{
    assert(after.window_cache@.dom() =~= before.window_cache@.dom());
}

/// A window that moves to another workspace and back is in the cache as it was.
pub proof fn law_move_back_undoes_move(
    before: Client,
    moved: Client,
    back: Client,
    address: Seq<char>,
    there: WorkspaceView,
    here: WorkspaceView,
    first: ReactionView,
    second: ReactionView,
)
    requires
        before.window_cache@.contains_key(address),
        here.id == before.window_cache@[address].workspace_id,
        here.name == before.window_cache@[address].workspace_name,
        moved.reacted(before, TriggerView::WindowMoved { address }, Some(there), first),
        back.reacted(moved, TriggerView::WindowMoved { address }, Some(here), second),
    ensures
        back.window_cache@ == before.window_cache@,
        back.active == before.active,
{
    assert(back.window_cache@ =~= before.window_cache@);
}

/// A window that opens is cached and announced under the workspace name that it came with.
pub proof fn law_opened_window_keeps_its_workspace_name(
    before: Client,
    after: Client,
    workspaces: Seq<HyprWorkspaceView>,
    address: Seq<char>,
    name: Seq<char>,
    class: Seq<char>,
    shown: bool,
    reaction: ReactionView,
)
    requires
        first_named(workspaces, name) is Some,
        ({
            let trigger = TriggerView::WindowOpened { address, workspace_name: name, class };
            after.reacted(
                before,
                trigger,
                looked_up(before, trigger, first_named(workspaces, name), shown),
                reaction,
            )
        }),
    ensures
        ({
            let id = first_named(workspaces, name)->0.id as i64;
            &&& after.window_cache@[address] == (WindowView {
                workspace_id: id,
                workspace_name: name,
                class,
            })
            &&& reaction.notice is None
            &&& reaction.updates == seq![
                UpdateView::AddWindow {
                    id,
                    name,
                    classes: Some(after.window_cache.class_listing(id)),
                },
            ]
        }),
{
    law_found_workspace_has_the_name(workspaces, name);
}

/// The same word that a window has another class, told twice, is news once.
pub proof fn law_second_class_is_silent(
    before: Client,
    after: Client,
    later: Client,
    event: Event,
    step: StepView,
    second: StepView,
)
    requires
        event is ActiveWindowChanged,
        after.handled(before, event, step),
        later.handled(after, event, second),
    ensures
        later == after,
        second == StepView::Done(ReactionView::sends(seq![])),
{
}

/// A workspace that Hyprland does not list changes nothing, and nothing is sent.
pub proof fn law_unlisted_workspace_changes_nothing(
    before: Client,
    after: Client,
    trigger: TriggerView,
    reaction: ReactionView,
)
    requires
        after.reacted(before, trigger, None, reaction),
    ensures
        after == before,
        reaction.updates.len() == 0,
        reaction.notice == if trigger is Added {
            None
        } else {
            Some(NoticeView::WorkspaceNotFound)
        },
{
}

/// A layout is recovered whole from an event that comes with the keyboard and the layout in one
/// name: that gives the same layout as the event that comes with the two apart.
pub proof fn law_layout_is_recovered(keyboard: Seq<char>, layout: Seq<char>)
    requires
        !keyboard.contains(','),
    ensures
        layout_named(keyboard + seq![','] + layout, seq![]) == Some(layout),
        layout.len() > 0 ==> layout_named(keyboard, layout) == Some(layout),
{
    let text = keyboard + seq![','] + layout;
    assert forall|i: int| 0 <= i < keyboard.len() implies text[i] != ',' by {
        assert(keyboard.contains(keyboard[i]));
    }
    lemma_field_len(text, keyboard.len());
    assert(text.skip(keyboard.len() as int + 1) =~= layout);
}

/// A layout that is named is the layout, whatever the name of the keyboard. Where none is, and the
/// keyboard has no comma in its name, there is none.
pub proof fn law_named_layout_is_taken(keyboard: Seq<char>, layout: Seq<char>)
    ensures
        layout.len() > 0 ==> layout_named(keyboard, layout) == Some(layout),
        layout.len() == 0 && !keyboard.contains(',') ==> layout_named(keyboard, layout) is None,
{
    if !keyboard.contains(',') {
        assert forall|i: int| 0 <= i < keyboard.len() implies keyboard[i] != ',' by {
            assert(keyboard.contains(keyboard[i]));
        }
        lemma_field_len(keyboard, keyboard.len());
    }
}

proof fn lemma_digits_are_apart(a: nat, b: nat)
    requires
        digits(a) == digits(b),
    ensures
        a == b,
    decreases a,
{
    assert(digits(a).last() == digit(a));
    assert(digits(b).last() == digit(b));
    assert(a % 10 == b % 10);
    if a >= 10 && b >= 10 {
        assert(digits(a).drop_last() =~= digits(a / 10));
        assert(digits(b).drop_last() =~= digits(b / 10));
        lemma_digits_are_apart(a / 10, b / 10);
    } else if a >= 10 {
        lemma_digits_len(a / 10);
    } else if b >= 10 {
        lemma_digits_len(b / 10);
    }
}

proof fn lemma_digits_len(value: nat)
    ensures
        digits(value).len() > 0,
        '0' <= digits(value)[0] <= '9',
    decreases value,
{
    if value >= 10 {
        lemma_digits_len(value / 10);
    }
}

/// No two workspaces are asked for with the same argument.
pub proof fn law_lua_arguments_are_apart(a: int, b: int)
    requires
        lua_argument(a) == lua_argument(b),
    ensures
        a == b,
{
    let prefix = "{workspace=\""@;
    let suffix = "\"}"@;
    assert(lua_argument(a).len() == prefix.len() + decimal(a).len() + suffix.len());
    assert(lua_argument(b).len() == prefix.len() + decimal(b).len() + suffix.len());
    let from = prefix.len() as int;
    let to = from + decimal(a).len();
    assert(lua_argument(a).subrange(from, to) =~= decimal(a));
    assert(lua_argument(b).subrange(from, to) =~= decimal(b));
    lemma_digits_len(if a < 0 { (-a) as nat } else { a as nat });
    lemma_digits_len(if b < 0 { (-b) as nat } else { b as nat });
    assert(decimal(a)[0] == '-' <==> a < 0);
    assert(decimal(b)[0] == '-' <==> b < 0);
    if a < 0 {
        assert(decimal(a).skip(1) =~= digits((-a) as nat));
        assert(decimal(b).skip(1) =~= digits((-b) as nat));
        lemma_digits_are_apart((-a) as nat, (-b) as nat);
    } else {
        lemma_digits_are_apart(a as nat, b as nat);
    }
}

} // verus!
