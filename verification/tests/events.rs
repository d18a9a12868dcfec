use hyprland_client::client::Client;
use hyprland_client::event::{ActiveWindow, Event, Step};
use hyprland_client::hypr::{
    create_is_visible, get_workspace_name, Address, HyprClient, HyprWorkspace, Monitor,
    WorkspaceType,
};
use hyprland_client::update::{Notice, Reaction, WorkspaceUpdate};
use hyprland_client::workspace::{Visibility, Workspace};

fn address(text: &str) -> Address {
    Address(text.to_string())
}

fn workspace(id: i32, name: &str) -> HyprWorkspace {
    HyprWorkspace {
        id,
        name: name.to_string(),
        monitor: "DP-1".to_string(),
    }
}

fn workspaces() -> Vec<HyprWorkspace> {
    vec![
        workspace(1, "one"),
        workspace(2, "two"),
        workspace(3, "two"),
        workspace(-98, "magic"),
    ]
}

fn window(at: &str, workspace_id: i32, name: &str, class: &str) -> HyprClient {
    HyprClient {
        address: address(at),
        workspace_id,
        workspace_name: name.to_string(),
        class: class.to_string(),
    }
}

fn windows() -> Vec<HyprClient> {
    vec![
        window("0x1", 1, "one", "kitty"),
        window("0x2", 2, "two", "foot"),
    ]
}

fn regular(name: &str) -> WorkspaceType {
    WorkspaceType::Regular(name.to_string())
}

fn client(active: &str) -> Client {
    let mut client = Client::new(Ok(windows()), Ok("hyprlang".to_string()));
    assert!(client
        .listen_workspace_events(Ok(workspace(1, active)))
        .is_none());
    client
}

/// Deals with an event. Gives what came of it, and whether the monitors were asked for.
fn run(client: &mut Client, event: Event, shown: Vec<i32>) -> (Reaction, bool) {
    match client.handle(event) {
        Step::Done(reaction) => (reaction, false),
        Step::AskClients(at) => (client.with_clients(at, Ok(windows())), false),
        Step::AskMonitors(_) => panic!("the monitors were asked for first"),
        Step::AskWorkspaces(search) => match client.with_workspaces(search, Ok(workspaces())) {
            Step::Done(reaction) => (reaction, false),
            Step::AskMonitors(found) => {
                let monitors = shown
                    .into_iter()
                    .map(|id| Monitor {
                        active_workspace_id: id,
                    })
                    .collect();
                (client.with_monitors(found, Ok(monitors)), true)
            }
            _ => panic!("unexpected step"),
        },
    }
}

fn active_name(client: &Client) -> Option<String> {
    client.active.as_ref().map(|active| active.name.clone())
}

fn is_two(ws: &Workspace, visibility: Visibility) -> bool {
    ws.id == 2
        && ws.index == 2
        && ws.name == "two"
        && ws.monitor == "DP-1"
        && ws.visibility == visibility
        && ws.classes == vec!["foot"]
}

#[test]
fn client_starts_from_the_active_workspace() {
    let client = client("one");
    let active = client.active.as_ref().unwrap();
    assert_eq!(active.id, 1);
    assert_eq!(active.index, 1);
    assert_eq!(active.name, "one");
    assert_eq!(active.monitor, "DP-1");
    assert!(active.visibility == Visibility::focused());
    assert!(active.classes.is_empty());
    assert!(!client.use_lua_dispatch);
}

#[test]
fn client_without_an_active_workspace_says_so() {
    let mut client = Client::new(Err("gone".to_string()), Err("gone".to_string()));
    let notice = client.listen_workspace_events(Err("gone".to_string()));
    assert!(matches!(notice, Some(Notice::ActiveWorkspaceFailed(err)) if err == "gone"));
    assert!(client.active.is_none());
    assert!(!client.use_lua_dispatch);
}

#[test]
fn added_workspace_is_announced() {
    let mut client = client("one");
    let (reaction, asked) = run(&mut client, Event::WorkspaceAdded(regular("two")), vec![2]);
    assert!(asked);
    assert!(reaction.notice.is_none());
    assert_eq!(reaction.updates.len(), 1);
    assert!(matches!(
        &reaction.updates[0],
        WorkspaceUpdate::Add(ws) if is_two(ws, Visibility::visible())
    ));
    assert_eq!(active_name(&client), Some("one".to_string()));
}

#[test]
fn added_workspace_that_is_not_listed_is_passed_over() {
    let mut client = client("one");
    let (reaction, _) = run(&mut client, Event::WorkspaceAdded(regular("none")), vec![]);
    assert!(reaction.updates.is_empty());
    assert!(reaction.notice.is_none());
}

#[test]
fn changed_workspace_takes_the_focus() {
    let mut client = client("one");
    let (reaction, asked) = run(&mut client, Event::WorkspaceChanged(regular("two")), vec![1]);
    assert!(asked);
    assert_eq!(reaction.updates.len(), 2);
    match &reaction.updates[0] {
        WorkspaceUpdate::Focus { old, new } => {
            assert_eq!(old.as_ref().unwrap().name, "one");
            assert!(is_two(new, Visibility::Hidden));
        }
        _ => panic!("no change of focus"),
    }
    assert!(matches!(
        reaction.updates[1],
        WorkspaceUpdate::Urgent {
            id: 2,
            urgent: false
        }
    ));
    assert_eq!(active_name(&client), Some("two".to_string()));
}

#[test]
fn second_change_is_silent() {
    let mut client = client("one");
    run(&mut client, Event::WorkspaceChanged(regular("two")), vec![]);
    let (reaction, asked) = run(&mut client, Event::WorkspaceChanged(regular("two")), vec![]);
    assert!(!asked);
    assert!(reaction.updates.is_empty());
    assert!(reaction.notice.is_none());
}

#[test]
fn focus_goes_on_from_where_it_was() {
    let mut client = client("one");
    run(&mut client, Event::WorkspaceChanged(regular("two")), vec![]);
    let special = WorkspaceType::Special(Some("magic".to_string()));
    let (reaction, _) = run(&mut client, Event::ActiveMonitorChanged(Some(special)), vec![]);
    match &reaction.updates[0] {
        WorkspaceUpdate::Focus { old, new } => {
            assert!(is_two(old.as_ref().unwrap(), Visibility::Hidden));
            assert_eq!(new.id, -98);
        }
        _ => panic!("no change of focus"),
    }
}

#[test]
fn active_monitor_without_a_workspace_is_noted() {
    let mut client = client("one");
    let (reaction, _) = run(&mut client, Event::ActiveMonitorChanged(None), vec![]);
    assert!(reaction.updates.is_empty());
    assert!(matches!(reaction.notice, Some(Notice::NoWorkspaceName)));
}

#[test]
fn workspace_that_is_not_listed_is_noted() {
    for event in [
        Event::WorkspaceChanged(regular("none")),
        Event::ActiveMonitorChanged(Some(WorkspaceType::Special(None))),
        Event::WorkspaceMoved(regular("none")),
        Event::WindowMoved {
            address: address("0x1"),
            workspace: regular("none"),
        },
        Event::WindowOpened {
            address: address("0x9"),
            workspace_name: "none".to_string(),
            class: "mpv".to_string(),
        },
    ] {
        let mut client = client("one");
        let (reaction, _) = run(&mut client, event, vec![]);
        assert!(reaction.updates.is_empty());
        assert!(matches!(reaction.notice, Some(Notice::WorkspaceNotFound)));
        assert_eq!(active_name(&client), Some("one".to_string()));
        assert_eq!(
            client.window_cache.get_classes_for_workspace(1),
            vec!["kitty"]
        );
    }
}

#[test]
fn failing_to_ask_for_the_workspaces_is_noted() {
    let mut client = client("one");
    let Step::AskWorkspaces(search) = client.handle(Event::WorkspaceAdded(regular("two"))) else {
        panic!("the workspaces were not asked for");
    };
    assert_eq!(search.name, "two");
    let Step::Done(reaction) = client.with_workspaces(search, Err("broken pipe".to_string())) else {
        panic!("more was asked for");
    };
    assert!(reaction.updates.is_empty());
    assert!(matches!(reaction.notice, Some(Notice::WorkspaceFailed(err)) if err == "broken pipe"));
}

#[test]
fn failing_to_ask_for_the_monitors_hides_the_workspace() {
    let mut client = client("one");
    let Step::AskWorkspaces(search) = client.handle(Event::WorkspaceAdded(regular("two"))) else {
        panic!("the workspaces were not asked for");
    };
    let Step::AskMonitors(found) = client.with_workspaces(search, Ok(workspaces())) else {
        panic!("the monitors were not asked for");
    };
    let reaction = client.with_monitors(found, Err("broken pipe".to_string()));
    assert!(reaction.notice.is_none());
    assert!(matches!(
        &reaction.updates[0],
        WorkspaceUpdate::Add(ws) if is_two(ws, Visibility::Hidden)
    ));
}

#[test]
fn moved_workspace_is_announced_and_takes_the_focus() {
    let mut client = client("one");
    let (reaction, _) = run(&mut client, Event::WorkspaceMoved(regular("two")), vec![2]);
    assert_eq!(reaction.updates.len(), 3);
    assert!(matches!(
        &reaction.updates[0],
        WorkspaceUpdate::Move(ws) if is_two(ws, Visibility::visible())
    ));
    assert!(matches!(
        &reaction.updates[1],
        WorkspaceUpdate::Focus { new, .. } if is_two(new, Visibility::visible())
    ));
    assert!(matches!(
        reaction.updates[2],
        WorkspaceUpdate::Urgent {
            id: 2,
            urgent: false
        }
    ));
    assert_eq!(active_name(&client), Some("two".to_string()));

    let (reaction, asked) = run(&mut client, Event::WorkspaceMoved(regular("two")), vec![2]);
    assert!(!asked);
    assert_eq!(reaction.updates.len(), 1);
    assert!(matches!(
        &reaction.updates[0],
        WorkspaceUpdate::Move(ws) if is_two(ws, Visibility::focused())
    ));
}

#[test]
fn renamed_workspace_is_announced_with_its_classes() {
    let mut client = client("one");
    let (reaction, _) = run(
        &mut client,
        Event::WorkspaceRenamed {
            id: 2,
            name: "deux".to_string(),
        },
        vec![],
    );
    assert_eq!(reaction.updates.len(), 1);
    assert!(matches!(
        &reaction.updates[0],
        WorkspaceUpdate::Rename { id: 2, name, classes: Some(classes) }
            if name == "deux" && *classes == vec!["foot"]
    ));
}

#[test]
fn deleted_workspace_is_announced() {
    let mut client = client("one");
    let (reaction, _) = run(&mut client, Event::WorkspaceDeleted(-98), vec![]);
    assert!(matches!(reaction.updates[..], [WorkspaceUpdate::Remove(-98)]));
}

#[test]
fn urgent_window_makes_its_workspace_urgent() {
    let mut client = client("one");
    let (reaction, _) = run(&mut client, Event::UrgentStateChanged(address("0x2")), vec![]);
    assert!(matches!(
        reaction.updates[..],
        [WorkspaceUpdate::Urgent {
            id: 2,
            urgent: true
        }]
    ));
    let (reaction, _) = run(&mut client, Event::UrgentStateChanged(address("0x9")), vec![]);
    assert!(reaction.updates.is_empty());
    assert!(matches!(reaction.notice, Some(Notice::ClientNotFound)));
    let reaction = client.with_clients(address("0x2"), Err("gone".to_string()));
    assert!(reaction.updates.is_empty());
    assert!(matches!(reaction.notice, Some(Notice::ClientsFailed(err)) if err == "gone"));
}

#[test]
fn opened_window_is_announced_and_closed_again() {
    let mut client = client("two");
    let (reaction, asked) = run(
        &mut client,
        Event::WindowOpened {
            address: address("0x9"),
            workspace_name: "two".to_string(),
            class: "mpv".to_string(),
        },
        vec![],
    );
    // The active workspace plays no part when a window opens.
    assert!(asked);
    assert_eq!(reaction.updates.len(), 1);
    match &reaction.updates[0] {
        WorkspaceUpdate::AddWindow {
            id: 2,
            name,
            classes: Some(classes),
        } => {
            let mut classes = classes.clone();
            classes.sort();
            assert_eq!(name, "two");
            assert_eq!(classes, vec!["foot", "mpv"]);
        }
        _ => panic!("the window was not announced"),
    }

    let (reaction, _) = run(&mut client, Event::WindowClosed(address("0x9")), vec![]);
    assert!(matches!(
        &reaction.updates[..],
        [WorkspaceUpdate::RemoveWindow { id: 2, name, classes: Some(classes) }]
            if name == "two" && *classes == vec!["foot"]
    ));

    let (reaction, _) = run(&mut client, Event::WindowClosed(address("0x9")), vec![]);
    assert!(reaction.updates.is_empty());
    assert!(matches!(reaction.notice, Some(Notice::UnknownWindowClosed(at)) if at == "0x9"));
}

#[test]
fn moved_window_leaves_one_workspace_for_another() {
    let mut client = client("one");
    let (reaction, asked) = run(
        &mut client,
        Event::WindowMoved {
            address: address("0x2"),
            workspace: regular("one"),
        },
        vec![],
    );
    assert!(!asked);
    assert_eq!(reaction.updates.len(), 2);
    assert!(matches!(
        &reaction.updates[0],
        WorkspaceUpdate::RemoveWindow { id: 2, name, classes: Some(classes) }
            if name == "two" && classes.is_empty()
    ));
    match &reaction.updates[1] {
        WorkspaceUpdate::AddWindow {
            id: 1,
            name,
            classes: Some(classes),
        } => {
            let mut classes = classes.clone();
            classes.sort();
            assert_eq!(name, "one");
            assert_eq!(classes, vec!["foot", "kitty"]);
        }
        _ => panic!("the window was not announced"),
    }
    assert_eq!(active_name(&client), Some("one".to_string()));

    let (reaction, _) = run(
        &mut client,
        Event::WindowMoved {
            address: address("0x9"),
            workspace: regular("two"),
        },
        vec![],
    );
    assert!(reaction.updates.is_empty());
    assert!(matches!(reaction.notice, Some(Notice::UnknownWindowMoved(name)) if name == "two"));
}

#[test]
fn changed_class_is_announced_once() {
    let mut client = client("one");
    let event = || {
        Event::ActiveWindowChanged(Some(ActiveWindow {
            address: address("0x1"),
            class: "org.kitty".to_string(),
        }))
    };
    let (reaction, _) = run(&mut client, event(), vec![]);
    assert!(matches!(
        &reaction.updates[..],
        [WorkspaceUpdate::AddWindow { id: 1, name, classes: Some(classes) }]
            if name == "one" && *classes == vec!["org.kitty"]
    ));
    let (reaction, _) = run(&mut client, event(), vec![]);
    assert!(reaction.updates.is_empty());
    assert!(reaction.notice.is_none());
}

#[test]
fn class_that_is_empty_or_of_no_window_is_passed_over() {
    let mut client = client("one");
    for window in [
        None,
        Some(ActiveWindow {
            address: address("0x1"),
            class: String::new(),
        }),
        Some(ActiveWindow {
            address: address("0x9"),
            class: "mpv".to_string(),
        }),
    ] {
        let (reaction, _) = run(&mut client, Event::ActiveWindowChanged(window), vec![]);
        assert!(reaction.updates.is_empty());
        assert!(reaction.notice.is_none());
    }
    assert_eq!(
        client.window_cache.get_classes_for_workspace(1),
        vec!["kitty"]
    );
}

#[test]
fn subscriber_is_sent_all_workspaces() {
    let client = client("one");
    let reaction = client.subscribe(
        Ok(workspace(2, "two")),
        Ok(vec![
            Monitor {
                active_workspace_id: 1,
            },
            Monitor {
                active_workspace_id: 2,
            },
        ]),
        Ok(workspaces()),
    );
    assert!(reaction.notice.is_none());
    assert_eq!(reaction.updates.len(), 1);
    let WorkspaceUpdate::Init(all) = &reaction.updates[0] else {
        panic!("no list of workspaces");
    };
    assert_eq!(all.len(), 4);
    assert!(all[0].visibility == Visibility::visible());
    assert_eq!(all[0].classes, vec!["kitty"]);
    assert!(is_two(&all[1], Visibility::focused()));
    assert_eq!(all[2].id, 3);
    assert!(all[2].visibility == Visibility::focused());
    assert!(all[3].visibility == Visibility::Hidden);
    assert!(all[3].classes.is_empty());
}

#[test]
fn subscriber_is_sent_what_could_be_asked_for() {
    let client = client("one");
    let gone = || "gone".to_string();
    let reaction = client.subscribe(Err(gone()), Err(gone()), Ok(workspaces()));
    let WorkspaceUpdate::Init(all) = &reaction.updates[0] else {
        panic!("no list of workspaces");
    };
    assert!(all.iter().all(|ws| ws.visibility == Visibility::Hidden));

    let reaction = client.subscribe(Ok(workspace(1, "one")), Ok(vec![]), Err(gone()));
    assert!(reaction.updates.is_empty());
    assert!(matches!(reaction.notice, Some(Notice::WorkspacesFailed(err)) if err == "gone"));
}

#[test]
fn workspace_names() {
    assert_eq!(get_workspace_name(regular("one")), "one");
    assert_eq!(
        get_workspace_name(WorkspaceType::Special(Some("magic".to_string()))),
        "magic"
    );
    assert_eq!(get_workspace_name(WorkspaceType::Special(None)), "");
}

#[test]
fn visible_workspaces_are_those_on_monitors() {
    let is_visible = create_is_visible(Ok(vec![Monitor {
        active_workspace_id: 2,
    }]));
    assert!(is_visible(&workspace(2, "two")));
    assert!(!is_visible(&workspace(1, "one")));
    let is_visible = create_is_visible(Err("gone".to_string()));
    assert!(!is_visible(&workspace(2, "two")));
}

#[test]
fn updates_are_copied_whole() {
    let mut client = client("one");
    let (reaction, _) = run(&mut client, Event::WorkspaceMoved(regular("two")), vec![2]);
    let copy = reaction.updates.clone();
    assert_eq!(format!("{:?}", copy), format!("{:?}", reaction.updates));
}
