//! The state that is kept of the compositor, and how events change it.
//!
//! An event may call for something that only Hyprland knows. The caller then gets a [`Step`] that
//! says what to ask, and hands the reply to the method that the step names.

use crate::cache::{lists_classes, windows_replied, WindowCache, WindowView};
use crate::config::{detect_lua_config, is_lua};
use crate::event::{Answers, Event, Found, Search, Step, StepView, Trigger, TriggerView};
use crate::hypr::{
    create_is_visible, get_workspace_name, monitors_in, shown, workspace_views, Address,
    HyprClient, HyprWorkspace, HyprWorkspaceView, Monitor,
};
use crate::lookup::{
    client_views, find_client_workspace, find_workspace, first_at, first_named,
    get_active_workspace, get_workspace,
};
use crate::update::{
    tells_classes, update_views, workspace_view, Notice, NoticeView, Reaction, ReactionView,
    UpdateView, WorkspaceUpdate,
};
use crate::workspace::{described, is_active, visibility_of, Visibility, Workspace, WorkspaceView};
use vstd::prelude::*;

verus! {

/// What is kept of the compositor.
#[derive(Debug)]
pub struct Client {
    pub window_cache: WindowCache,
    /// The active workspace, since Hyprland does not say which one was active before.
    pub active: Option<Workspace>,
    /// Dispatchers are called in the Lua form.
    pub use_lua_dispatch: bool,
}

/// What is sent when the active workspace changes.
pub open spec fn focus_updates(was: Option<WorkspaceView>, now: WorkspaceView) -> Seq<UpdateView> {
    seq![
        UpdateView::Focus { old: was, new: now },
        UpdateView::Urgent { id: now.id, urgent: false },
    ]
}

/// Every list of classes in what is sent is that of the windows in the cache.
pub open spec fn tells_all_classes(
    windows: Map<Seq<char>, WindowView>,
    reaction: ReactionView,
) -> bool {
    forall|i: int|
        0 <= i < reaction.updates.len() ==> tells_classes(windows, #[trigger] reaction.updates[i])
}

/// `reaction` says that the workspace of the window at the address asks for attention.
pub open spec fn makes_urgent(
    address: Seq<char>,
    reply: Result<Vec<HyprClient>, String>,
    reaction: ReactionView,
) -> bool {
    reaction == (match reply {
        Err(error) => ReactionView::notes(NoticeView::ClientsFailed(error@)),
        Ok(clients) => match first_at(client_views(clients@), address) {
            None => ReactionView::notes(NoticeView::ClientNotFound),
            Some(client) => ReactionView::sends(
                seq![UpdateView::Urgent { id: client.workspace_id as i64, urgent: true }],
            ),
        },
    })
}

impl Client {
    /// The name of the active workspace, where a lookup for `trigger` goes by it: for a window
    /// that opens, no workspace is taken to be the active one.
    pub open spec fn active_name_for(self, trigger: TriggerView) -> Option<Seq<char>> {
        match (trigger, self.active) {
            (TriggerView::WindowOpened { .. }, _) => None,
            (_, Some(active)) => Some(active.name@),
            (_, None) => None,
        }
    }

    /// The workspace that `workspace` is, for a status bar.
    pub open spec fn describes(
        self,
        trigger: TriggerView,
        workspace: HyprWorkspaceView,
        shown: bool,
    ) -> WorkspaceView {
        described(
            workspace,
            visibility_of(self.active_name_for(trigger) == Some(workspace.name), shown),
            self.window_cache.class_listing(workspace.id as i64),
        )
    }

    /// The active workspace is `workspace`, and nothing else is other than in `before`.
    pub open spec fn focused_since(self, before: Client, workspace: WorkspaceView) -> bool {
        &&& self.window_cache == before.window_cache
        &&& self.use_lua_dispatch == before.use_lua_dispatch
        &&& workspace_view(self.active) == Some(workspace)
    }

    /// The cache holds `windows`, and nothing else is other than in `before`.
    pub open spec fn cached_since(
        self,
        before: Client,
        windows: Map<Seq<char>, WindowView>,
    ) -> bool {
        &&& self.window_cache@ == windows
        &&& self.active == before.active
        &&& self.use_lua_dispatch == before.use_lua_dispatch
    }

    /// `reaction` is the reaction to a trigger whose workspace is `workspace`, and `self` is what
    /// it makes of `before`.
    pub open spec fn reacted(
        self,
        before: Client,
        trigger: TriggerView,
        workspace: Option<WorkspaceView>,
        reaction: ReactionView,
    ) -> bool {
        match workspace {
            None => {
                &&& self == before
                &&& reaction == (match trigger {
                    TriggerView::Added => ReactionView::sends(seq![]),
                    _ => ReactionView::notes(NoticeView::WorkspaceNotFound),
                })
            },
            Some(workspace) => match trigger {
                TriggerView::Added => {
                    &&& self == before
                    &&& reaction == ReactionView::sends(seq![UpdateView::Add(workspace)])
                },
                TriggerView::Changed => if workspace.is_focused() {
                    &&& self == before
                    &&& reaction == ReactionView::sends(seq![])
                } else {
                    &&& self.focused_since(before, workspace)
                    &&& reaction == ReactionView::sends(
                        focus_updates(workspace_view(before.active), workspace),
                    )
                },
                TriggerView::Moved => if workspace.is_focused() {
                    &&& self == before
                    &&& reaction == ReactionView::sends(seq![UpdateView::Move(workspace)])
                } else {
                    &&& self.focused_since(before, workspace)
                    &&& reaction == ReactionView::sends(
                        seq![UpdateView::Move(workspace)] + focus_updates(
                            workspace_view(before.active),
                            workspace,
                        ),
                    )
                },
                TriggerView::WindowOpened { address, workspace_name, class } => {
                    &&& self.cached_since(
                        before,
                        before.window_cache@.insert(
                            address,
                            WindowView { workspace_id: workspace.id, workspace_name, class },
                        ),
                    )
                    &&& reaction == ReactionView::sends(
                        seq![
                            UpdateView::AddWindow {
                                id: workspace.id,
                                name: workspace.name,
                                classes: Some(self.window_cache.class_listing(workspace.id)),
                            },
                        ],
                    )
                },
                TriggerView::WindowMoved { address } => if before.window_cache@.contains_key(
                    address,
                ) {
                    let window = before.window_cache@[address];
                    &&& self.cached_since(
                        before,
                        before.window_cache@.insert(
                            address,
                            WindowView {
                                workspace_id: workspace.id,
                                workspace_name: workspace.name,
                                class: window.class,
                            },
                        ),
                    )
                    &&& reaction == ReactionView::sends(
                        seq![
                            UpdateView::RemoveWindow {
                                id: window.workspace_id,
                                name: window.workspace_name,
                                classes: Some(self.window_cache.class_listing(window.workspace_id)),
                            },
                            UpdateView::AddWindow {
                                id: workspace.id,
                                name: workspace.name,
                                classes: Some(self.window_cache.class_listing(workspace.id)),
                            },
                        ],
                    )
                } else {
                    &&& self == before
                    &&& reaction == ReactionView::notes(
                        NoticeView::UnknownWindowMoved(workspace.name),
                    )
                },
            },
        }
    }

    /// `self` is what to start from.
    pub open spec fn started(
        self,
        clients: Result<Vec<HyprClient>, String>,
        provider: Result<String, String>,
    ) -> bool {
        &&& self.window_cache@ == windows_replied(clients)
        &&& self.active is None
        &&& self.use_lua_dispatch == is_lua(provider)
    }

    /// `self` is `before` with the active workspace of the reply noted.
    pub open spec fn listening_since(
        self,
        before: Client,
        reply: Result<HyprWorkspace, String>,
        notice: Option<Notice>,
    ) -> bool {
        &&& self.window_cache == before.window_cache
        &&& self.use_lua_dispatch == before.use_lua_dispatch
        &&& match reply {
            Ok(workspace) => {
                &&& notice is None
                &&& workspace_view(self.active) == Some(
                    described(workspace@, visibility_of(true, true), seq![]),
                )
            },
            Err(error) => {
                &&& notice matches Some(notice)
                &&& notice@ == NoticeView::ActiveWorkspaceFailed(error@)
                &&& self.active is None
            },
        }
    }

    /// `reaction` is what a new subscriber is sent.
    pub open spec fn subscribed(
        self,
        active: Result<HyprWorkspace, String>,
        monitors: Result<Vec<Monitor>, String>,
        workspaces: Result<Vec<HyprWorkspace>, String>,
        reaction: ReactionView,
    ) -> bool {
        reaction == (match workspaces {
            Ok(workspaces) => ReactionView::sends(
                seq![
                    UpdateView::Init(
                        workspace_views(workspaces@).map_values(
                            |workspace: HyprWorkspaceView|
                                described(
                                    workspace,
                                    visibility_of(
                                        active matches Ok(active) && active.name@
                                            == workspace.name,
                                        shown(monitors_in(monitors), workspace.id),
                                    ),
                                    self.window_cache.class_listing(workspace.id as i64),
                                ),
                        ),
                    ),
                ],
            ),
            Err(error) => ReactionView::notes(NoticeView::WorkspacesFailed(error@)),
        })
    }

    /// `step` follows where Hyprland was asked for the workspaces, and `self` is what it makes of
    /// `before`.
    pub open spec fn searched(
        self,
        before: Client,
        trigger: TriggerView,
        name: Seq<char>,
        reply: Result<Vec<HyprWorkspace>, String>,
        step: StepView,
    ) -> bool {
        match reply {
            Err(error) => {
                &&& self == before
                &&& step == StepView::Done(
                    ReactionView::notes(NoticeView::WorkspaceFailed(error@)),
                )
            },
            Ok(workspaces) => match first_named(workspace_views(workspaces@), name) {
                None => {
                    &&& step matches StepView::Done(reaction)
                    &&& self.reacted(before, trigger, None, reaction)
                },
                Some(workspace) => if before.active_name_for(trigger) == Some(workspace.name) {
                    &&& step matches StepView::Done(reaction)
                    &&& self.reacted(
                        before,
                        trigger,
                        Some(before.describes(trigger, workspace, true)),
                        reaction,
                    )
                } else {
                    &&& self == before
                    &&& step == StepView::AskMonitors { trigger, workspace }
                },
            },
        }
    }

    /// `reaction` follows where Hyprland was asked for the monitors, and `self` is what it makes
    /// of `before`.
    pub open spec fn located(
        self,
        before: Client,
        trigger: TriggerView,
        workspace: HyprWorkspaceView,
        reply: Result<Vec<Monitor>, String>,
        reaction: ReactionView,
    ) -> bool {
        self.reacted(
            before,
            trigger,
            Some(before.describes(trigger, workspace, shown(monitors_in(reply), workspace.id))),
            reaction,
        )
    }

    /// `reaction` comes of `event` at the last of its steps, where Hyprland answers with
    /// `answers`, and `self` is what it makes of `before`.
    pub open spec fn came_of(
        self,
        before: Client,
        event: Event,
        answers: Answers,
        reaction: ReactionView,
    ) -> bool {
        exists|first: Client, step: StepView| #[trigger]
            first.handled(before, event, step) && self.concluded(first, step, answers, reaction)
    }

    /// `reaction` is what `step` and those after it lead to, and `self` what they make of
    /// `before`.
    pub open spec fn concluded(
        self,
        before: Client,
        step: StepView,
        answers: Answers,
        reaction: ReactionView,
    ) -> bool {
        match step {
            StepView::Done(done) => self == before && reaction == done,
            StepView::AskClients { address } => self == before && makes_urgent(
                address,
                answers.clients,
                reaction,
            ),
            StepView::AskMonitors { trigger, workspace } => self.located(
                before,
                trigger,
                workspace,
                answers.monitors,
                reaction,
            ),
            StepView::AskWorkspaces { trigger, name } => self.looked_into(
                before,
                trigger,
                name,
                answers,
                reaction,
            ),
        }
    }

    /// `reaction` is what looking up the name for `trigger` leads to, and `self` what it makes of
    /// `before`.
    pub open spec fn looked_into(
        self,
        before: Client,
        trigger: TriggerView,
        name: Seq<char>,
        answers: Answers,
        reaction: ReactionView,
    ) -> bool {
        exists|second: Client, next: StepView| #[trigger]
            second.searched(before, trigger, name, answers.workspaces, next) && self.found_out(
                second,
                next,
                answers,
                reaction,
            )
    }

    /// `reaction` is what comes of `step`, which follows the workspaces, and `self` is what it
    /// makes of `before`.
    pub open spec fn found_out(
        self,
        before: Client,
        step: StepView,
        answers: Answers,
        reaction: ReactionView,
    ) -> bool {
        match step {
            StepView::Done(done) => self == before && reaction == done,
            StepView::AskMonitors { trigger, workspace } => self.located(
                before,
                trigger,
                workspace,
                answers.monitors,
                reaction,
            ),
            _ => false,
        }
    }

    /// Starts from the windows that Hyprland lists, and from what provides its configuration.
    pub fn new(
        clients: Result<Vec<HyprClient>, String>,
        provider: Result<String, String>,
    ) -> (client: Client)
        ensures
            client.started(clients, provider),
    {
        Client {
            window_cache: WindowCache::new(clients),
            active: None,
            use_lua_dispatch: detect_lua_config(provider),
        }
    }

    /// Takes note of the workspace that is active before the first event.
    pub fn listen_workspace_events(
        &mut self,
        reply: Result<HyprWorkspace, String>,
    ) -> (notice: Option<Notice>)
        ensures
            final(self).listening_since(*old(self), reply, notice),
    {
        match get_active_workspace(reply) {
            Ok(workspace) => {
                self.active = Some(workspace);
                None
            },
            Err(error) => {
                self.active = None;
                Some(Notice::ActiveWorkspaceFailed(error))
            },
        }
    }

    /// What a new subscriber is sent: all workspaces, as Hyprland lists them.
    ///
    /// That the active workspace could not be asked for only leaves none of them focused.
    pub fn subscribe(
        &self,
        active: Result<HyprWorkspace, String>,
        monitors: Result<Vec<Monitor>, String>,
        workspaces: Result<Vec<HyprWorkspace>, String>,
    ) -> (reaction: Reaction)
        ensures
            self.subscribed(active, monitors, workspaces, reaction@),
            tells_all_classes(self.window_cache@, reaction@),
    {
        let listed = match workspaces {
            Ok(workspaces) => workspaces,
            Err(error) => {
                return Reaction::note(Notice::WorkspacesFailed(error));
            },
        };
        let active_name = match &active {
            Ok(active) => Some(&active.name),
            Err(_) => None,
        };
        let is_visible = create_is_visible(monitors);
        let ghost describe = |workspace: HyprWorkspaceView|
            described(
                workspace,
                visibility_of(
                    active matches Ok(active) && active.name@ == workspace.name,
                    shown(monitors_in(monitors), workspace.id),
                ),
                self.window_cache.class_listing(workspace.id as i64),
            );
        let mut all: Vec<Workspace> = Vec::new();
        for workspace in iter: listed.into_iter()
            invariant
                iter.seq() == listed@,
                all.len() == iter.index(),
                active_name == (match &active {
                    Ok(active) => Some(&active.name),
                    Err(_) => None,
                }),
                forall|workspace: &HyprWorkspace| #[trigger]
                    call_requires(is_visible, (workspace,)),
                forall|workspace: &HyprWorkspace, visible: bool| #[trigger]
                    call_ensures(is_visible, (workspace,), visible) ==> visible == shown(
                        monitors_in(monitors),
                        workspace.id,
                    ),
                forall|workspace: HyprWorkspaceView| #[trigger]
                    describe(workspace) == described(
                        workspace,
                        visibility_of(
                            active matches Ok(active) && active.name@ == workspace.name,
                            shown(monitors_in(monitors), workspace.id),
                        ),
                        self.window_cache.class_listing(workspace.id as i64),
                    ),
                forall|i: int|
                    0 <= i < all.len() ==> (#[trigger] all@[i])@ == describe(listed@[i]@)
                        && lists_classes(self.window_cache@, all@[i].id, all@[i]@.classes),
        {
            let visibility = Visibility::from(&workspace, active_name, &is_visible);
            all.push(get_workspace(visibility, workspace, &self.window_cache));
        }
        assert(all@.map_values(|workspace: Workspace| workspace@) =~= workspace_views(
            listed@,
        ).map_values(describe));
        Reaction::one(WorkspaceUpdate::Init(all))
    }

    /// Puts into `tx` that the active workspace changed, and that the new one needs no attention,
    /// and notes the new one as the active one.
    pub fn send_focus_change(
        prev_workspace: &mut Option<Workspace>,
        workspace: Workspace,
        tx: &mut Vec<WorkspaceUpdate>,
    )
        ensures
            workspace_view(*final(prev_workspace)) == Some(workspace@),
            update_views(final(tx)@) == update_views(old(tx)@) + focus_updates(
                workspace_view(*old(prev_workspace)),
                workspace@,
            ),
    {
        let ghost sent = update_views(tx@);
        let focus = WorkspaceUpdate::Focus { old: prev_workspace.take(), new: workspace.clone() };
        let urgent = WorkspaceUpdate::Urgent { id: workspace.id, urgent: false };
        assert(update_views(tx@.push(focus).push(urgent)) =~= sent + seq![focus@, urgent@]);
        tx.push(focus);
        tx.push(urgent);
        *prev_workspace = Some(workspace);
    }

    /// Deals with what was looked up for `trigger`.
    pub fn react(&mut self, trigger: Trigger, workspace: Option<Workspace>) -> (reaction: Reaction)
        ensures
            final(self).reacted(*old(self), trigger@, workspace_view(workspace), reaction@),
            (workspace matches Some(workspace) ==> lists_classes(
                old(self).window_cache@,
                workspace.id,
                workspace@.classes,
            )) ==> tells_all_classes(final(self).window_cache@, reaction@),
    {
        let workspace = match workspace {
            Some(workspace) => workspace,
            None => {
                return match trigger {
                    Trigger::Added => Reaction::none(),
                    _ => Reaction::note(Notice::WorkspaceNotFound),
                };
            },
        };
        match trigger {
            Trigger::Added => Reaction::one(WorkspaceUpdate::Add(workspace)),
            Trigger::Changed => {
                if workspace.visibility.is_focused() {
                    return Reaction::none();
                }
                let mut updates: Vec<WorkspaceUpdate> = Vec::new();
                assert(update_views(updates@) =~= seq![]);
                Self::send_focus_change(&mut self.active, workspace, &mut updates);
                assert(update_views(updates@) =~= focus_updates(
                    workspace_view(old(self).active),
                    workspace@,
                ));
                Reaction { updates, notice: None }
            },
            Trigger::Moved => {
                let mut updates: Vec<WorkspaceUpdate> = Vec::new();
                updates.push(WorkspaceUpdate::Move(workspace.clone()));
                assert(update_views(updates@) =~= seq![UpdateView::Move(workspace@)]);
                if !workspace.visibility.is_focused() {
                    Self::send_focus_change(&mut self.active, workspace, &mut updates);
                }
                Reaction { updates, notice: None }
            },
            Trigger::WindowOpened { address, workspace_name, class } => {
                self.window_cache.insert(address, workspace.id, workspace_name, class);
                let classes = self.window_cache.get_classes_for_workspace(workspace.id);
                Reaction::one(
                    WorkspaceUpdate::AddWindow {
                        id: workspace.id,
                        name: workspace.name,
                        classes: Some(classes),
                    },
                )
            },
            Trigger::WindowMoved { address } => {
                match self.window_cache.remove_entry(&address) {
                    Some((address, record)) => {
                        self.window_cache.insert(
                            address,
                            workspace.id,
                            workspace.name.clone(),
                            record.class,
                        );
                        assert(self.window_cache@ =~= old(self).window_cache@.insert(
                            address@,
                            WindowView {
                                workspace_id: workspace.id,
                                workspace_name: workspace.name@,
                                class: record.class@,
                            },
                        ));
                        let left = WorkspaceUpdate::RemoveWindow {
                            id: record.workspace_id,
                            name: record.workspace_name,
                            classes: Some(
                                self.window_cache.get_classes_for_workspace(record.workspace_id),
                            ),
                        };
                        let entered = WorkspaceUpdate::AddWindow {
                            id: workspace.id,
                            name: workspace.name,
                            classes: Some(
                                self.window_cache.get_classes_for_workspace(workspace.id),
                            ),
                        };
                        let mut updates: Vec<WorkspaceUpdate> = Vec::new();
                        updates.push(left);
                        updates.push(entered);
                        assert(update_views(updates@) =~= seq![left@, entered@]);
                        Reaction { updates, notice: None }
                    },
                    None => Reaction::note(Notice::UnknownWindowMoved(workspace.name)),
                }
            },
        }
    }

    /// `step` is the first step for `event`, and `self` is what it makes of `before`.
    pub open spec fn handled(self, before: Client, event: Event, step: StepView) -> bool {
        match event {
            Event::WorkspaceAdded(name) => {
                &&& self == before
                &&& step == StepView::AskWorkspaces { trigger: TriggerView::Added, name: name@ }
            },
            Event::WorkspaceChanged(name) => {
                &&& self == before
                &&& step == StepView::AskWorkspaces { trigger: TriggerView::Changed, name: name@ }
            },
            Event::ActiveMonitorChanged(name) => {
                &&& self == before
                &&& step == (match name {
                    Some(name) => StepView::AskWorkspaces {
                        trigger: TriggerView::Changed,
                        name: name@,
                    },
                    None => StepView::Done(ReactionView::notes(NoticeView::NoWorkspaceName)),
                })
            },
            Event::WorkspaceMoved(name) => {
                &&& self == before
                &&& step == StepView::AskWorkspaces { trigger: TriggerView::Moved, name: name@ }
            },
            Event::WorkspaceRenamed { id, name } => {
                &&& self == before
                &&& step == StepView::Done(
                    ReactionView::sends(
                        seq![
                            UpdateView::Rename {
                                id: id as i64,
                                name: name@,
                                classes: Some(before.window_cache.class_listing(id as i64)),
                            },
                        ],
                    ),
                )
            },
            Event::WorkspaceDeleted(id) => {
                &&& self == before
                &&& step == StepView::Done(
                    ReactionView::sends(seq![UpdateView::Remove(id as i64)]),
                )
            },
            Event::UrgentStateChanged(address) => {
                &&& self == before
                &&& step == StepView::AskClients { address: address@ }
            },
            Event::WindowOpened { address, workspace_name, class } => {
                &&& self == before
                &&& step == StepView::AskWorkspaces {
                    trigger: TriggerView::WindowOpened {
                        address: address@,
                        workspace_name: workspace_name@,
                        class: class@,
                    },
                    name: workspace_name@,
                }
            },
            Event::WindowClosed(address) => if before.window_cache@.contains_key(address@) {
                let window = before.window_cache@[address@];
                &&& self.cached_since(before, before.window_cache@.remove(address@))
                &&& step == StepView::Done(
                    ReactionView::sends(
                        seq![
                            UpdateView::RemoveWindow {
                                id: window.workspace_id,
                                name: window.workspace_name,
                                classes: Some(self.window_cache.class_listing(window.workspace_id)),
                            },
                        ],
                    ),
                )
            } else {
                &&& self == before
                &&& step == StepView::Done(
                    ReactionView::notes(NoticeView::UnknownWindowClosed(address@)),
                )
            },
            Event::WindowMoved { address, workspace } => {
                &&& self == before
                &&& step == StepView::AskWorkspaces {
                    trigger: TriggerView::WindowMoved { address: address@ },
                    name: workspace@,
                }
            },
            Event::ActiveWindowChanged(None) => {
                &&& self == before
                &&& step == StepView::Done(ReactionView::sends(seq![]))
            },
            Event::ActiveWindowChanged(Some(active)) => if active.class@.len() > 0
                && before.window_cache@.contains_key(active.address@)
                && before.window_cache@[active.address@].class != active.class@ {
                let window = before.window_cache@[active.address@];
                &&& self.cached_since(
                    before,
                    before.window_cache@.insert(
                        active.address@,
                        WindowView { class: active.class@, ..window },
                    ),
                )
                &&& step == StepView::Done(
                    ReactionView::sends(
                        seq![
                            UpdateView::AddWindow {
                                id: window.workspace_id,
                                name: window.workspace_name,
                                classes: Some(self.window_cache.class_listing(window.workspace_id)),
                            },
                        ],
                    ),
                )
            } else {
                &&& self == before
                &&& step == StepView::Done(ReactionView::sends(seq![]))
            },
        }
    }

    /// Deals with an event, as far as that takes no answer from Hyprland.
    pub fn handle(&mut self, event: Event) -> (step: Step)
        ensures
            final(self).handled(*old(self), event, step@),
            step@ matches StepView::Done(reaction) ==> tells_all_classes(
                final(self).window_cache@,
                reaction,
            ),
    {
        match event {
            Event::WorkspaceAdded(name) => Step::AskWorkspaces(
                Search { trigger: Trigger::Added, name: get_workspace_name(name) },
            ),
            Event::WorkspaceChanged(name) => Step::AskWorkspaces(
                Search { trigger: Trigger::Changed, name: get_workspace_name(name) },
            ),
            Event::ActiveMonitorChanged(name) => match name {
                Some(name) => Step::AskWorkspaces(
                    Search { trigger: Trigger::Changed, name: get_workspace_name(name) },
                ),
                None => Step::Done(Reaction::note(Notice::NoWorkspaceName)),
            },
            Event::WorkspaceMoved(name) => Step::AskWorkspaces(
                Search { trigger: Trigger::Moved, name: get_workspace_name(name) },
            ),
            Event::WorkspaceRenamed { id, name } => {
                let id = id as i64;
                let classes = self.window_cache.get_classes_for_workspace(id);
                Step::Done(
                    Reaction::one(WorkspaceUpdate::Rename { id, name, classes: Some(classes) }),
                )
            },
            Event::WorkspaceDeleted(id) => Step::Done(
                Reaction::one(WorkspaceUpdate::Remove(id as i64)),
            ),
            Event::UrgentStateChanged(address) => Step::AskClients(address),
            Event::WindowOpened { address, workspace_name, class } => {
                let name = workspace_name.clone();
                Step::AskWorkspaces(
                    Search {
                        trigger: Trigger::WindowOpened { address, workspace_name, class },
                        name,
                    },
                )
            },
            Event::WindowClosed(address) => {
                match self.window_cache.remove_entry(&address) {
                    Some((_, record)) => {
                        let classes = self.window_cache.get_classes_for_workspace(
                            record.workspace_id,
                        );
                        Step::Done(
                            Reaction::one(
                                WorkspaceUpdate::RemoveWindow {
                                    id: record.workspace_id,
                                    name: record.workspace_name,
                                    classes: Some(classes),
                                },
                            ),
                        )
                    },
                    None => Step::Done(Reaction::note(Notice::UnknownWindowClosed(address.0))),
                }
            },
            Event::WindowMoved { address, workspace } => Step::AskWorkspaces(
                Search {
                    trigger: Trigger::WindowMoved { address },
                    name: get_workspace_name(workspace),
                },
            ),
            Event::ActiveWindowChanged(window) => {
                let window = match window {
                    Some(window) => window,
                    None => {
                        return Step::Done(Reaction::none());
                    },
                };
                // The class of a window that is still starting is empty.
                if window.class.as_str().is_empty() {
                    return Step::Done(Reaction::none());
                }
                match self.window_cache.update_class(&window.address, window.class) {
                    Some((id, name, classes)) => Step::Done(
                        Reaction::one(
                            WorkspaceUpdate::AddWindow { id, name, classes: Some(classes) },
                        ),
                    ),
                    None => Step::Done(Reaction::none()),
                }
            },
        }
    }

    /// The name of the active workspace, where `trigger` goes by it.
    fn active_name(&self, trigger: &Trigger) -> (name: Option<&String>)
        ensures
            self.active_name_for(trigger@) == (match name {
                Some(name) => Some(name@),
                None => None,
            }),
    {
        match trigger {
            Trigger::WindowOpened { .. } => None,
            _ => match &self.active {
                Some(active) => Some(&active.name),
                None => None,
            },
        }
    }

    /// Goes on once Hyprland was asked for the workspaces.
    ///
    /// The monitors are asked for only where the workspace is not the active one.
    pub fn with_workspaces(
        &mut self,
        search: Search,
        reply: Result<Vec<HyprWorkspace>, String>,
    ) -> (step: Step)
        ensures
            final(self).searched(*old(self), search.trigger@, search.name@, reply, step@),
            step@ matches StepView::Done(reaction) ==> tells_all_classes(
                final(self).window_cache@,
                reaction,
            ),
    {
        let workspaces = match reply {
            Ok(workspaces) => workspaces,
            Err(error) => {
                return Step::Done(Reaction::note(Notice::WorkspaceFailed(error)));
            },
        };
        let workspace = match find_workspace(workspaces, &search.name) {
            Some(workspace) => workspace,
            None => {
                return Step::Done(self.react(search.trigger, None));
            },
        };
        if is_active(&workspace, self.active_name(&search.trigger)) {
            let workspace = get_workspace(Visibility::focused(), workspace, &self.window_cache);
            Step::Done(self.react(search.trigger, Some(workspace)))
        } else {
            Step::AskMonitors(Found { trigger: search.trigger, workspace })
        }
    }

    /// Goes on once Hyprland was asked for the monitors.
    pub fn with_monitors(
        &mut self,
        found: Found,
        reply: Result<Vec<Monitor>, String>,
    ) -> (reaction: Reaction)
        ensures
            final(self).located(*old(self), found.trigger@, found.workspace@, reply, reaction@),
            tells_all_classes(final(self).window_cache@, reaction@),
    {
        let visibility = Visibility::from(
            &found.workspace,
            self.active_name(&found.trigger),
            create_is_visible(reply),
        );
        let workspace = get_workspace(visibility, found.workspace, &self.window_cache);
        self.react(found.trigger, Some(workspace))
    }

    /// Goes on once Hyprland was asked for the windows.
    pub fn with_clients(
        &self,
        address: Address,
        reply: Result<Vec<HyprClient>, String>,
    ) -> (reaction: Reaction)
        ensures
            makes_urgent(address@, reply, reaction@),
    {
        match reply {
            Err(error) => Reaction::note(Notice::ClientsFailed(error)),
            Ok(clients) => match find_client_workspace(&clients, &address) {
                None => Reaction::note(Notice::ClientNotFound),
                Some(id) => Reaction::one(WorkspaceUpdate::Urgent { id, urgent: true }),
            },
        }
    }

    /// Deals with an event from the first step to the last, where it is known beforehand what
    /// Hyprland answers.
    pub fn deal_with(&mut self, event: Event, answers: Answers) -> (reaction: Reaction)
        ensures
            final(self).came_of(*old(self), event, answers, reaction@),
            tells_all_classes(final(self).window_cache@, reaction@),
    {
        let step = self.handle(event);
        let ghost first = *self;
        let ghost asked = step@;
        assert(first.handled(*old(self), event, asked));
        let reaction = match step {
            Step::Done(reaction) => reaction,
            Step::AskClients(address) => self.with_clients(address, answers.clients),
            Step::AskMonitors(found) => self.with_monitors(found, answers.monitors),
            Step::AskWorkspaces(search) => {
                let next = self.with_workspaces(search, answers.workspaces);
                let ghost second = *self;
                let ghost asked_next = next@;
                let reaction = match next {
                    Step::Done(reaction) => reaction,
                    Step::AskMonitors(found) => self.with_monitors(found, answers.monitors),
                    Step::AskClients(_) | Step::AskWorkspaces(_) => Reaction::none(),
                };
                assert(second.searched(
                    first,
                    search.trigger@,
                    search.name@,
                    answers.workspaces,
                    asked_next,
                ));
                assert(self.found_out(second, asked_next, answers, reaction@));
                reaction
            },
        };
        assert(self.concluded(first, asked, answers, reaction@));
        reaction
    }
}

} // verus!
