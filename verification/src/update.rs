//! What subscribers are sent about workspaces, and what is worth a line in the log.

use crate::cache::{lists_classes, texts, WindowView};
use crate::workspace::{Workspace, WorkspaceView};
use vstd::prelude::*;

verus! {

/// A change to the workspaces.
#[derive(Debug)]
pub enum WorkspaceUpdate {
    /// All workspaces, sent when a subscription begins.
    Init(Vec<Workspace>),
    Add(Workspace),
    Remove(i64),
    /// The workspace is on another monitor.
    Move(Workspace),
    /// The active workspace was `old`, if it was known, and is `new`.
    Focus { old: Option<Workspace>, new: Workspace },
    Rename { id: i64, name: String, classes: Option<Vec<String>> },
    /// A window on the workspace asks for attention, or the workspace was visited.
    Urgent { id: i64, urgent: bool },
    /// There is another window, or another class, on the workspace.
    AddWindow { id: i64, name: String, classes: Option<Vec<String>> },
    /// A window has left the workspace.
    RemoveWindow { id: i64, name: String, classes: Option<Vec<String>> },
}

/// What a [`WorkspaceUpdate`] holds.
#[verifier::ext_equal]
pub enum UpdateView {
    Init(Seq<WorkspaceView>),
    Add(WorkspaceView),
    Remove(i64),
    Move(WorkspaceView),
    Focus { old: Option<WorkspaceView>, new: WorkspaceView },
    Rename { id: i64, name: Seq<char>, classes: Option<Seq<Seq<char>>> },
    Urgent { id: i64, urgent: bool },
    AddWindow { id: i64, name: Seq<char>, classes: Option<Seq<Seq<char>>> },
    RemoveWindow { id: i64, name: Seq<char>, classes: Option<Seq<Seq<char>>> },
}

/// What a workspace holds, if there is one.
pub open spec fn workspace_view(workspace: Option<Workspace>) -> Option<WorkspaceView> {
    match workspace {
        Some(workspace) => Some(workspace@),
        None => None,
    }
}

/// What a list of classes holds, if there is one.
pub open spec fn classes_view(classes: Option<Vec<String>>) -> Option<Seq<Seq<char>>> {
    match classes {
        Some(classes) => Some(texts(classes@)),
        None => None,
    }
}

impl View for WorkspaceUpdate {
    type V = UpdateView;

    open spec fn view(&self) -> UpdateView {
        match *self {
            WorkspaceUpdate::Init(workspaces) => UpdateView::Init(
                workspaces@.map_values(|workspace: Workspace| workspace@),
            ),
            WorkspaceUpdate::Add(workspace) => UpdateView::Add(workspace@),
            WorkspaceUpdate::Remove(id) => UpdateView::Remove(id),
            WorkspaceUpdate::Move(workspace) => UpdateView::Move(workspace@),
            WorkspaceUpdate::Focus { old: was, new } => UpdateView::Focus {
                old: workspace_view(was),
                new: new@,
            },
            WorkspaceUpdate::Rename { id, name, classes } => UpdateView::Rename {
                id,
                name: name@,
                classes: classes_view(classes),
            },
            WorkspaceUpdate::Urgent { id, urgent } => UpdateView::Urgent { id, urgent },
            WorkspaceUpdate::AddWindow { id, name, classes } => UpdateView::AddWindow {
                id,
                name: name@,
                classes: classes_view(classes),
            },
            WorkspaceUpdate::RemoveWindow { id, name, classes } => UpdateView::RemoveWindow {
                id,
                name: name@,
                classes: classes_view(classes),
            },
        }
    }
}

fn clone_classes(classes: &Option<Vec<String>>) -> (copy: Option<Vec<String>>)
    ensures
        classes_view(copy) == classes_view(*classes),
{
    match classes {
        Some(classes) => {
            let copy = classes.clone();
            assert(copy@ =~= classes@);
            Some(copy)
        },
        None => None,
    }
}

impl Clone for WorkspaceUpdate {
    fn clone(&self) -> (copy: WorkspaceUpdate)
        ensures
            copy@ == self@,
    {
        match self {
            WorkspaceUpdate::Init(workspaces) => {
                let copy = workspaces.clone();
                assert(copy@.map_values(|workspace: Workspace| workspace@)
                    =~= workspaces@.map_values(|workspace: Workspace| workspace@));
                WorkspaceUpdate::Init(copy)
            },
            WorkspaceUpdate::Add(workspace) => WorkspaceUpdate::Add(workspace.clone()),
            WorkspaceUpdate::Remove(id) => WorkspaceUpdate::Remove(*id),
            WorkspaceUpdate::Move(workspace) => WorkspaceUpdate::Move(workspace.clone()),
            WorkspaceUpdate::Focus { old: was, new } => WorkspaceUpdate::Focus {
                old: match was {
                    Some(was) => Some(was.clone()),
                    None => None,
                },
                new: new.clone(),
            },
            WorkspaceUpdate::Rename { id, name, classes } => WorkspaceUpdate::Rename {
                id: *id,
                name: name.clone(),
                classes: clone_classes(classes),
            },
            WorkspaceUpdate::Urgent { id, urgent } => WorkspaceUpdate::Urgent {
                id: *id,
                urgent: *urgent,
            },
            WorkspaceUpdate::AddWindow { id, name, classes } => WorkspaceUpdate::AddWindow {
                id: *id,
                name: name.clone(),
                classes: clone_classes(classes),
            },
            WorkspaceUpdate::RemoveWindow { id, name, classes } => WorkspaceUpdate::RemoveWindow {
                id: *id,
                name: name.clone(),
                classes: clone_classes(classes),
            },
        }
    }
}

/// What a list of updates holds.
pub open spec fn update_views(updates: Seq<WorkspaceUpdate>) -> Seq<UpdateView> {
    updates.map_values(|update: WorkspaceUpdate| update@)
}

/// The classes that the update gives for a workspace are those of the windows on it.
pub open spec fn tells_classes(
    windows: Map<Seq<char>, WindowView>,
    update: UpdateView,
) -> bool {
    match update {
        UpdateView::Init(workspaces) => forall|i: int|
            0 <= i < workspaces.len() ==> lists_classes(
                windows,
                (#[trigger] workspaces[i]).id,
                workspaces[i].classes,
            ),
        UpdateView::Add(workspace) => lists_classes(windows, workspace.id, workspace.classes),
        UpdateView::Move(workspace) => lists_classes(windows, workspace.id, workspace.classes),
        UpdateView::Focus { new, .. } => lists_classes(windows, new.id, new.classes),
        UpdateView::Rename { id, classes, .. } => classes matches Some(classes) && lists_classes(
            windows,
            id,
            classes,
        ),
        UpdateView::AddWindow { id, classes, .. } => classes matches Some(classes)
            && lists_classes(windows, id, classes),
        UpdateView::RemoveWindow { id, classes, .. } => classes matches Some(classes)
            && lists_classes(windows, id, classes),
        UpdateView::Remove(_) => true,
        UpdateView::Urgent { .. } => true,
    }
}

/// What went other than expected.
#[derive(Debug)]
pub enum Notice {
    /// Hyprland could not be asked for the active workspace.
    ActiveWorkspaceFailed(String),
    /// Hyprland could not be asked for the workspaces, to look one up.
    WorkspaceFailed(String),
    /// Hyprland could not be asked for the workspaces, to list them all.
    WorkspacesFailed(String),
    /// Hyprland could not be asked for the windows.
    ClientsFailed(String),
    /// Hyprland lists no workspace with the name.
    WorkspaceNotFound,
    /// Hyprland lists no window at the address.
    ClientNotFound,
    /// The active monitor changed, to one of which no workspace is named.
    NoWorkspaceName,
    /// The window at this address was closed, and was not in the cache.
    UnknownWindowClosed(String),
    /// A window that was not in the cache was moved to the workspace of this name.
    UnknownWindowMoved(String),
}

/// What a [`Notice`] holds.
pub enum NoticeView {
    ActiveWorkspaceFailed(Seq<char>),
    WorkspaceFailed(Seq<char>),
    WorkspacesFailed(Seq<char>),
    ClientsFailed(Seq<char>),
    WorkspaceNotFound,
    ClientNotFound,
    NoWorkspaceName,
    UnknownWindowClosed(Seq<char>),
    UnknownWindowMoved(Seq<char>),
}

impl View for Notice {
    type V = NoticeView;

    open spec fn view(&self) -> NoticeView {
        match *self {
            Notice::ActiveWorkspaceFailed(error) => NoticeView::ActiveWorkspaceFailed(error@),
            Notice::WorkspaceFailed(error) => NoticeView::WorkspaceFailed(error@),
            Notice::WorkspacesFailed(error) => NoticeView::WorkspacesFailed(error@),
            Notice::ClientsFailed(error) => NoticeView::ClientsFailed(error@),
            Notice::WorkspaceNotFound => NoticeView::WorkspaceNotFound,
            Notice::ClientNotFound => NoticeView::ClientNotFound,
            Notice::NoWorkspaceName => NoticeView::NoWorkspaceName,
            Notice::UnknownWindowClosed(address) => NoticeView::UnknownWindowClosed(address@),
            Notice::UnknownWindowMoved(name) => NoticeView::UnknownWindowMoved(name@),
        }
    }
}

/// What comes of an event: the updates to send, in order, and what to log.
#[derive(Debug)]
pub struct Reaction {
    pub updates: Vec<WorkspaceUpdate>,
    pub notice: Option<Notice>,
}

/// What a [`Reaction`] holds.
#[verifier::ext_equal]
pub struct ReactionView {
    pub updates: Seq<UpdateView>,
    pub notice: Option<NoticeView>,
}

impl View for Reaction {
    type V = ReactionView;

    open spec fn view(&self) -> ReactionView {
        ReactionView {
            updates: update_views(self.updates@),
            notice: match self.notice {
                Some(notice) => Some(notice@),
                None => None,
            },
        }
    }
}

impl ReactionView {
    /// The reaction that sends these updates.
    pub open spec fn sends(updates: Seq<UpdateView>) -> ReactionView {
        ReactionView { updates, notice: None }
    }

    /// The reaction that sends nothing, and logs `notice`.
    pub open spec fn notes(notice: NoticeView) -> ReactionView {
        ReactionView { updates: seq![], notice: Some(notice) }
    }
}

impl Reaction {
    /// Sends nothing, and logs nothing.
    pub fn none() -> (reaction: Reaction)
        ensures
            reaction@ == ReactionView::sends(seq![]),
    {
        let updates: Vec<WorkspaceUpdate> = Vec::new();
        assert(update_views(updates@) =~= seq![]);
        Reaction { updates, notice: None }
    }

    /// Sends one update.
    pub fn one(update: WorkspaceUpdate) -> (reaction: Reaction)
        ensures
            reaction@ == ReactionView::sends(seq![update@]),
    {
        let mut updates: Vec<WorkspaceUpdate> = Vec::new();
        updates.push(update);
        assert(update_views(updates@) =~= seq![update@]);
        Reaction { updates, notice: None }
    }

    /// Sends nothing, and logs `notice`.
    pub fn note(notice: Notice) -> (reaction: Reaction)
        ensures
            reaction@ == ReactionView::notes(notice@),
    {
        let updates: Vec<WorkspaceUpdate> = Vec::new();
        assert(update_views(updates@) =~= seq![]);
        Reaction { updates, notice: Some(notice) }
    }
}

} // verus!
