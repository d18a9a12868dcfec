//! Workspaces as a status bar shows them.

use crate::cache::texts;
use crate::hypr::{HyprWorkspace, HyprWorkspaceView};
use vstd::prelude::*;
use vstd::std_specs::convert::FromSpecImpl;

verus! {

/// How visible a workspace is.
#[derive(Clone, Copy, Debug, PartialEq, Eq, Structural)]
pub enum Visibility {
    /// Some monitor shows the workspace.
    Visible {
        /// It is the active workspace.
        focused: bool,
    },
    /// No monitor shows the workspace.
    Hidden,
}

impl Visibility {
    /// Shown, and not active.
    pub fn visible() -> (visibility: Visibility)
        ensures
            visibility == (Visibility::Visible { focused: false }),
    {
        Visibility::Visible { focused: false }
    }

    /// Active.
    pub fn focused() -> (visibility: Visibility)
        ensures
            visibility == (Visibility::Visible { focused: true }),
    {
        Visibility::Visible { focused: true }
    }

    /// Whether the workspace is the active one.
    pub fn is_focused(self) -> (focused: bool)
        ensures
            focused == (self == (Visibility::Visible { focused: true })),
    {
        match self {
            Visibility::Visible { focused } => focused,
            Visibility::Hidden => false,
        }
    }

    /// How visible `workspace` is where `active_name` is the name of the active workspace.
    ///
    /// Asks `is_visible` only of a workspace that is not active.
    pub fn from<F: FnOnce(&HyprWorkspace) -> bool>(
        workspace: &HyprWorkspace,
        active_name: Option<&String>,
        is_visible: F,
    ) -> (visibility: Visibility)
        requires
            call_requires(is_visible, (workspace,)),
        ensures
            is_named(active_name, workspace.name@) ==> visibility == visibility_of(true, false),
            !is_named(active_name, workspace.name@) ==> exists|shown: bool| #[trigger]
                call_ensures(is_visible, (workspace,), shown) && visibility == visibility_of(
                    false,
                    shown,
                ),
    {
        if is_active(workspace, active_name) {
            Visibility::focused()
        } else if is_visible(workspace) {
            Visibility::visible()
        } else {
            Visibility::Hidden
        }
    }
}

/// There is an active workspace, and its name is `name`.
pub open spec fn is_named(active_name: Option<&String>, name: Seq<char>) -> bool {
    active_name matches Some(active) && active@ == name
}

/// How visible a workspace is that is or is not active, and that some monitor shows or none.
pub open spec fn visibility_of(active: bool, shown: bool) -> Visibility {
    if active {
        Visibility::Visible { focused: true }
    } else if shown {
        Visibility::Visible { focused: false }
    } else {
        Visibility::Hidden
    }
}

/// Whether `workspace` is the active workspace, going by its name.
pub fn is_active(workspace: &HyprWorkspace, active_name: Option<&String>) -> (active: bool)
    ensures
        active == is_named(active_name, workspace.name@),
{
    match active_name {
        Some(name) => workspace.name == *name,
        None => false,
    }
}

/// A workspace.
#[derive(Debug)]
pub struct Workspace {
    /// Unique identifier.
    pub id: i64,
    /// Place among the workspaces.
    pub index: i64,
    pub name: String,
    /// Name of the monitor that the workspace is on.
    pub monitor: String,
    pub visibility: Visibility,
    /// The classes of the windows on the workspace, as far as they are known.
    pub classes: Vec<String>,
}

/// What a [`Workspace`] holds.
#[verifier::ext_equal]
pub struct WorkspaceView {
    pub id: i64,
    pub index: i64,
    pub name: Seq<char>,
    pub monitor: Seq<char>,
    pub visibility: Visibility,
    pub classes: Seq<Seq<char>>,
}

impl WorkspaceView {
    pub open spec fn is_focused(self) -> bool {
        self.visibility == (Visibility::Visible { focused: true })
    }
}

impl View for Workspace {
    type V = WorkspaceView;

    open spec fn view(&self) -> WorkspaceView {
        WorkspaceView {
            id: self.id,
            index: self.index,
            name: self.name@,
            monitor: self.monitor@,
            visibility: self.visibility,
            classes: texts(self.classes@),
        }
    }
}

/// The workspace that Hyprland lists as `workspace`, with these classes.
pub open spec fn described(
    workspace: HyprWorkspaceView,
    visibility: Visibility,
    classes: Seq<Seq<char>>,
) -> WorkspaceView {
    WorkspaceView {
        id: workspace.id as i64,
        index: workspace.id as i64,
        name: workspace.name,
        monitor: workspace.monitor,
        visibility,
        classes,
    }
}

impl Clone for Workspace {
    fn clone(&self) -> (copy: Workspace)
        ensures
            copy@ == self@,
    {
        let classes = self.classes.clone();
        assert(classes@ =~= self.classes@);
        Workspace {
            id: self.id,
            index: self.index,
            name: self.name.clone(),
            monitor: self.monitor.clone(),
            visibility: self.visibility,
            classes,
        }
    }
}

impl From<(Visibility, HyprWorkspace)> for Workspace {
    /// The workspace without its classes.
    fn from(listed: (Visibility, HyprWorkspace)) -> (workspace: Workspace)
        ensures
            workspace@ == described(listed.1@, listed.0, seq![]),
            workspace.id == listed.1.id,
            workspace.index == listed.1.id,
            workspace.name == listed.1.name,
            workspace.monitor == listed.1.monitor,
            workspace.visibility == listed.0,
            workspace.classes@.len() == 0,
    {
        let (visibility, workspace) = listed;
        let classes: Vec<String> = Vec::new();
        assert(texts(classes@) =~= seq![]);
        Workspace {
            id: workspace.id as i64,
            index: workspace.id as i64,
            name: workspace.name,
            monitor: workspace.monitor,
            visibility,
            classes,
        }
    }
}

/// What `from` gives is stated on `from` itself, over views.
impl FromSpecImpl<(Visibility, HyprWorkspace)> for Workspace {
    open spec fn obeys_from_spec() -> bool {
        false
    }

    open spec fn from_spec(listed: (Visibility, HyprWorkspace)) -> Workspace {
        arbitrary()
    }
}

} // verus!
