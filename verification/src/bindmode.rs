//! The mode that key bindings are in.

use vstd::prelude::*;

verus! {

/// The bind mode that is in force.
#[derive(Debug)]
pub struct BindModeUpdate {
    /// Name of the mode, empty for the default one.
    pub name: String,
    /// The name is to be shown as markup.
    pub pango_markup: bool,
}

impl Clone for BindModeUpdate {
    fn clone(&self) -> (copy: BindModeUpdate)
        ensures
            copy == *self,
    {
        BindModeUpdate { name: self.name.clone(), pango_markup: self.pango_markup }
    }
}

/// What is sent when another submap is entered. Its name is plain text.
pub fn sub_map_changed(name: String) -> (update: BindModeUpdate)
    ensures
        update.name == name,
        !update.pango_markup,
{
    BindModeUpdate { name, pango_markup: false }
}

} // verus!
