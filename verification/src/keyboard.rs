//! The layout of the keyboard.

use vstd::prelude::*;

verus! {

/// A keyboard, as Hyprland lists it.
#[derive(Debug)]
pub struct Keyboard {
    pub name: String,
    pub active_keymap: String,
    /// It is the main keyboard.
    pub main: bool,
}

/// What a [`Keyboard`] holds.
pub struct KeyboardView {
    pub name: Seq<char>,
    pub active_keymap: Seq<char>,
    pub main: bool,
}

impl View for Keyboard {
    type V = KeyboardView;

    open spec fn view(&self) -> KeyboardView {
        KeyboardView {
            name: self.name@,
            active_keymap: self.active_keymap@,
            main: self.main,
        }
    }
}

/// What a list of keyboards holds.
pub open spec fn keyboard_views(keyboards: Seq<Keyboard>) -> Seq<KeyboardView> {
    keyboards.map_values(|keyboard: Keyboard| keyboard@)
}

/// The name of the layout that is in use.
#[derive(Debug)]
pub struct KeyboardLayoutUpdate(pub String);

impl Clone for KeyboardLayoutUpdate {
    fn clone(&self) -> (copy: KeyboardLayoutUpdate)
        ensures
            copy == *self,
    {
        KeyboardLayoutUpdate(self.0.clone())
    }
}

/// Why there is no keyboard to go by.
#[derive(Debug)]
pub enum KeyboardError {
    /// Hyprland could not be asked for the keyboards.
    DevicesFailed(String),
    /// Hyprland lists no main keyboard.
    NoMainKeyboard,
}

/// The first main keyboard.
pub open spec fn first_main(keyboards: Seq<KeyboardView>) -> Option<KeyboardView>
    decreases keyboards.len(),
{
    if keyboards.len() == 0 {
        None
    } else if keyboards[0].main {
        Some(keyboards[0])
    } else {
        first_main(keyboards.drop_first())
    }
}

/// The keyboard at `i` is a main one, and none before it is.
pub open spec fn is_first_main(keyboards: Seq<Keyboard>, i: int) -> bool {
    &&& 0 <= i < keyboards.len()
    &&& keyboards[i].main
    &&& forall|j: int| 0 <= j < i ==> !(#[trigger] keyboards[j]).main
}

/// None of the keyboards is a main one.
pub open spec fn none_main(keyboards: Seq<Keyboard>) -> bool {
    forall|i: int| 0 <= i < keyboards.len() ==> !(#[trigger] keyboards[i]).main
}

/// The first main keyboard is the one at the lowest place, and there is none where no keyboard of
/// the list is a main one.
pub proof fn law_first_main_is_at_the_lowest_place(keyboards: Seq<Keyboard>)
    ensures
        match first_main(keyboard_views(keyboards)) {
            Some(found) => exists|i: int| #[trigger]
                is_first_main(keyboards, i) && found.name == keyboards[i].name@
                    && found.active_keymap == keyboards[i].active_keymap@,
            None => none_main(keyboards),
        },
    decreases keyboards.len(),
{
    if keyboards.len() > 0 {
        let views = keyboard_views(keyboards);
        if keyboards[0].main {
            assert(is_first_main(keyboards, 0));
        } else {
            let rest = keyboards.drop_first();
            assert(keyboard_views(rest) =~= views.drop_first());
            law_first_main_is_at_the_lowest_place(rest);
            assert(forall|i: int|
                0 < i < keyboards.len() ==> #[trigger] keyboards[i] == rest[i - 1]);
            if let Some(found) = first_main(views) {
                let i = choose|i: int| #[trigger]
                    is_first_main(rest, i) && found.name == rest[i].name@ && found.active_keymap
                        == rest[i].active_keymap@;
                assert(is_first_main(keyboards, i + 1));
            }
        }
    }
}

/// The first main keyboard that Hyprland lists.
pub fn find_main(reply: Result<Vec<Keyboard>, String>) -> (found: Result<Keyboard, KeyboardError>)
    ensures
        match reply {
            Ok(keyboards) => match first_main(keyboard_views(keyboards@)) {
                Some(keyboard) => found matches Ok(found) && found@ == keyboard,
                None => found == Err::<Keyboard, KeyboardError>(KeyboardError::NoMainKeyboard),
            },
            Err(error) => found == Err::<Keyboard, KeyboardError>(
                KeyboardError::DevicesFailed(error),
            ),
        },
        reply matches Ok(keyboards) ==> {
            &&& none_main(keyboards@) ==> found == Err::<Keyboard, KeyboardError>(
                KeyboardError::NoMainKeyboard,
            )
            &&& forall|i: int| #[trigger]
                is_first_main(keyboards@, i) ==> found == Ok::<Keyboard, KeyboardError>(
                    keyboards@[i],
                )
        },
{
    let keyboards = match reply {
        Ok(keyboards) => keyboards,
        Err(error) => {
            return Err(KeyboardError::DevicesFailed(error));
        },
    };
    let ghost listed = keyboard_views(keyboards@);
    assert(listed.skip(0) =~= listed);
    for keyboard in iter: keyboards.into_iter()
        invariant
            iter.seq() == keyboards@,
            listed == keyboard_views(keyboards@),
            reply == Ok::<Vec<Keyboard>, String>(keyboards),
            first_main(listed) == first_main(listed.skip(iter.index() as int)),
            forall|j: int| 0 <= j < iter.index() ==> !(#[trigger] keyboards@[j]).main,
    {
        let ghost rest = listed.skip(iter.index() as int);
        assert(rest[0] == keyboard@);
        if keyboard.main {
            assert(is_first_main(keyboards@, iter.index() as int));
            return Ok(keyboard);
        }
        assert(rest.drop_first() =~= listed.skip(iter.index() + 1));
    }
    assert(listed.skip(listed.len() as int) =~= seq![]);
    Err(KeyboardError::NoMainKeyboard)
}

/// The name of the keyboard to switch to its next layout: the main one.
pub fn set_next_active(reply: Result<Vec<Keyboard>, String>) -> (device: Result<
    String,
    KeyboardError,
>)
    ensures
        match reply {
            Ok(keyboards) => match first_main(keyboard_views(keyboards@)) {
                Some(keyboard) => device matches Ok(name) && name@ == keyboard.name,
                None => device == Err::<String, KeyboardError>(KeyboardError::NoMainKeyboard),
            },
            Err(error) => device == Err::<String, KeyboardError>(
                KeyboardError::DevicesFailed(error),
            ),
        },
        reply matches Ok(keyboards) ==> {
            &&& none_main(keyboards@) ==> device == Err::<String, KeyboardError>(
                KeyboardError::NoMainKeyboard,
            )
            &&& forall|i: int| #[trigger]
                is_first_main(keyboards@, i) ==> device == Ok::<String, KeyboardError>(
                    keyboards@[i].name,
                )
        },
{
    match find_main(reply) {
        Ok(keyboard) => Ok(keyboard.name),
        Err(error) => Err(error),
    }
}

/// What a new subscriber is sent: the layout of the main keyboard.
pub fn subscribe(reply: Result<Vec<Keyboard>, String>) -> (update: Result<
    KeyboardLayoutUpdate,
    KeyboardError,
>)
    ensures
        match reply {
            Ok(keyboards) => match first_main(keyboard_views(keyboards@)) {
                Some(keyboard) => update matches Ok(update) && update.0@
                    == keyboard.active_keymap,
                None => update == Err::<KeyboardLayoutUpdate, KeyboardError>(
                    KeyboardError::NoMainKeyboard,
                ),
            },
            Err(error) => update == Err::<KeyboardLayoutUpdate, KeyboardError>(
                KeyboardError::DevicesFailed(error),
            ),
        },
        reply matches Ok(keyboards) ==> {
            &&& none_main(keyboards@) ==> update == Err::<KeyboardLayoutUpdate, KeyboardError>(
                KeyboardError::NoMainKeyboard,
            )
            &&& forall|i: int| #[trigger]
                is_first_main(keyboards@, i) ==> update == Ok::<
                    KeyboardLayoutUpdate,
                    KeyboardError,
                >(KeyboardLayoutUpdate(keyboards@[i].active_keymap))
        },
{
    match find_main(reply) {
        Ok(keyboard) => Ok(KeyboardLayoutUpdate(keyboard.active_keymap)),
        Err(error) => Err(error),
    }
}

/// How many characters come before the first comma, all of them if there is none.
pub open spec fn field_len(text: Seq<char>) -> nat
    decreases text.len(),
{
    if text.len() == 0 || text[0] == ',' {
        0
    } else {
        1 + field_len(text.drop_first())
    }
}

/// The first comma is the one that no comma comes before.
pub(crate) proof fn lemma_field_len(text: Seq<char>, n: nat)
    requires
        n <= text.len(),
        forall|i: int| 0 <= i < n ==> text[i] != ',',
        n < text.len() ==> text[n as int] == ',',
    ensures
        field_len(text) == n,
    decreases n,
{
    if n > 0 {
        lemma_field_len(text.drop_first(), (n - 1) as nat);
    }
}

/// What follows the first comma, if there is one.
pub open spec fn behind_comma(text: Seq<char>) -> Option<Seq<char>> {
    if field_len(text) < text.len() {
        Some(text.skip(field_len(text) as int + 1))
    } else {
        None
    }
}

/// What follows the first comma, further commas and all.
fn split_off_first_field(text: &str) -> (rest: Option<String>)
    ensures
        behind_comma(text@) == (match rest {
            Some(rest) => Some(rest@),
            None => None,
        }),
{
    let len = text.unicode_len();
    let mut at: usize = 0;
    while at < len
        invariant
            len == text@.len(),
            at <= len,
            forall|i: int| 0 <= i < at ==> text@[i] != ',',
        decreases len - at,
    {
        if text.get_char(at) == ',' {
            proof {
                lemma_field_len(text@, at as nat);
            }
            return Some(text.substring_char(at + 1, len).to_owned());
        }
        at = at + 1;
    }
    proof {
        lemma_field_len(text@, at as nat);
    }
    None
}

/// The layout that an event names, or else what follows the name of the keyboard and a comma:
/// an event may come with the whole of it as the name of the keyboard, and no layout.
pub open spec fn layout_named(keyboard_name: Seq<char>, layout_name: Seq<char>) -> Option<
    Seq<char>,
> {
    if layout_name.len() > 0 {
        Some(layout_name)
    } else {
        behind_comma(keyboard_name)
    }
}

/// What is sent when the layout changes. Where no layout is named, gives back the name of the
/// keyboard.
pub fn layout_changed(keyboard_name: String, layout_name: String) -> (update: Result<
    KeyboardLayoutUpdate,
    String,
>)
    ensures
        match layout_named(keyboard_name@, layout_name@) {
            Some(layout) => update matches Ok(update) && update.0@ == layout,
            None => update == Err::<KeyboardLayoutUpdate, String>(keyboard_name),
        },
{
    if !layout_name.as_str().is_empty() {
        return Ok(KeyboardLayoutUpdate(layout_name));
    }
    match split_off_first_field(keyboard_name.as_str()) {
        Some(layout) => Ok(KeyboardLayoutUpdate(layout)),
        None => Err(keyboard_name),
    }
}

} // verus!
