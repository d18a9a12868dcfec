//! Requests that make Hyprland show another workspace.

use crate::client::Client;
use vstd::prelude::*;

verus! {

/// What to ask of Hyprland.
#[derive(Debug)]
pub enum FocusRequest {
    /// Call a dispatcher by its name.
    Custom { dispatcher: String, argument: String },
    /// Go to the workspace with this id.
    Workspace(i32),
}

/// A digit of a number.
pub open spec fn digit(value: nat) -> char {
    (('0' as nat) + value % 10) as char
}

/// The decimal digits of a number, without leading zeros.
pub open spec fn digits(value: nat) -> Seq<char>
    decreases value,
{
    if value < 10 {
        seq![digit(value)]
    } else {
        digits(value / 10).push(digit(value))
    }
}

/// A number in decimal, with a sign where it is negative.
pub open spec fn decimal(value: int) -> Seq<char> {
    if value < 0 {
        seq!['-'] + digits((-value) as nat)
    } else {
        digits(value as nat)
    }
}

fn digit_text(value: u64) -> (text: &'static str)
    ensures
        text@ == seq![digit(value as nat)],
{
    proof {
        reveal_strlit("0");
        reveal_strlit("1");
        reveal_strlit("2");
        reveal_strlit("3");
        reveal_strlit("4");
        reveal_strlit("5");
        reveal_strlit("6");
        reveal_strlit("7");
        reveal_strlit("8");
        reveal_strlit("9");
    }
    let last: u64 = value % 10;
    let text = if last == 0 {
        "0"
    } else if last == 1 {
        "1"
    } else if last == 2 {
        "2"
    } else if last == 3 {
        "3"
    } else if last == 4 {
        "4"
    } else if last == 5 {
        "5"
    } else if last == 6 {
        "6"
    } else if last == 7 {
        "7"
    } else if last == 8 {
        "8"
    } else {
        "9"
    };
    assert(text@ =~= seq![digit(value as nat)]);
    text
}

fn append_digits(text: &mut String, value: u64)
    ensures
        final(text)@ == old(text)@ + digits(value as nat),
    decreases value,
{
    if value >= 10 {
        append_digits(text, value / 10);
    }
    text.append(digit_text(value));
    assert(text@ =~= old(text)@ + digits(value as nat));
}

fn append_decimal(text: &mut String, value: i64)
    ensures
        final(text)@ == old(text)@ + decimal(value as int),
{
    proof {
        reveal_strlit("-");
    }
    if value < 0 {
        text.append("-");
        append_digits(text, (0 - value as i128) as u64);
        assert("-"@ =~= seq!['-']);
        assert(text@ =~= old(text)@ + decimal(value as int));
    } else {
        append_digits(text, value as u64);
    }
}

/// The id that a request for a workspace carries: the one of its width that differs from `id` by
/// a multiple of its range.
pub open spec fn is_narrowed(id: int, narrowed: i32) -> bool {
    (id - narrowed) % 0x1_0000_0000 == 0
}

/// The argument of the Lua dispatcher that goes to the workspace with this id.
pub open spec fn lua_argument(id: int) -> Seq<char> {
    "{workspace=\""@ + decimal(id) + "\"}"@
}

/// `request` makes the workspace with this id the active one.
pub open spec fn is_request_for(request: FocusRequest, use_lua_dispatch: bool, id: int) -> bool {
    if use_lua_dispatch {
        &&& request matches FocusRequest::Custom { dispatcher, argument }
        &&& dispatcher@ == "hl.dsp.focus"@
        &&& argument@ == lua_argument(id)
    } else {
        &&& request matches FocusRequest::Workspace(narrowed)
        &&& is_narrowed(id, narrowed)
        &&& i32::MIN <= id <= i32::MAX ==> narrowed == id
    }
}

/// The request that makes the workspace with this id the active one.
pub fn focus_request(use_lua_dispatch: bool, id: i64) -> (request: FocusRequest)
    ensures
        is_request_for(request, use_lua_dispatch, id as int),
{
    if use_lua_dispatch {
        let mut argument = "{workspace=\"".to_owned();
        append_decimal(&mut argument, id);
        argument.append("\"}");
        FocusRequest::Custom { dispatcher: "hl.dsp.focus".to_owned(), argument }
    } else {
        let narrowed = #[verifier::truncate] (id as i32);
        assert((id - narrowed) % 0x1_0000_0000 == 0) by (bit_vector)
            requires
                narrowed == id as i32,
        ;
        FocusRequest::Workspace(narrowed)
    }
}

impl Client {
    /// The request that makes the workspace with this id the active one.
    pub fn focus(&self, id: i64) -> (request: FocusRequest)
        ensures
            is_request_for(request, self.use_lua_dispatch, id as int),
    {
        focus_request(self.use_lua_dispatch, id)
    }
}

} // verus!
