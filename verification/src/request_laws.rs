//! What the requests to Hyprland and the path of its socket spell out.

use crate::config::{is_lua, is_runtime_dir, is_socket_path, socket_path_of};
use crate::dispatch::{decimal, digit, digits, is_request_for, FocusRequest};
use vstd::prelude::*;

verus! {

/// The number that decimal digits stand for.
pub open spec fn number(text: Seq<char>) -> int
    decreases text.len(),
{
    if text.len() == 0 {
        0
    } else {
        number(text.drop_last()) * 10 + (text.last() as int - '0' as int)
    }
}

/// The text is a number in decimal digits, and starts with a zero only if that is all of it.
pub open spec fn is_decimal(text: Seq<char>) -> bool {
    &&& text.len() > 0
    &&& forall|i: int| 0 <= i < text.len() ==> '0' <= #[trigger] text[i] <= '9'
    &&& text[0] == '0' ==> text.len() == 1
}

/// The text is the number in decimal, behind a minus where it is negative.
pub open spec fn spells(text: Seq<char>, value: int) -> bool {
    if value < 0 {
        &&& text.len() > 0
        &&& text[0] == '-'
        &&& is_decimal(text.skip(1))
        &&& number(text.skip(1)) == -value
    } else {
        &&& is_decimal(text)
        &&& number(text) == value
    }
}

proof fn lemma_digits(value: nat)
    ensures
        is_decimal(digits(value)),
        number(digits(value)) == value,
        value > 0 ==> digits(value)[0] != '0',
    decreases value,
{
    let text = digits(value);
    assert(text.last() == digit(value));
    assert('0' <= digit(value) <= '9');
    assert(digit(value) as int - '0' as int == value % 10);
    if value < 10 {
        assert(text.drop_last() =~= seq![]);
        assert(number(text.drop_last()) == 0);
    } else {
        lemma_digits(value / 10);
        assert(text.drop_last() =~= digits(value / 10));
        assert(text[0] == digits(value / 10)[0]);
        assert forall|i: int| 0 <= i < text.len() implies '0' <= #[trigger] text[i] <= '9' by {
            if i < text.len() - 1 {
                assert(text[i] == digits(value / 10)[i]);
            }
        }
    }
}

/// The Lua form of a request calls the dispatcher that moves the focus, and its argument is a
/// table that names the workspace by its id, spelled out in decimal between quotes.
pub proof fn law_lua_request_spells_the_id(request: FocusRequest, id: int)
    requires
        is_request_for(request, true, id),
    ensures
        request matches FocusRequest::Custom { dispatcher, argument } && dispatcher@
            == "hl.dsp.focus"@ && exists|text: Seq<char>| #[trigger]
            spells(text, id) && argument@ == "{workspace=\""@ + text + "\"}"@,
{
    if id < 0 {
        lemma_digits((-id) as nat);
        assert(decimal(id).skip(1) =~= digits((-id) as nat));
    } else {
        lemma_digits(id as nat);
    }
    assert(spells(decimal(id), id));
}

/// The other form carries the id itself, where it fits, and else the only one that does and that
/// differs from it by a multiple of the range.
pub proof fn law_request_carries_the_id(request: FocusRequest, id: int)
    requires
        is_request_for(request, false, id),
    ensures
        request matches FocusRequest::Workspace(carried) && (i32::MIN <= id <= i32::MAX ==> carried
            == id) && exists|k: int| #[trigger] (k * 0x1_0000_0000) == id - carried,
{
    if let FocusRequest::Workspace(carried) = request {
        let difference = id - carried;
        assert(difference == (difference / 0x1_0000_0000) * 0x1_0000_0000 + difference
            % 0x1_0000_0000) by (nonlinear_arith);
        assert((difference / 0x1_0000_0000) * 0x1_0000_0000 == id - carried);
    }
}

/// Hyprland is configured in Lua where it says so to the letter, and in no other case.
pub proof fn law_lua_is_spelled_out(provider: Result<String, String>)
    ensures
        is_lua(provider) <==> (provider matches Ok(name) && name@ =~= seq!['l', 'u', 'a']),
{
    reveal_strlit("lua");
    assert("lua"@ =~= seq!['l', 'u', 'a']);
}

/// The path of the socket begins with the directory, ends with the name of the socket, and has the
/// instance in between, behind the directory of Hyprland.
pub proof fn law_socket_path_is_spelled_out(dir: Seq<char>, instance: Seq<char>)
    ensures
        ({
            let path = socket_path_of(dir, instance);
            let at = dir.len() as int + 6;
            &&& path.len() == dir.len() + instance.len() + 19
            &&& path.take(dir.len() as int) == dir
            &&& path.subrange(dir.len() as int, at) == seq!['/', 'h', 'y', 'p', 'r', '/']
            &&& path.subrange(at, at + instance.len()) == instance
            &&& path.skip(at + instance.len()) == seq![
                '/',
                '.',
                's',
                'o',
                'c',
                'k',
                'e',
                't',
                '.',
                's',
                'o',
                'c',
                'k',
            ]
        }),
{
    reveal_strlit("/hypr/");
    reveal_strlit("/.socket.sock");
    let path = socket_path_of(dir, instance);
    let at = dir.len() as int + 6;
    assert(path.take(dir.len() as int) =~= dir);
    assert(path.subrange(at, at + instance.len()) =~= instance);
}

/// A directory that is set is taken as it is, whoever the user is. Where none is set, the one of
/// the user is the usual place followed by the id, and what fails is that the id is not known.
pub proof fn law_set_directory_comes_first(
    xdg_runtime_dir: Result<String, String>,
    uid: Result<String, String>,
    dir: Result<String, String>,
)
    requires
        is_runtime_dir(xdg_runtime_dir, uid, dir),
    ensures
        dir is Ok <==> xdg_runtime_dir is Ok || uid is Ok,
        xdg_runtime_dir is Ok ==> dir == xdg_runtime_dir,
        xdg_runtime_dir is Err && uid is Err ==> dir == uid,
        xdg_runtime_dir is Err ==> (uid matches Ok(id) ==> (dir matches Ok(path) && path@.take(10)
            == seq!['/', 'r', 'u', 'n', '/', 'u', 's', 'e', 'r', '/'] && path@.skip(10) == id@)),
{
    reveal_strlit("/run/user/");
    if let (Err(_), Ok(id), Ok(path)) = (xdg_runtime_dir, uid, dir) {
        assert(path@.take(10) =~= seq!['/', 'r', 'u', 'n', '/', 'u', 's', 'e', 'r', '/']);
        assert(path@.skip(10) =~= id@);
    }
}

/// There is a path where both the directory and the instance are known, and where one is not, what
/// fails is the first of the two that is not. No two instances in one directory share a path.
pub proof fn law_each_instance_has_its_socket(
    dir: Result<String, String>,
    instance: Result<String, String>,
    path: Result<String, String>,
    other_instance: Result<String, String>,
    other_path: Result<String, String>,
)
    requires
        is_socket_path(dir, instance, path),
        is_socket_path(dir, other_instance, other_path),
    ensures
        path is Ok <==> dir is Ok && instance is Ok,
        dir is Err ==> path == dir,
        dir is Ok && instance is Err ==> path == instance,
        path matches Ok(at) ==> at@ == socket_path_of(dir->Ok_0@, instance->Ok_0@),
        path matches Ok(at) ==> (other_path matches Ok(other_at) ==> (at@ == other_at@ <==>
            instance->Ok_0@ == other_instance->Ok_0@)),
{
    if let (Ok(dir), Ok(instance), Ok(other)) = (dir, instance, other_instance) {
        law_socket_path_is_spelled_out(dir@, instance@);
        law_socket_path_is_spelled_out(dir@, other@);
    }
}

} // verus!
