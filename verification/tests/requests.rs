use hyprland_client::bindmode::sub_map_changed;
use hyprland_client::client::Client;
use hyprland_client::config::{detect_lua_config, runtime_dir, socket_path, STATUS_REQUEST};
use hyprland_client::dispatch::{focus_request, FocusRequest};
use hyprland_client::keyboard::{
    layout_changed, set_next_active, subscribe, Keyboard, KeyboardError,
};

fn ok(text: &str) -> Result<String, String> {
    Ok(text.to_string())
}

fn err(text: &str) -> Result<String, String> {
    Err(text.to_string())
}

fn lua_argument(id: i64) -> String {
    match Client::new(Ok(vec![]), ok("lua")).focus(id) {
        FocusRequest::Custom {
            dispatcher,
            argument,
        } => {
            assert_eq!(dispatcher, "hl.dsp.focus");
            argument
        }
        FocusRequest::Workspace(_) => panic!("not in Lua"),
    }
}

fn plain_id(id: i64) -> i32 {
    match Client::new(Ok(vec![]), ok("hyprlang")).focus(id) {
        FocusRequest::Workspace(id) => id,
        FocusRequest::Custom { .. } => panic!("in Lua"),
    }
}

#[test]
fn focus_in_lua_names_the_id() {
    assert_eq!(lua_argument(0), "{workspace=\"0\"}");
    assert_eq!(lua_argument(10), "{workspace=\"10\"}");
    assert_eq!(lua_argument(1234567890), "{workspace=\"1234567890\"}");
    assert_eq!(lua_argument(-98), "{workspace=\"-98\"}");
    for id in [i64::MIN, -1, 1, 9, 99, 100, i64::MAX] {
        assert_eq!(lua_argument(id), format!("{{workspace=\"{}\"}}", id));
    }
}

#[test]
fn focus_narrows_the_id() {
    assert_eq!(plain_id(5), 5);
    assert_eq!(plain_id(-98), -98);
    assert_eq!(plain_id(0x1_0000_0001), 1);
    assert_eq!(plain_id(0x8000_0000), i32::MIN);
    assert_eq!(plain_id(i64::MAX), -1);
}

#[test]
fn focus_goes_by_how_dispatchers_are_called() {
    assert!(matches!(focus_request(false, 7), FocusRequest::Workspace(7)));
    assert!(matches!(
        focus_request(true, 7),
        FocusRequest::Custom { argument, .. } if argument == "{workspace=\"7\"}"
    ));
}

#[test]
fn lua_is_told_from_other_providers() {
    assert!(detect_lua_config(ok("lua")));
    assert!(!detect_lua_config(ok("Lua")));
    assert!(!detect_lua_config(ok("hyprlang")));
    assert!(!detect_lua_config(ok("")));
    assert!(!detect_lua_config(err("lua")));
}

#[test]
fn socket_is_in_the_runtime_directory() {
    assert_eq!(STATUS_REQUEST.as_bytes(), b"j/status");
    assert_eq!(runtime_dir(ok("/run/x"), ok("1000")), ok("/run/x"));
    assert_eq!(runtime_dir(err("unset"), ok("1000")), ok("/run/user/1000"));
    assert_eq!(runtime_dir(err("unset"), err("no uid")), err("no uid"));
    assert_eq!(
        socket_path(ok("/run/user/1000"), ok("abc_1")),
        ok("/run/user/1000/hypr/abc_1/.socket.sock")
    );
    assert_eq!(socket_path(err("no dir"), err("no instance")), err("no dir"));
    assert_eq!(socket_path(ok("/run"), err("no instance")), err("no instance"));
}

fn layout(keyboard_name: &str, layout_name: &str) -> Result<String, String> {
    layout_changed(keyboard_name.to_string(), layout_name.to_string()).map(|update| update.0)
}

#[test]
fn layout_is_taken_as_it_comes() {
    assert_eq!(
        layout("keychron-keychron-c2", "English (US)"),
        ok("English (US)")
    );
    assert_eq!(layout("a,b", "German, dead"), ok("German, dead"));
}

#[test]
fn layout_is_recovered_from_the_keyboard() {
    assert_eq!(
        layout("keychron-keychron-c2,English (US)", ""),
        ok("English (US)")
    );
    assert_eq!(layout("a,b,c", ""), ok("b,c"));
    assert_eq!(
        layout(
            "keychron-keychron-c2,English (US, intl., with dead keys)",
            ""
        ),
        ok("English (US, intl., with dead keys)")
    );
    assert_eq!(layout("a,", ""), ok(""));
    assert_eq!(layout(",", ""), ok(""));
    assert_eq!(layout(",,", ""), ok(","));
    assert_eq!(layout("clavier,fran\u{e7}ais", ""), ok("fran\u{e7}ais"));
}

#[test]
fn layout_that_is_not_there_gives_the_keyboard_back() {
    assert_eq!(layout("keychron", ""), err("keychron"));
    assert_eq!(layout("", ""), err(""));
}

fn keyboard(name: &str, main: bool) -> Keyboard {
    Keyboard {
        name: name.to_string(),
        active_keymap: format!("{} layout", name),
        main,
    }
}

fn keyboards() -> Vec<Keyboard> {
    vec![
        keyboard("power-button", false),
        keyboard("first", true),
        keyboard("second", true),
    ]
}

#[test]
fn main_keyboard_is_the_first_main_one() {
    assert_eq!(set_next_active(Ok(keyboards())).unwrap(), "first");
    assert_eq!(subscribe(Ok(keyboards())).unwrap().0, "first layout");
}

#[test]
fn missing_keyboard_is_an_error() {
    let none = || Ok(vec![keyboard("power-button", false)]);
    assert!(matches!(
        set_next_active(none()),
        Err(KeyboardError::NoMainKeyboard)
    ));
    assert!(matches!(
        subscribe(none()),
        Err(KeyboardError::NoMainKeyboard)
    ));
    assert!(matches!(
        set_next_active(Err("gone".to_string())),
        Err(KeyboardError::DevicesFailed(err)) if err == "gone"
    ));
    assert!(matches!(
        subscribe(Err("gone".to_string())),
        Err(KeyboardError::DevicesFailed(err)) if err == "gone"
    ));
}

#[test]
fn bind_mode_is_plain_text() {
    let update = sub_map_changed("<resize>".to_string());
    assert_eq!(update.name, "<resize>");
    assert!(!update.pango_markup);
    assert_eq!(update.clone().name, "<resize>");
}
