//! How Hyprland is configured, and where it listens.

use vstd::prelude::*;

verus! {

/// What Hyprland is asked for its status.
pub const STATUS_REQUEST: &'static str = "j/status";

/// Hyprland said that its configuration is provided in Lua.
pub open spec fn is_lua(provider: Result<String, String>) -> bool {
    provider matches Ok(name) && name@ == "lua"@
}

/// Whether Hyprland is configured in Lua. It is taken not to be where that could not be found out.
pub fn detect_lua_config(provider: Result<String, String>) -> (lua: bool)
    ensures
        lua == is_lua(provider),
{
    match provider {
        Ok(provider) => provider == "lua".to_owned(),
        Err(_) => false,
    }
}

/// `dir` is the directory that is set for sockets, or else the usual one of the user.
pub open spec fn is_runtime_dir(
    xdg_runtime_dir: Result<String, String>,
    uid: Result<String, String>,
    dir: Result<String, String>,
) -> bool {
    match (xdg_runtime_dir, uid) {
        (Ok(set), _) => dir == Ok::<String, String>(set),
        (Err(_), Ok(uid)) => dir matches Ok(dir) && dir@ == "/run/user/"@ + uid@,
        (Err(_), Err(error)) => dir == Err::<String, String>(error),
    }
}

/// The directory for sockets: the one that is set for them, or else the usual one of the user.
pub fn runtime_dir(
    xdg_runtime_dir: Result<String, String>,
    uid: Result<String, String>,
) -> (dir: Result<String, String>)
    ensures
        is_runtime_dir(xdg_runtime_dir, uid, dir),
{
    match xdg_runtime_dir {
        Ok(set) => Ok(set),
        Err(_) => match uid {
            Ok(uid) => {
                let mut dir = "/run/user/".to_owned();
                dir.append(uid.as_str());
                Ok(dir)
            },
            Err(error) => Err(error),
        },
    }
}

/// The path of the socket at which an instance of Hyprland takes requests.
pub open spec fn socket_path_of(dir: Seq<char>, instance: Seq<char>) -> Seq<char> {
    dir + "/hypr/"@ + instance + "/.socket.sock"@
}

/// `path` is where an instance of Hyprland takes requests, or says which of the two is missing.
pub open spec fn is_socket_path(
    runtime_dir: Result<String, String>,
    instance: Result<String, String>,
    path: Result<String, String>,
) -> bool {
    match (runtime_dir, instance) {
        (Ok(dir), Ok(instance)) => path matches Ok(path) && path@ == socket_path_of(
            dir@,
            instance@,
        ),
        (Err(error), _) => path == Err::<String, String>(error),
        (Ok(_), Err(error)) => path == Err::<String, String>(error),
    }
}

/// Where Hyprland takes requests, going by the environment.
///
/// A failure is that of the directory where both that and the instance are missing.
pub fn socket_path(
    runtime_dir: Result<String, String>,
    instance: Result<String, String>,
) -> (path: Result<String, String>)
    ensures
        is_socket_path(runtime_dir, instance, path),
{
    match runtime_dir {
        Err(error) => Err(error),
        Ok(dir) => match instance {
            Err(error) => Err(error),
            Ok(instance) => {
                let mut path = dir;
                path.append("/hypr/");
                path.append(instance.as_str());
                path.append("/.socket.sock");
                Ok(path)
            },
        },
    }
}

} // verus!
