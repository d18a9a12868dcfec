# hyprland_client

What a status bar needs to know of the Hyprland compositor: its workspaces and the classes of the
windows on them, the keyboard layout and the bind mode.

- `src/` is the verified library. It talks to nobody: it takes events and replies as plain values,
  and gives back updates, requests and notices.
  - `cache`: the open windows, each with its workspace and class.
  - `hypr`, `event`, `update`, `workspace`: the values that come in and go out.
  - `lookup`: finding workspaces and windows in what Hyprland lists.
  - `client`: the state, and how events change it.
  - `keyboard`, `bindmode`, `dispatch`, `config`: layouts, bind modes, requests for another
    workspace, and where Hyprland listens.
  - `laws`: what holds across calls.
- `app/` connects the library to Hyprland's sockets, through the `hyprland` crate, and to
  subscribers, through broadcast channels.
- `tests/` runs the library on concrete values.

The cache lists the classes on a workspace in an order of its own. Contracts fix which classes are
listed, one for each window, and leave the order open.
