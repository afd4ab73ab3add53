//! The dock of client buttons: which client a button stands for, where a
//! click sends that client, and which button a closing window takes away.
use vstd::prelude::*;

verus! {

/// What the dock knows of a client window.
pub struct ClientInfo {
    /// The window's address, as the compositor prints it.
    pub address: String,
    /// The id of the workspace the window is on.
    pub workspace: i32,
    /// The id of the process that owns the window.
    pub pid: i32,
    /// The window's title.
    pub title: String,
}

/// The first client in `clients` whose address is `address`.
pub fn find_client(clients: &Vec<ClientInfo>, address: &String) -> (res: Option<usize>)
    ensures
        match res {
            Some(i) => {
                &&& i < clients.len()
                &&& clients@[i as int].address@ == address@
                &&& forall|j: int| 0 <= j < i ==> #[trigger] clients@[j].address@ != address@
            },
            None => forall|j: int|
                0 <= j < clients.len() ==> #[trigger] clients@[j].address@ != address@,
        },
{
    let mut i: usize = 0;
    while i < clients.len()
        invariant
            i <= clients.len(),
            forall|j: int| 0 <= j < i ==> #[trigger] clients@[j].address@ != address@,
        decreases clients.len() - i,
    {
        if clients[i].address == *address {
            return Some(i);
        }
        i = i + 1;
    }
    None
}

/// The name of the special workspace that a click sends a window to.
pub const SCRATCHPAD: &'static str = "magic";

/// Where a click on a client's button moves the client, without switching
/// the workspace on screen.
pub enum MoveTarget {
    /// To the special workspace named by `SCRATCHPAD`.
    Scratchpad,
    /// To the workspace with this id.
    Workspace(i32),
}

/// A window on the active workspace goes to the scratchpad; any other window
/// is brought to the active workspace.
pub open spec fn toggle_target_spec(client_workspace: i32, active_workspace: i32) -> MoveTarget {
    if client_workspace == active_workspace {
        MoveTarget::Scratchpad
    } else {
        MoveTarget::Workspace(active_workspace)
    }
}

/// A click hides a window that is on the workspace on screen, sending it to
/// the scratchpad, and brings a window from any other workspace to the one
/// on screen; a window is never sent to a workspace other than the active one
/// or the scratchpad.
pub proof fn lemma_toggle_target(client_workspace: i32, active_workspace: i32)
    ensures
        client_workspace == active_workspace ==> toggle_target_spec(
            client_workspace,
            active_workspace,
        ) is Scratchpad,
        client_workspace != active_workspace ==> toggle_target_spec(
            client_workspace,
            active_workspace,
        ) == MoveTarget::Workspace(active_workspace),
        toggle_target_spec(client_workspace, active_workspace) matches MoveTarget::Workspace(w)
            ==> w == active_workspace && w != client_workspace,
{
}

/// Where a click moves a client on workspace `client_workspace` while
/// `active_workspace` is on screen.
pub fn toggle_target(client_workspace: i32, active_workspace: i32) -> (res: MoveTarget)
    ensures
        res == toggle_target_spec(client_workspace, active_workspace),
        client_workspace == active_workspace ==> res is Scratchpad,
        client_workspace != active_workspace ==> res == MoveTarget::Workspace(active_workspace),
{
    if client_workspace == active_workspace {
        MoveTarget::Scratchpad
    } else {
        MoveTarget::Workspace(active_workspace)
    }
}

/// A request to move the window at `address` to `target`.
pub struct MoveRequest {
    pub target: MoveTarget,
    pub address: String,
}

/// What a click on the button of the window at `address` asks for, given
/// the clients as they are now and the active workspace: the first client
/// with that address is moved as `toggle_target` says. `None` when no client
/// has that address any more.
pub fn click_request(clients: &Vec<ClientInfo>, address: &String, active_workspace: i32) -> (res:
    Option<MoveRequest>)
    ensures
        match res {
            Some(request) => exists|i: int|
                {
                    &&& 0 <= i < clients.len()
                    &&& #[trigger] clients@[i].address@ == address@
                    &&& forall|j: int| 0 <= j < i ==> #[trigger] clients@[j].address@ != address@
                    &&& request.address@ == address@
                    &&& request.target == toggle_target_spec(
                        clients@[i].workspace,
                        active_workspace,
                    )
                    &&& clients@[i].workspace == active_workspace ==> request.target is Scratchpad
                    &&& clients@[i].workspace != active_workspace ==> request.target
                        == MoveTarget::Workspace(active_workspace)
                },
            None => forall|j: int|
                0 <= j < clients.len() ==> #[trigger] clients@[j].address@ != address@,
        },
{
    match find_client(clients, address) {
        Some(i) => {
            let client = &clients[i];
            let target = toggle_target(client.workspace, active_workspace);
            Some(MoveRequest { target, address: client.address.clone() })
        },
        None => None,
    }
}

/// The icon file a button shows.
pub enum IconChoice {
    /// The file that the icon theme gave for the entry's icon name.
    Found(String),
    /// The theme's `image-missing` icon.
    Fallback,
}

/// The icon file to show: the one the theme found for the icon name when
/// there is one and it exists on disk, the fallback icon otherwise.
/// `found_exists` is only consulted when a file was found.
pub fn icon_choice(found: Option<String>, found_exists: bool) -> (res: IconChoice)
    ensures
        match found {
            Some(path) => if found_exists {
                res == IconChoice::Found(path)
            } else {
                res is Fallback
            },
            None => res is Fallback,
        },
{
    match found {
        Some(path) => if found_exists {
            IconChoice::Found(path)
        } else {
            IconChoice::Fallback
        },
        None => IconChoice::Fallback,
    }
}

} // verus!
