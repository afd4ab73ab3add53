use statusbar::dock::{
    click_request, find_client, icon_choice, toggle_target, ClientInfo, IconChoice, MoveTarget,
    SCRATCHPAD,
};
use statusbar::registry::ButtonRegistry;

fn client(address: &str, workspace: i32) -> ClientInfo {
    ClientInfo { address: address.to_string(), workspace, pid: 100, title: "t".to_string() }
}

#[test]
fn scratchpad_is_magic() {
    assert_eq!(SCRATCHPAD, "magic");
}

#[test]
fn toggle_sends_visible_window_to_scratchpad() {
    assert!(matches!(toggle_target(3, 3), MoveTarget::Scratchpad));
}

#[test]
fn toggle_brings_other_window_to_active_workspace() {
    assert!(matches!(toggle_target(-98, 2), MoveTarget::Workspace(2)));
    assert!(matches!(toggle_target(5, 2), MoveTarget::Workspace(2)));
}

#[test]
fn find_client_gives_first_with_address() {
    let clients = vec![client("0x1", 1), client("0x2", 2), client("0x2", 3)];
    assert_eq!(find_client(&clients, &"0x2".to_string()), Some(1));
    assert_eq!(find_client(&clients, &"0x3".to_string()), None);
    assert_eq!(find_client(&Vec::new(), &"0x1".to_string()), None);
}

#[test]
fn click_request_uses_client_workspace() {
    let clients = vec![client("0xa", 1), client("0xb", 4)];
    let on_screen = click_request(&clients, &"0xb".to_string(), 4).unwrap();
    assert_eq!(on_screen.address, "0xb");
    assert!(matches!(on_screen.target, MoveTarget::Scratchpad));
    let elsewhere = click_request(&clients, &"0xa".to_string(), 4).unwrap();
    assert_eq!(elsewhere.address, "0xa");
    assert!(matches!(elsewhere.target, MoveTarget::Workspace(4)));
}

#[test]
fn click_request_for_vanished_client_is_none() {
    let clients = vec![client("0xa", 1)];
    assert!(click_request(&clients, &"0xc".to_string(), 1).is_none());
}

#[test]
fn icon_choice_prefers_existing_file() {
    match icon_choice(Some("/usr/share/icons/a.png".to_string()), true) {
        IconChoice::Found(path) => assert_eq!(path, "/usr/share/icons/a.png"),
        IconChoice::Fallback => panic!("expected the found file"),
    }
    assert!(matches!(icon_choice(Some("/gone.png".to_string()), false), IconChoice::Fallback));
    assert!(matches!(icon_choice(None, true), IconChoice::Fallback));
}

#[test]
fn registry_starts_empty() {
    let registry = ButtonRegistry::new();
    assert_eq!(registry.get(&"0x1".to_string()), None);
}

#[test]
fn registry_get_after_insert() {
    let mut registry = ButtonRegistry::new();
    registry.insert("0x1".to_string(), 0);
    registry.insert("0x2".to_string(), 1);
    assert_eq!(registry.get(&"0x1".to_string()), Some(0));
    assert_eq!(registry.get(&"0x2".to_string()), Some(1));
    assert_eq!(registry.get(&"0x3".to_string()), None);
}

#[test]
fn registry_insert_replaces_earlier_button() {
    let mut registry = ButtonRegistry::new();
    registry.insert("0x1".to_string(), 0);
    registry.insert("0x2".to_string(), 1);
    registry.insert("0x1".to_string(), 7);
    assert_eq!(registry.get(&"0x1".to_string()), Some(7));
    assert_eq!(registry.get(&"0x2".to_string()), Some(1));
}
