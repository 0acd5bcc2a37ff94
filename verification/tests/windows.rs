use wmde_comp::windows::{AccessDenied, CachedPid, PidLookup, Toplevel, WindowsState};

fn window(pid: Option<u32>, title: &str, activated: bool) -> Toplevel {
    Toplevel { pid, app_id: "app".to_string(), title: title.to_string(), activated }
}

#[test]
fn the_server_knows_better_than_the_client() {
    let lookup = PidLookup::X11 { client: Some(10), property: Some(20) };
    assert_eq!(CachedPid::new().pid_of(|| lookup), Some(10));
    let lookup = PidLookup::X11 { client: None, property: Some(20) };
    assert_eq!(CachedPid::new().pid_of(|| lookup), Some(20));
    let lookup = PidLookup::X11 { client: None, property: None };
    assert_eq!(CachedPid::new().pid_of(|| lookup), None);
}

#[test]
fn negative_ids_name_no_process() {
    let lookup = |credentials| PidLookup::Wayland { credentials };
    assert_eq!(CachedPid::new().pid_of(|| lookup(Some(7))), Some(7));
    assert_eq!(CachedPid::new().pid_of(|| lookup(Some(0))), Some(0));
    assert_eq!(CachedPid::new().pid_of(|| lookup(Some(-1))), None);
    assert_eq!(CachedPid::new().pid_of(|| lookup(None)), None);
}

#[test]
fn only_a_success_is_remembered() {
    let mut cached = CachedPid::new();
    assert_eq!(cached.pid_of(|| PidLookup::Wayland { credentials: None }), None);
    assert_eq!(cached.pid_of(|| PidLookup::Wayland { credentials: Some(5) }), Some(5));
    assert_eq!(cached.pid_of(|| panic!("asked again")), Some(5));
}

#[test]
fn changes_are_announced_once() {
    let mut state = WindowsState::new();
    assert!(!state.refresh(vec![]));
    assert!(!state.refresh(vec![window(None, "a", false)]));
    assert!(state.refresh(vec![window(Some(1), "a", false)]));
    assert!(!state.refresh(vec![window(Some(1), "a", false), window(None, "b", true)]));
    assert!(state.refresh(vec![window(Some(1), "a", true)]));
    assert!(state.refresh(vec![window(Some(2), "a", true)]));
    assert!(state.refresh(vec![window(Some(2), "b", true)]));
    assert!(!state.refresh(vec![window(Some(2), "b", true)]));
    assert!(state.refresh(vec![]));
}

#[test]
fn the_list_holds_the_windows_with_a_process() {
    let mut state = WindowsState::new();
    state.refresh(vec![
        window(Some(3), "c", false),
        window(None, "hidden", false),
        window(Some(1), "a", true),
    ]);
    let expected = vec![
        (3, "app".to_string(), "c".to_string(), false),
        (1, "app".to_string(), "a".to_string(), true),
    ];
    assert_eq!(state.list(None), Ok(expected.clone()));
    assert_eq!(state.list(Some(true)), Ok(expected));
}

#[test]
fn the_list_is_kept_from_others() {
    assert_eq!(WindowsState::new().list(Some(false)), Err(AccessDenied));
}
