use wry::controller::{
    may_register_after, FileDropController, InstallAction, InstallEvent, InstallStage,
};
use wry::geometry::WindowHandle;
use wry::status::StatusCode;

const NOT_REGISTERED: i32 = -2147221248;
const ALREADY_REGISTERED: i32 = -2147221247;
const INVALID_HWND: i32 = -2147221246;
const E_OUTOFMEMORY: i32 = -2147024882;

/// What the windowing system answers for one window below the root.
struct Child {
    window: WindowHandle,
    /// The parent, if it is not the root window.
    below: Option<WindowHandle>,
    revoked: i32,
    registered: i32,
}

/// Runs an installation and returns the controller and the statuses that
/// were to be logged.
fn install(
    controller: FileDropController<String>,
    root: WindowHandle,
    name: &str,
    children: &[Child],
) -> (FileDropController<String>, Vec<StatusCode>) {
    let mut logged = Vec::new();
    let (mut controller, action) = controller.listen(root);
    assert_eq!(action, InstallAction::Enumerate(root));
    for child in children {
        assert_eq!(controller.root(), Some(root));
        let parent = child.below.unwrap_or(root);
        let (next, action) = controller.step(InstallEvent::Child(child.window, parent));
        if child.below.is_some() {
            assert_eq!(action, InstallAction::Continue);
            assert_eq!(action.ends_visit(), Some(true));
            controller = next;
            continue;
        }
        assert_eq!(action, InstallAction::Revoke(child.window));
        assert_eq!(action.ends_visit(), None);
        let (next, action) = next.step(InstallEvent::Revoked(StatusCode(child.revoked)));
        controller = match action {
            InstallAction::Register(window) => {
                assert_eq!(window, child.window);
                let target = format!("{} on {}", name, window.0);
                let (next, action) =
                    next.step(InstallEvent::Registered(target, StatusCode(child.registered)));
                assert_eq!(action.ends_visit(), Some(true));
                match action {
                    InstallAction::Continue => {}
                    InstallAction::Skip(status) => logged.push(status),
                    other => panic!("unexpected {:?}", other),
                }
                next
            }
            InstallAction::Skip(status) => {
                assert_eq!(action.ends_visit(), Some(true));
                logged.push(status);
                next
            }
            other => panic!("unexpected {:?}", other),
        };
        assert_eq!(controller.stage(), InstallStage::Enumerating);
    }
    let (controller, action) = controller.step(InstallEvent::Enumerated);
    assert_eq!(action, InstallAction::Finished);
    assert_eq!(action.ends_visit(), None);
    assert_eq!(controller.stage(), InstallStage::Idle);
    assert_eq!(controller.root(), None);
    (controller, logged)
}

fn fresh(window: isize) -> Child {
    Child { window: WindowHandle(window), below: None, revoked: NOT_REGISTERED, registered: 0 }
}

#[test]
fn a_new_controller_keeps_nothing() {
    let controller: FileDropController<String> = FileDropController::new();
    assert_eq!(controller.len(), 0);
    assert_eq!(controller.stage(), InstallStage::Idle);
    assert_eq!(controller.registration(0), None);
    assert_eq!(controller.target(0), None);
    assert!(!controller.is_registered(WindowHandle(1)));
}

#[test]
fn a_root_without_children_gets_no_interceptor() {
    let (controller, logged) = install(FileDropController::new(), WindowHandle(1), "first", &[]);
    assert_eq!(controller.len(), 0);
    assert!(logged.is_empty());
    assert_eq!(controller.stage(), InstallStage::Idle);
}

#[test]
fn a_rejected_child_does_not_stop_its_siblings() {
    let children = [
        fresh(11),
        Child { window: WindowHandle(12), below: None, revoked: NOT_REGISTERED, registered: INVALID_HWND },
        fresh(13),
    ];
    let (controller, logged) =
        install(FileDropController::new(), WindowHandle(1), "tap", &children);
    assert_eq!(controller.len(), 2);
    assert_eq!(controller.registration(0), Some((WindowHandle(11), true)));
    assert_eq!(controller.registration(1), Some((WindowHandle(13), true)));
    assert_eq!(controller.registration(2), None);
    assert_eq!(controller.target(0), Some(&"tap on 11".to_string()));
    assert_eq!(controller.target(1), Some(&"tap on 13".to_string()));
    assert!(controller.is_registered(WindowHandle(11)));
    assert!(!controller.is_registered(WindowHandle(12)));
    assert!(controller.is_registered(WindowHandle(13)));
    assert_eq!(logged, vec![StatusCode(INVALID_HWND)]);
}

#[test]
fn a_child_whose_way_cannot_be_cleared_is_skipped() {
    let children = [
        Child { window: WindowHandle(21), below: None, revoked: INVALID_HWND, registered: 0 },
        fresh(22),
        Child { window: WindowHandle(23), below: None, revoked: E_OUTOFMEMORY, registered: 0 },
    ];
    let (controller, logged) =
        install(FileDropController::new(), WindowHandle(2), "tap", &children);
    assert_eq!(controller.len(), 1);
    assert_eq!(controller.registration(0), Some((WindowHandle(22), true)));
    assert_eq!(logged, vec![StatusCode(INVALID_HWND), StatusCode(E_OUTOFMEMORY)]);
}

#[test]
fn revoking_what_another_registered_clears_the_way() {
    let children = [Child { window: WindowHandle(31), below: None, revoked: 0, registered: 0 }];
    let (controller, logged) =
        install(FileDropController::new(), WindowHandle(3), "tap", &children);
    assert_eq!(controller.registration(0), Some((WindowHandle(31), true)));
    assert!(logged.is_empty());
}

#[test]
fn installing_twice_leaves_one_active_interceptor_per_child() {
    let first = [fresh(41), fresh(42)];
    let (controller, _) = install(FileDropController::new(), WindowHandle(4), "first", &first);
    // the second time there is something to revoke, and revoking succeeds
    let second = [
        Child { window: WindowHandle(41), below: None, revoked: 0, registered: 0 },
        Child { window: WindowHandle(42), below: None, revoked: 0, registered: 0 },
    ];
    let (controller, logged) = install(controller, WindowHandle(4), "second", &second);
    assert!(logged.is_empty());
    // all four are kept, and the later two are the active ones
    assert_eq!(controller.len(), 4);
    assert_eq!(controller.registration(0), Some((WindowHandle(41), false)));
    assert_eq!(controller.registration(1), Some((WindowHandle(42), false)));
    assert_eq!(controller.registration(2), Some((WindowHandle(41), true)));
    assert_eq!(controller.registration(3), Some((WindowHandle(42), true)));
    assert_eq!(controller.target(2), Some(&"second on 41".to_string()));
    for window in [41, 42] {
        let active = (0..controller.len())
            .filter(|&i| controller.registration(i) == Some((WindowHandle(window), true)))
            .count();
        assert_eq!(active, 1);
        assert!(controller.is_registered(WindowHandle(window)));
    }
}

#[test]
fn a_second_installation_that_cannot_revoke_leaves_the_first() {
    let (controller, _) = install(FileDropController::new(), WindowHandle(5), "first", &[fresh(51)]);
    let second = [Child { window: WindowHandle(51), below: None, revoked: E_OUTOFMEMORY, registered: 0 }];
    let (controller, logged) = install(controller, WindowHandle(5), "second", &second);
    assert_eq!(controller.len(), 1);
    assert_eq!(controller.registration(0), Some((WindowHandle(51), true)));
    assert_eq!(controller.target(0), Some(&"first on 51".to_string()));
    assert_eq!(logged, vec![StatusCode(E_OUTOFMEMORY)]);
}

#[test]
fn a_second_installation_that_is_refused_leaves_the_child_without() {
    let (controller, _) = install(FileDropController::new(), WindowHandle(6), "first", &[fresh(61)]);
    let second = [Child { window: WindowHandle(61), below: None, revoked: 0, registered: ALREADY_REGISTERED }];
    let (controller, logged) = install(controller, WindowHandle(6), "second", &second);
    // the first was revoked and is kept; the second was refused and let go
    assert_eq!(controller.len(), 1);
    assert_eq!(controller.registration(0), Some((WindowHandle(61), false)));
    assert!(!controller.is_registered(WindowHandle(61)));
    assert_eq!(logged, vec![StatusCode(ALREADY_REGISTERED)]);
}

#[test]
fn the_way_is_clear_after_success_or_nothing_to_revoke() {
    assert!(may_register_after(StatusCode(0)));
    assert!(may_register_after(StatusCode(1)));
    assert!(may_register_after(StatusCode(NOT_REGISTERED)));
    assert!(!may_register_after(StatusCode(INVALID_HWND)));
    assert!(!may_register_after(StatusCode(ALREADY_REGISTERED)));
    assert!(!may_register_after(StatusCode(E_OUTOFMEMORY)));
    assert!(!may_register_after(StatusCode(-1)));
    assert!(!may_register_after(StatusCode(i32::MIN)));
}

#[test]
fn events_out_of_turn_are_dropped() {
    let controller: FileDropController<String> = FileDropController::new();
    let (controller, action) =
        controller.step(InstallEvent::Child(WindowHandle(71), WindowHandle(7)));
    assert_eq!(action, InstallAction::Unasked);
    let (controller, action) = controller.step(InstallEvent::Enumerated);
    assert_eq!(action, InstallAction::Unasked);
    let (controller, action) =
        controller.step(InstallEvent::Registered("stray".to_string(), StatusCode(0)));
    assert_eq!(action, InstallAction::Unasked);
    assert_eq!(controller.len(), 0);
    assert_eq!(controller.stage(), InstallStage::Idle);
    let (controller, _) = controller.listen(WindowHandle(7));
    // an installation is under way: a second one cannot start
    let (controller, action) = controller.listen(WindowHandle(8));
    assert_eq!(action, InstallAction::Unasked);
    assert_eq!(controller.stage(), InstallStage::Enumerating);
    let (controller, action) = controller.step(InstallEvent::Revoked(StatusCode(0)));
    assert_eq!(action, InstallAction::Unasked);
    let (controller, _) = controller.step(InstallEvent::Child(WindowHandle(71), WindowHandle(7)));
    assert_eq!(controller.stage(), InstallStage::Revoking(WindowHandle(71)));
    let (controller, action) =
        controller.step(InstallEvent::Child(WindowHandle(72), WindowHandle(7)));
    assert_eq!(action, InstallAction::Unasked);
    let (controller, action) = controller.step(InstallEvent::Revoked(StatusCode(NOT_REGISTERED)));
    assert_eq!(action, InstallAction::Register(WindowHandle(71)));
    assert_eq!(controller.stage(), InstallStage::Registering(WindowHandle(71)));
    let (controller, action) = controller.step(InstallEvent::Enumerated);
    assert_eq!(action, InstallAction::Unasked);
    let (controller, action) =
        controller.step(InstallEvent::Registered("tap".to_string(), StatusCode(0)));
    assert_eq!(action, InstallAction::Continue);
    assert_eq!(controller.len(), 1);
    assert_eq!(controller.target(0), Some(&"tap".to_string()));
}

#[test]
fn a_window_further_down_gets_no_interceptor() {
    let children = [
        fresh(91),
        Child {
            window: WindowHandle(911),
            below: Some(WindowHandle(91)),
            revoked: NOT_REGISTERED,
            registered: 0,
        },
        fresh(92),
        Child { window: WindowHandle(921), below: Some(WindowHandle(92)), revoked: 0, registered: 0 },
    ];
    let (controller, logged) =
        install(FileDropController::new(), WindowHandle(9), "tap", &children);
    assert_eq!(controller.len(), 2);
    assert_eq!(controller.registration(0), Some((WindowHandle(91), true)));
    assert_eq!(controller.registration(1), Some((WindowHandle(92), true)));
    assert!(!controller.is_registered(WindowHandle(911)));
    assert!(!controller.is_registered(WindowHandle(921)));
    assert!(logged.is_empty());
}

#[test]
fn teardown_names_the_windows_to_revoke_and_hands_back_what_was_kept() {
    let first = [fresh(101), fresh(102), fresh(103)];
    let (controller, _) = install(FileDropController::new(), WindowHandle(10), "old", &first);
    let second = [
        Child { window: WindowHandle(102), below: None, revoked: 0, registered: 0 },
        Child { window: WindowHandle(103), below: None, revoked: 0, registered: INVALID_HWND },
    ];
    let (controller, _) = install(controller, WindowHandle(10), "new", &second);
    let (windows, kept) = controller.teardown();
    // 101 has its first interceptor, 102 its second, 103 none any more
    assert_eq!(windows, vec![WindowHandle(101), WindowHandle(102)]);
    assert_eq!(kept, vec!["old on 101", "old on 102", "old on 103", "new on 102"]);
    let empty: FileDropController<String> = FileDropController::new();
    assert_eq!(empty.teardown(), (Vec::new(), Vec::new()));
}

#[test]
fn the_same_child_reported_twice_keeps_one_active() {
    let children = [fresh(81), Child { window: WindowHandle(81), below: None, revoked: 0, registered: 0 }];
    let (controller, _) = install(FileDropController::new(), WindowHandle(8), "tap", &children);
    assert_eq!(controller.len(), 2);
    assert_eq!(controller.registration(0), Some((WindowHandle(81), false)));
    assert_eq!(controller.registration(1), Some((WindowHandle(81), true)));
}
