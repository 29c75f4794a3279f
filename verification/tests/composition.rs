use studio_shell::composition::{capabilities, stores, Capability, StateFlag};
use studio_shell::identity::Platform;

#[test]
fn windows_keeps_window_state() {
    assert_eq!(
        capabilities(Platform::Windows),
        vec![
            Capability::OsInfo,
            Capability::Store,
            Capability::FileSystem,
            Capability::Dialog,
            Capability::SingleInstance,
            Capability::WindowState,
        ]
    );
}

#[test]
fn other_platforms_keep_no_window_state() {
    for platform in [Platform::Linux, Platform::MacOs, Platform::Other] {
        assert_eq!(
            capabilities(platform),
            vec![
                Capability::OsInfo,
                Capability::Store,
                Capability::FileSystem,
                Capability::Dialog,
                Capability::SingleInstance,
            ]
        );
    }
}

#[test]
fn visibility_and_decorations_are_not_stored() {
    assert!(stores(StateFlag::Size));
    assert!(stores(StateFlag::Position));
    assert!(stores(StateFlag::Maximized));
    assert!(stores(StateFlag::Fullscreen));
    assert!(!stores(StateFlag::Visible));
    assert!(!stores(StateFlag::Decorations));
}
