use dragonfox_vpn::autostart::{AutoStartManager, AutostartChange};
use dragonfox_vpn::system::Platform;

#[test]
fn test_not_available_on_non_windows() {
    assert!(
        !AutoStartManager::is_available(Platform::Unix),
        "autostart should not be available on non-Windows"
    );
}

#[test]
fn test_not_enabled_on_non_windows() {
    // Off Windows there is no registry entry to read.
    assert!(
        !AutoStartManager::is_enabled(None, "/usr/bin/dragonfox-vpn"),
        "autostart should report disabled on non-Windows"
    );
}

#[test]
fn test_set_autostart_enable_does_not_panic() {
    AutoStartManager::set_autostart(true, "/usr/bin/dragonfox-vpn");
}

#[test]
fn test_set_autostart_disable_does_not_panic() {
    AutoStartManager::set_autostart(false, "/usr/bin/dragonfox-vpn");
}

#[test]
fn test_available_on_windows() {
    assert!(AutoStartManager::is_available(Platform::Windows));
}

#[test]
fn autostart_enabled_when_entry_names_this_exe() {
    let exe = r"C:\Program Files\DragonFoxVPN\dragonfox.exe";
    assert!(AutoStartManager::is_enabled(
        Some(r#""C:\Program Files\DragonFoxVPN\dragonfox.exe""#),
        exe
    ));
    assert!(AutoStartManager::is_enabled(
        Some(r"c:\program files\dragonfoxvpn\DRAGONFOX.EXE"),
        exe
    ));
    assert!(!AutoStartManager::is_enabled(Some(r"C:\Other\app.exe"), exe));
}

#[test]
fn autostart_value_quotes_paths_with_spaces() {
    match AutoStartManager::set_autostart(true, r"C:\Program Files\DragonFoxVPN\dragonfox.exe") {
        AutostartChange::SetValue(v) => {
            assert_eq!(v, r#""C:\Program Files\DragonFoxVPN\dragonfox.exe""#)
        }
        _ => panic!("expected a value to set"),
    }
    match AutoStartManager::set_autostart(true, r"C:\Apps\dragonfox.exe") {
        AutostartChange::SetValue(v) => assert_eq!(v, r"C:\Apps\dragonfox.exe"),
        _ => panic!("expected a value to set"),
    }
    match AutoStartManager::set_autostart(true, r#""C:\Program Files\x.exe""#) {
        AutostartChange::SetValue(v) => assert_eq!(v, r#""C:\Program Files\x.exe""#),
        _ => panic!("expected a value to set"),
    }
    assert!(matches!(
        AutoStartManager::set_autostart(false, r"C:\Apps\dragonfox.exe"),
        AutostartChange::DeleteValue
    ));
}
