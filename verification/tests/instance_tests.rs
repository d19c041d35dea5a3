use dragonfox_vpn::instance::single_instance_check;
use dragonfox_vpn::system::Platform;

#[test]
fn unix_listing_with_only_this_process() {
    assert!(single_instance_check(Platform::Unix, Some("4242\n"), "4242"));
    assert!(single_instance_check(Platform::Unix, Some(""), "4242"));
    assert!(!single_instance_check(Platform::Unix, Some("4242\n1717\n"), "4242"));
}

#[test]
fn windows_listing_counts_the_executable() {
    let one = "\"DragonFoxVPN.exe\",\"4242\",\"Console\"\r\n";
    let two = "\"DragonFoxVPN.exe\",\"4242\",\"Console\"\r\n\"DragonFoxVPN.exe\",\"1717\",\"Console\"\r\n";
    assert!(single_instance_check(Platform::Windows, Some(one), "4242"));
    assert!(!single_instance_check(Platform::Windows, Some(two), "4242"));
    assert!(single_instance_check(Platform::Windows, Some("INFO: No tasks"), "4242"));
}

#[test]
fn missing_listing_lets_the_program_start() {
    assert!(single_instance_check(Platform::Unix, None, "1"));
    assert!(single_instance_check(Platform::Windows, None, "1"));
}
