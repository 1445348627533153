use kiosk::{get_hardware_profile, hardware_profile_from, trim_nul_chars};

fn text(s: &str) -> Option<String> {
    Some(s.to_string())
}

#[test]
fn unreadable_model_uses_placeholder() {
    let r = hardware_profile_from(None, 0, None, None, None);
    assert_eq!(r.model, "Desktop Computer");
    assert_eq!(r.ram_mb, 0);
    assert_eq!(r.os_name, "Unknown");
    assert_eq!(r.os_version, "Unknown");
    assert_eq!(r.hostname, "localhost");
}

#[test]
fn device_tree_model_loses_its_terminator() {
    let r = hardware_profile_from(
        text("Raspberry Pi 4 Model B Rev 1.4\0"),
        8 * 1024 * 1024 * 1024,
        text("Debian GNU/Linux"),
        text("12"),
        text("kiosk-pi"),
    );
    assert_eq!(r.model, "Raspberry Pi 4 Model B Rev 1.4");
    assert_eq!(r.ram_mb, 8192);
    assert_eq!(r.os_name, "Debian GNU/Linux");
    assert_eq!(r.os_version, "12");
    assert_eq!(r.hostname, "kiosk-pi");
}

#[test]
fn ram_is_truncated_to_whole_megabytes() {
    assert_eq!(hardware_profile_from(None, 1048575, None, None, None).ram_mb, 0);
    assert_eq!(hardware_profile_from(None, 1048576, None, None, None).ram_mb, 1);
    assert_eq!(hardware_profile_from(None, 3 * 1048576 - 1, None, None, None).ram_mb, 2);
    assert_eq!(hardware_profile_from(None, u64::MAX, None, None, None).ram_mb, u64::MAX / 1048576);
}

#[test]
fn nul_characters_trimmed_at_both_ends_only() {
    assert_eq!(trim_nul_chars("\0\0a\0b\0"), "a\0b");
    assert_eq!(trim_nul_chars("\0\0\0"), "");
    assert_eq!(trim_nul_chars(""), "");
    assert_eq!(trim_nul_chars("plain"), "plain");
    assert_eq!(trim_nul_chars("\0Pi é\0"), "Pi é");
}

#[test]
fn empty_facts_are_kept_not_replaced() {
    let r = hardware_profile_from(text(""), 5, text(""), text(""), text(""));
    assert_eq!(r.model, "");
    assert_eq!(r.os_name, "");
    assert_eq!(r.hostname, "");
}

#[test]
fn host_profile_uses_the_host_memory() {
    let r = get_hardware_profile(None);
    assert_eq!(r.model, "Desktop Computer");
    let total = sysinfo::System::new_all().total_memory();
    assert!(r.ram_mb <= total / 1048576 + 1);
    assert!(r.ram_mb + 1 >= total / 1048576);
    let again = get_hardware_profile(text("Board\0"));
    assert_eq!(again.model, "Board");
    assert_eq!(again.os_name, r.os_name);
    assert_eq!(again.hostname, r.hostname);
}
