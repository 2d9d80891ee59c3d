use libfastfetch::platform::linux::{
    dmi_path, parse_cpuinfo, parse_device_size, parse_frequency, parse_meminfo,
    parse_os_release, OsRelease,
};

#[test]
fn release_descriptor_fields() {
    let release = parse_os_release(
        "# comment\nNAME=\"Debian GNU/Linux\"\n  ID=debian  \nPRETTY_NAME=\"Debian 12\"\nVERSION_ID=\"12\"\nVERSION=\"12 (bookworm)\"\nBROKEN\nID=other\nHOME_URL=a=b\n",
    );
    assert_eq!(
        release,
        OsRelease {
            id: Some("other".to_string()),
            name: Some("Debian GNU/Linux".to_string()),
            pretty_name: Some("Debian 12".to_string()),
            version: Some("12 (bookworm)".to_string()),
            version_id: Some("12".to_string()),
        }
    );
    assert_eq!(parse_os_release(""), OsRelease::default());
    assert_eq!(parse_os_release("#ID=x\n=y\nid=z\n"), OsRelease::default());
    assert_eq!(
        parse_os_release("ID=").id,
        Some(String::new())
    );
}

#[test]
fn memory_table_as_a_map() {
    let table = parse_meminfo("MemTotal:       16384 kB\n MemFree :  12 kB\nBad: x\nNone\nMemTotal: 7\nHugePages_Total:       0\n");
    assert_eq!(table.get("MemTotal"), Some(&7));
    assert_eq!(table.get("MemFree"), Some(&12));
    assert_eq!(table.get("HugePages_Total"), Some(&0));
    assert_eq!(table.get("Bad"), None);
    assert_eq!(table.get("None"), None);
    assert_eq!(parse_meminfo("").get("MemTotal"), None);
}

#[test]
fn processor_table_as_a_map() {
    let table = parse_cpuinfo("processor\t: 0\nmodel name\t: First: one\n\nprocessor\t: 1\nmodel name\t: Second\nflags\t:\n");
    assert_eq!(table.get("processor"), Some(&"0".to_string()));
    assert_eq!(table.get("model name"), Some(&"First: one".to_string()));
    assert_eq!(table.get("flags"), Some(&String::new()));
    assert_eq!(table.get(""), None);
    assert_eq!(table.get("cpu cores"), None);
}

#[test]
fn numbers_of_sys_files() {
    assert_eq!(parse_frequency("3400000\n"), Some(3400000));
    assert_eq!(parse_frequency(" 12 "), Some(12));
    assert_eq!(parse_frequency("12 kHz"), None);
    assert_eq!(parse_frequency(""), None);
    assert_eq!(parse_device_size("2048\n"), Some(1048576));
    assert_eq!(parse_device_size("0"), Some(0));
    assert_eq!(parse_device_size("36028797018963967"), Some(18446744073709551104));
    assert_eq!(parse_device_size("36028797018963968"), None);
    assert_eq!(parse_device_size("big"), None);
}

#[test]
fn paths_of_dmi_fields() {
    assert_eq!(dmi_path("product_name"), "/sys/class/dmi/id/product_name");
    assert_eq!(dmi_path(""), "/sys/class/dmi/id/");
}

#[test]
fn test_parse_meminfo() {
    let info = parse_meminfo("MemTotal:       16384 kB\nMemFree:        8192 kB\n");
    assert!(info.get("MemTotal").is_some());
}

#[test]
fn test_parse_cpuinfo() {
    let info = parse_cpuinfo("processor\t: 0\nmodel name\t: Test CPU\n");
    assert!(info.get("model name").is_some() || info.get("cpu model").is_some());
}
