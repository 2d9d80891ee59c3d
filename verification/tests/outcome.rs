use libfastfetch::context::IoFailure;
use libfastfetch::modules::ModuleKind;
use libfastfetch::{DetectionResult, Error, Platform};

#[test]
fn exactly_one_arm_holds() {
    let cases: Vec<DetectionResult<u8>> = vec![
        DetectionResult::Detected(1),
        DetectionResult::Unavailable,
        DetectionResult::Error(Error::UnsupportedPlatform),
    ];
    for case in cases {
        let count = [case.is_detected(), case.is_unavailable(), case.is_error()]
            .iter()
            .filter(|b| **b)
            .count();
        assert_eq!(count, 1);
    }
    assert!(DetectionResult::Detected(1u8).is_detected());
    assert!(DetectionResult::<u8>::Unavailable.is_unavailable());
    assert!(DetectionResult::<u8>::Error(Error::UnsupportedPlatform).is_error());
}

#[test]
fn ok_keeps_only_what_was_detected() {
    assert_eq!(DetectionResult::Detected(5u8).ok(), Some(5));
    assert_eq!(DetectionResult::<u8>::Unavailable.ok(), None);
    assert_eq!(DetectionResult::<u8>::Error(Error::Parse("x".to_string())).ok(), None);
}

#[test]
fn map_changes_only_what_was_detected() {
    assert_eq!(DetectionResult::Detected(5u8).map(|v| v + 1), DetectionResult::Detected(6));
    assert_eq!(
        DetectionResult::<u8>::Unavailable.map(|v| v + 1),
        DetectionResult::Unavailable
    );
    assert_eq!(
        DetectionResult::<u8>::Error(Error::Io("x".to_string())).map(|v| v.to_string()),
        DetectionResult::Error(Error::Io("x".to_string()))
    );
}

#[test]
fn error_texts() {
    assert_eq!(Error::UnsupportedPlatform.to_string(), "Platform not supported");
    assert_eq!(Error::DetectionFailed("a".to_string()).to_string(), "Detection failed: a");
    assert_eq!(Error::Io("b".to_string()).to_string(), "I/O error: b");
    assert_eq!(Error::Parse("c".to_string()).to_string(), "Parse error: c");
    assert_eq!(
        Error::from_io(IoFailure { message: "gone".to_string() }),
        Error::Io("gone".to_string())
    );
}

#[test]
fn category_names() {
    assert_eq!(ModuleKind::Os.name(), "OS");
    assert_eq!(ModuleKind::Host.name(), "Host");
    assert_eq!(ModuleKind::Kernel.name(), "Kernel");
    assert_eq!(ModuleKind::Uptime.name(), "Uptime");
    assert_eq!(ModuleKind::Shell.name(), "Shell");
    assert_eq!(ModuleKind::Cpu.name(), "CPU");
    assert_eq!(ModuleKind::Memory.name(), "Memory");
    assert_eq!(
        ModuleKind::all().to_vec(),
        vec![
            ModuleKind::Os,
            ModuleKind::Host,
            ModuleKind::Kernel,
            ModuleKind::Uptime,
            ModuleKind::Shell,
            ModuleKind::Cpu,
            ModuleKind::Memory,
        ]
    );
}

#[test]
fn category_round_trip() {
    for kind in ModuleKind::all() {
        assert_eq!(ModuleKind::parse(kind.key()), Ok(*kind));
        assert_eq!(ModuleKind::parse(kind.name()), Ok(*kind));
        assert_eq!(kind.key().parse::<ModuleKind>(), Ok(*kind));
        assert_eq!(kind.key(), kind.name().to_lowercase());
    }
}

#[test]
fn category_parsing_ignores_case() {
    assert_eq!(ModuleKind::parse("os"), Ok(ModuleKind::Os));
    assert_eq!(ModuleKind::parse("Os"), Ok(ModuleKind::Os));
    assert_eq!(ModuleKind::parse("MEMORY"), Ok(ModuleKind::Memory));
    assert_eq!(ModuleKind::parse("cPu"), Ok(ModuleKind::Cpu));
    assert_eq!(ModuleKind::parse("\u{212a}ernel"), Ok(ModuleKind::Kernel));
}

#[test]
fn unknown_category_carries_its_text() {
    assert_eq!(ModuleKind::parse("gpu"), Err("Unknown module: gpu".to_string()));
    assert_eq!(ModuleKind::parse("GPU"), Err("Unknown module: GPU".to_string()));
    assert_eq!(ModuleKind::parse(""), Err("Unknown module: ".to_string()));
    assert_eq!(ModuleKind::parse(" os"), Err("Unknown module:  os".to_string()));
    assert_eq!("cpus".parse::<ModuleKind>(), Err("Unknown module: cpus".to_string()));
}

#[test]
fn platforms() {
    assert_eq!(Platform::from_os_name("linux"), Platform::Linux);
    assert_eq!(Platform::from_os_name("macos"), Platform::MacOs);
    assert_eq!(Platform::from_os_name("windows"), Platform::Windows);
    assert_eq!(Platform::from_os_name("freebsd"), Platform::FreeBsd);
    assert_eq!(Platform::from_os_name("openbsd"), Platform::Unknown);
    assert_eq!(Platform::from_os_name("Linux"), Platform::Unknown);
    assert!(Platform::Linux.is_supported());
    assert!(Platform::MacOs.is_supported());
    assert!(Platform::Windows.is_supported());
    assert!(Platform::FreeBsd.is_supported());
    assert!(!Platform::Unknown.is_supported());
}
