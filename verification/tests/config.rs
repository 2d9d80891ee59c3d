use libfastfetch::config::{BuildOutcome, DEFAULT_ASCII_LOGO};
use libfastfetch::modules::ModuleKind;
use libfastfetch::{Config, ConfigBuilder, LogoConfig};

#[test]
fn builder_starts_from_the_defaults() {
    let BuildOutcome { config, unknown_modules } = Config::builder().build();
    assert_eq!(config.modules(), ModuleKind::all());
    assert!(config.parallel());
    assert!(!config.values_only());
    assert_eq!(
        config.logo(),
        Some(&LogoConfig { ascii_art: Some(DEFAULT_ASCII_LOGO.to_string()) })
    );
    assert!(unknown_modules.is_empty());
    let again = ConfigBuilder::default().build().config;
    assert_eq!(again.modules(), config.modules());
}

#[test]
fn default_logo_has_five_lines() {
    let lines: Vec<&str> = DEFAULT_ASCII_LOGO.lines().collect();
    assert_eq!(lines.len(), 5);
    assert_eq!(lines[0], "  ____          _   _     _    ");
    assert_eq!(lines[4], " |_| \\_\\__,_|___/\\__|_| |_|_|___/");
}

#[test]
fn builder_settings() {
    let config = Config::builder()
        .with_modules(vec![ModuleKind::Cpu, ModuleKind::Os])
        .parallel(false)
        .values_only(true)
        .with_logo_ascii("art".to_string())
        .build()
        .config;
    assert_eq!(config.modules(), &[ModuleKind::Cpu, ModuleKind::Os]);
    assert!(!config.parallel());
    assert!(config.values_only());
    assert_eq!(config.logo(), Some(&LogoConfig { ascii_art: Some("art".to_string()) }));
    let config = Config::builder().without_logo().build().config;
    assert_eq!(config.logo(), None);
    let config = Config::builder().with_modules(Vec::new()).build().config;
    assert!(config.modules().is_empty());
}

#[test]
fn module_names_are_parsed_in_order() {
    let names = vec!["memory", "gpu", "OS", "", "Cpu", "disk", "os"]
        .into_iter()
        .map(|s| s.to_string())
        .collect();
    let outcome = Config::builder().with_module_names(names).build();
    assert_eq!(
        outcome.config.modules(),
        &[ModuleKind::Memory, ModuleKind::Os, ModuleKind::Cpu, ModuleKind::Os]
    );
    assert_eq!(outcome.unknown_modules, vec!["gpu", "", "disk"]);
}

#[test]
fn unknown_names_add_up_over_calls() {
    let outcome = Config::builder()
        .with_module_names(vec!["a".to_string(), "host".to_string()])
        .with_module_names(vec!["b".to_string()])
        .build();
    assert!(outcome.config.modules().is_empty());
    assert_eq!(outcome.unknown_modules, vec!["a", "b"]);
    let outcome = Config::builder().with_module_names(Vec::new()).build();
    assert!(outcome.config.modules().is_empty());
    assert!(outcome.unknown_modules.is_empty());
}
