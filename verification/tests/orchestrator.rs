use libfastfetch::application::{
    detect_in_sequence, display_results, execute_modules, render_outcome, Stream,
};
use libfastfetch::config::DEFAULT_ASCII_LOGO;
use libfastfetch::context::{MockSystemContext, UtsName};
use libfastfetch::modules::host::HostInfo;
use libfastfetch::modules::{ModuleInfo, ModuleKind};
use libfastfetch::{
    Application, BuildTarget, Config, DetectionResult, Error, Platform, RenderedModule,
};

const LINUX: BuildTarget = BuildTarget { os: Platform::Linux, unix: true, arch: "x86_64" };

fn fixtures() -> MockSystemContext {
    let mut ctx = MockSystemContext::default();
    ctx.files.insert(
        "/etc/os-release".to_string(),
        "PRETTY_NAME=\"Test Linux\"\nVERSION=\"1.0\"".to_string(),
    );
    ctx.files.insert(
        "/proc/cpuinfo".to_string(),
        "model name\t: Test CPU\ncpu cores\t: 2\n".to_string(),
    );
    ctx.files.insert(
        "/proc/meminfo".to_string(),
        "MemTotal: 2097152 kB\nMemAvailable: 1048576 kB\n".to_string(),
    );
    ctx.hostname = Some("box".to_string());
    ctx.uname_result = Some(UtsName {
        sysname: "Linux".to_string(),
        nodename: "box".to_string(),
        release: "6.1.0".to_string(),
        version: "#1".to_string(),
        machine: "x86_64".to_string(),
    });
    ctx
}

#[test]
fn five_categories_sequential_and_parallel_agree() {
    let ctx = fixtures();
    let kinds = vec![
        ModuleKind::Os,
        ModuleKind::Host,
        ModuleKind::Kernel,
        ModuleKind::Cpu,
        ModuleKind::Memory,
    ];
    let sequential = execute_modules(&kinds, true, &ctx, LINUX);
    let parallel = execute_modules(&kinds, false, &ctx, LINUX);
    assert_eq!(sequential, parallel);
    assert_eq!(sequential.len(), 5);
    assert!(sequential.iter().all(|(_, outcome)| outcome.is_detected()));
    assert_eq!(format!("{sequential:?}"), format!("{parallel:?}"));
}

#[test]
fn results_keep_the_order_of_the_request() {
    let ctx = fixtures();
    let orders = vec![
        vec![ModuleKind::Memory],
        vec![ModuleKind::Memory, ModuleKind::Os, ModuleKind::Shell, ModuleKind::Host],
        ModuleKind::all().to_vec(),
        ModuleKind::all().iter().rev().copied().collect(),
        vec![ModuleKind::Cpu, ModuleKind::Cpu, ModuleKind::Os, ModuleKind::Cpu],
        Vec::new(),
    ];
    for kinds in orders {
        for sequential in [true, false] {
            let results = execute_modules(&kinds, sequential, &ctx, LINUX);
            let got: Vec<ModuleKind> = results.iter().map(|(kind, _)| *kind).collect();
            assert_eq!(got, kinds);
        }
    }
}

#[test]
fn parallel_run_gives_each_category_its_own_outcome() {
    let ctx = fixtures();
    let kinds = vec![ModuleKind::Shell, ModuleKind::Host, ModuleKind::Uptime];
    let results = execute_modules(&kinds, false, &ctx, LINUX);
    assert_eq!(
        results,
        vec![
            (ModuleKind::Shell, DetectionResult::Unavailable),
            (
                ModuleKind::Host,
                DetectionResult::Detected(ModuleInfo::Host(HostInfo { hostname: "box".to_string() }))
            ),
            (ModuleKind::Uptime, DetectionResult::Error(Error::Io("File not found".to_string()))),
        ]
    );
    assert_eq!(detect_in_sequence(&kinds, &ctx, LINUX), results);
}

#[test]
fn a_failing_probe_does_not_stop_the_others() {
    let mut ctx = MockSystemContext::default();
    ctx.hostname = Some("box".to_string());
    let kinds = vec![ModuleKind::Os, ModuleKind::Host, ModuleKind::Cpu];
    for sequential in [true, false] {
        let results = execute_modules(&kinds, sequential, &ctx, LINUX);
        assert!(results[0].1.is_error());
        assert!(results[1].1.is_detected());
        assert!(results[2].1.is_error());
    }
}

#[test]
fn outcomes_are_shown_by_arm() {
    let detected = DetectionResult::Detected(ModuleInfo::Host(HostInfo { hostname: "box".to_string() }));
    assert_eq!(
        render_outcome(ModuleKind::Host, &detected),
        RenderedModule::value(ModuleKind::Host, "box".to_string())
    );
    assert_eq!(
        render_outcome(ModuleKind::Cpu, &DetectionResult::Unavailable),
        RenderedModule::unavailable(ModuleKind::Cpu)
    );
    assert_eq!(
        render_outcome(ModuleKind::Os, &DetectionResult::Error(Error::Io("gone".to_string()))),
        RenderedModule::error(ModuleKind::Os, "I/O error: gone".to_string())
    );
    assert_eq!(
        render_outcome(ModuleKind::Os, &DetectionResult::Error(Error::UnsupportedPlatform)),
        RenderedModule::error(ModuleKind::Os, "Platform not supported".to_string())
    );
}

#[test]
fn application_runs_what_the_configuration_asks_for() {
    let ctx = fixtures();
    let kinds = vec![ModuleKind::Memory, ModuleKind::Os, ModuleKind::Shell];
    for parallel in [true, false] {
        let config = Config::builder()
            .with_modules(kinds.clone())
            .parallel(parallel)
            .without_logo()
            .build()
            .config;
        let app = Application::new(config);
        let shown = app.run(&ctx, LINUX);
        assert_eq!(
            shown,
            vec![
                RenderedModule::value(ModuleKind::Memory, "1.00 GiB / 2.00 GiB".to_string()),
                RenderedModule::value(ModuleKind::Os, "Test Linux 1.0 x86_64".to_string()),
                RenderedModule::unavailable(ModuleKind::Shell),
            ]
        );
        assert_eq!(
            app.render(&shown, &ctx, LINUX),
            "fastfetch-rs\n\nMemory: 1.00 GiB / 2.00 GiB\nOS    : Test Linux 1.0 x86_64\nShell : Not available"
        );
    }
}

#[test]
fn application_detects_one_module() {
    let ctx = fixtures();
    assert_eq!(
        Application::detect_module(ModuleKind::Kernel, &ctx, LINUX),
        RenderedModule::value(ModuleKind::Kernel, "Linux 6.1.0".to_string())
    );
    assert_eq!(
        Application::detect_module(ModuleKind::Uptime, &ctx, LINUX),
        RenderedModule::error(ModuleKind::Uptime, "I/O error: File not found".to_string())
    );
}

#[test]
fn application_shows_the_default_logo() {
    let ctx = fixtures();
    let config = Config::builder().with_modules(vec![ModuleKind::Host]).values_only(true).build().config;
    let app = Application::new(config);
    let shown = app.run(&ctx, LINUX);
    let text = app.render(&shown, &ctx, LINUX);
    let logo: Vec<&str> = DEFAULT_ASCII_LOGO.lines().collect();
    let lines: Vec<&str> = text.lines().collect();
    assert_eq!(lines.len(), 5);
    assert_eq!(lines[0], format!("{:<33}  box", logo[0]));
    for i in 1..5 {
        assert_eq!(lines[i], format!("{:<33}  ", logo[i]));
    }
}

#[test]
fn results_are_displayed_with_names() {
    let ctx = fixtures();
    let kinds = vec![ModuleKind::Host, ModuleKind::Shell, ModuleKind::Uptime];
    let results = execute_modules(&kinds, true, &ctx, LINUX);
    assert_eq!(
        display_results(&results, false),
        vec![
            (Stream::Output, "Host: box".to_string()),
            (Stream::Output, "Shell: Not available".to_string()),
            (Stream::Error, "Uptime: Error - I/O error: File not found".to_string()),
        ]
    );
}

#[test]
fn results_are_displayed_as_values_only() {
    let ctx = fixtures();
    let kinds = vec![ModuleKind::Shell, ModuleKind::Host, ModuleKind::Uptime, ModuleKind::Cpu];
    let results = execute_modules(&kinds, false, &ctx, LINUX);
    assert_eq!(
        display_results(&results, true),
        vec![
            (Stream::Output, "box".to_string()),
            (Stream::Output, "Test CPU (2)".to_string()),
        ]
    );
    assert_eq!(display_results(&[], false), Vec::new());
}
