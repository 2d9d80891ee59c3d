use libfastfetch::context::{CommandOutput, MockSystemContext, UtsName};
use libfastfetch::modules::cpu::{detect_cpu, parse_cpuinfo, CpuInfo};
use libfastfetch::modules::host::{detect_host, HostInfo};
use libfastfetch::modules::kernel::{detect_kernel, KernelInfo};
use libfastfetch::modules::memory::{detect_memory, free_pages, parse_meminfo, MemoryInfo};
use libfastfetch::modules::os::{detect_os, parse_release, OsInfo};
use libfastfetch::modules::shell::{detect_shell, find_version, shell_name, ShellInfo};
use libfastfetch::modules::uptime::{boot_time, detect_uptime, whole_seconds, UptimeInfo};
use libfastfetch::modules::{create_module, Module, ModuleInfo, ModuleKind};
use libfastfetch::{BuildTarget, DetectionResult, Error, Platform};

const LINUX: BuildTarget = BuildTarget { os: Platform::Linux, unix: true, arch: "x86_64" };
const MACOS: BuildTarget = BuildTarget { os: Platform::MacOs, unix: true, arch: "aarch64" };
const FREEBSD: BuildTarget = BuildTarget { os: Platform::FreeBsd, unix: true, arch: "x86_64" };
const WINDOWS: BuildTarget = BuildTarget { os: Platform::Windows, unix: false, arch: "x86_64" };
const OTHER_UNIX: BuildTarget = BuildTarget { os: Platform::Unknown, unix: true, arch: "riscv64" };
const OTHER: BuildTarget = BuildTarget { os: Platform::Unknown, unix: false, arch: "wasm32" };

fn ran(stdout: &str) -> CommandOutput {
    CommandOutput { stdout: stdout.as_bytes().to_vec(), stderr: Vec::new(), success: true }
}

fn failed(stdout: &str) -> CommandOutput {
    CommandOutput { stdout: stdout.as_bytes().to_vec(), stderr: Vec::new(), success: false }
}

fn io(message: &str) -> Error {
    Error::Io(message.to_string())
}

#[test]
fn os_probe_with_release_fixture() {
    let mut ctx = MockSystemContext::default();
    ctx.files.insert(
        "/etc/os-release".to_string(),
        "PRETTY_NAME=\"Test Linux\"\nVERSION=\"1.0\"".to_string(),
    );
    assert_eq!(
        detect_os(&ctx, LINUX),
        DetectionResult::Detected(OsInfo {
            name: "Test Linux".to_string(),
            version: Some("1.0".to_string()),
            arch: "x86_64".to_string(),
        })
    );
}

#[test]
fn os_probe_falls_back_to_second_path() {
    let mut ctx = MockSystemContext::default();
    ctx.files.insert("/usr/lib/os-release".to_string(), "PRETTY_NAME=Fallback\n".to_string());
    assert_eq!(
        detect_os(&ctx, LINUX),
        DetectionResult::Detected(OsInfo {
            name: "Fallback".to_string(),
            version: None,
            arch: "x86_64".to_string(),
        })
    );
    ctx.files.insert("/etc/os-release".to_string(), "VERSION=2\n".to_string());
    assert_eq!(
        detect_os(&ctx, LINUX),
        DetectionResult::Detected(OsInfo {
            name: "Linux".to_string(),
            version: Some("2".to_string()),
            arch: "x86_64".to_string(),
        })
    );
}

#[test]
fn os_probe_without_release_file_is_an_error() {
    let ctx = MockSystemContext::default();
    assert_eq!(detect_os(&ctx, LINUX), DetectionResult::Error(io("File not found")));
}

#[test]
fn release_descriptor_tolerates_malformed_lines() {
    let info = parse_release("garbage\n=\nVERSION_ID=9\nNAME=x\n# PRETTY_NAME=no\n", "arm");
    assert_eq!(info, OsInfo { name: "Linux".to_string(), version: None, arch: "arm".to_string() });
    let info = parse_release("", "arm");
    assert_eq!(info, OsInfo { name: "Linux".to_string(), version: None, arch: "arm".to_string() });
}

#[test]
fn release_descriptor_takes_last_name_and_first_version() {
    let info = parse_release(
        "PRETTY_NAME=\"One\"\nVERSION=\"1\"\r\nPRETTY_NAME=Two\nVERSION=2\n",
        "x86_64",
    );
    assert_eq!(
        info,
        OsInfo {
            name: "Two".to_string(),
            version: Some("1".to_string()),
            arch: "x86_64".to_string()
        }
    );
    assert_eq!(info.to_string(), "Two 1 x86_64");
    assert_eq!(parse_release("", "x86_64").to_string(), "Linux x86_64");
}

#[test]
fn os_probe_on_other_platforms() {
    let mut ctx = MockSystemContext::default();
    assert_eq!(detect_os(&ctx, MACOS), DetectionResult::Error(io("Command not found")));
    assert_eq!(detect_os(&ctx, FREEBSD), DetectionResult::Error(io("Command not found")));
    ctx.commands.insert("sw_vers".to_string(), ran("14.2.1\n"));
    ctx.commands.insert("uname".to_string(), failed("13.2-RELEASE\n"));
    assert_eq!(
        detect_os(&ctx, MACOS),
        DetectionResult::Detected(OsInfo {
            name: "macOS".to_string(),
            version: Some("14.2.1".to_string()),
            arch: "aarch64".to_string(),
        })
    );
    assert_eq!(
        detect_os(&ctx, FREEBSD),
        DetectionResult::Detected(OsInfo {
            name: "FreeBSD".to_string(),
            version: None,
            arch: "x86_64".to_string(),
        })
    );
    assert_eq!(
        detect_os(&ctx, WINDOWS),
        DetectionResult::Detected(OsInfo {
            name: "Windows".to_string(),
            version: None,
            arch: "x86_64".to_string(),
        })
    );
    assert_eq!(detect_os(&ctx, OTHER), DetectionResult::Error(Error::UnsupportedPlatform));
    assert_eq!(detect_os(&ctx, OTHER_UNIX), DetectionResult::Error(Error::UnsupportedPlatform));
}

#[test]
fn host_probe_without_hostname_is_unavailable() {
    let ctx = MockSystemContext::default();
    assert_eq!(detect_host(&ctx, LINUX), DetectionResult::Unavailable);
    assert_eq!(detect_host(&ctx, OTHER_UNIX), DetectionResult::Unavailable);
}

#[test]
fn host_probe_with_hostname() {
    let mut ctx = MockSystemContext::default();
    ctx.hostname = Some("workstation".to_string());
    let out = detect_host(&ctx, LINUX);
    assert_eq!(out, DetectionResult::Detected(HostInfo { hostname: "workstation".to_string() }));
    assert_eq!(out.ok().unwrap().to_string(), "workstation");
    assert_eq!(detect_host(&ctx, OTHER), DetectionResult::Error(Error::UnsupportedPlatform));
}

#[test]
fn host_probe_on_windows_reads_variables_in_order() {
    let mut ctx = MockSystemContext::default();
    assert_eq!(
        detect_host(&ctx, WINDOWS),
        DetectionResult::Detected(HostInfo { hostname: "Unknown".to_string() })
    );
    ctx.env_vars.insert("HOSTNAME".to_string(), "second".to_string());
    assert_eq!(
        detect_host(&ctx, WINDOWS),
        DetectionResult::Detected(HostInfo { hostname: "second".to_string() })
    );
    ctx.env_vars.insert("COMPUTERNAME".to_string(), "first".to_string());
    assert_eq!(
        detect_host(&ctx, WINDOWS),
        DetectionResult::Detected(HostInfo { hostname: "first".to_string() })
    );
}

#[test]
fn kernel_probe() {
    let mut ctx = MockSystemContext::default();
    assert_eq!(detect_kernel(&ctx, LINUX), DetectionResult::Unavailable);
    ctx.uname_result = Some(UtsName {
        sysname: "Linux".to_string(),
        nodename: "box".to_string(),
        release: "6.1.0-13-amd64".to_string(),
        version: "#1 SMP".to_string(),
        machine: "x86_64".to_string(),
    });
    let out = detect_kernel(&ctx, LINUX);
    assert_eq!(
        out,
        DetectionResult::Detected(KernelInfo {
            name: "Linux".to_string(),
            version: "6.1.0-13-amd64".to_string(),
        })
    );
    assert_eq!(out.ok().unwrap().to_string(), "Linux 6.1.0-13-amd64");
    assert_eq!(
        detect_kernel(&ctx, WINDOWS),
        DetectionResult::Detected(KernelInfo {
            name: "Windows NT".to_string(),
            version: "Unknown".to_string(),
        })
    );
    assert_eq!(detect_kernel(&ctx, OTHER), DetectionResult::Error(Error::UnsupportedPlatform));
}

#[test]
fn cpu_table() {
    let table = "processor\t: 0\nmodel name\t: Intel(R) Core(TM) i7\ncpu MHz\t: 800.0\ncpu cores\t: 4\nmodel name\t: Ignored\n";
    assert_eq!(
        parse_cpuinfo(table),
        CpuInfo { model: "Intel(R) Core(TM) i7".to_string(), cores: Some(4) }
    );
    assert_eq!(parse_cpuinfo(table).to_string(), "Intel(R) Core(TM) i7 (4)");
    assert_eq!(parse_cpuinfo(""), CpuInfo { model: "Unknown CPU".to_string(), cores: None });
    assert_eq!(parse_cpuinfo("").to_string(), "Unknown CPU");
    assert_eq!(
        parse_cpuinfo("model name : A\nmodel name : B\ncpu cores : many\n"),
        CpuInfo { model: "B".to_string(), cores: None }
    );
    assert_eq!(
        parse_cpuinfo("model name\ncpu cores: 2: 3\n"),
        CpuInfo { model: "Unknown CPU".to_string(), cores: Some(2) }
    );
    assert_eq!(
        parse_cpuinfo("model name : a:b\n"),
        CpuInfo { model: "a".to_string(), cores: None }
    );
}

#[test]
fn cpu_probe() {
    let mut ctx = MockSystemContext::default();
    assert_eq!(detect_cpu(&ctx, LINUX), DetectionResult::Error(io("File not found")));
    assert_eq!(detect_cpu(&ctx, MACOS), DetectionResult::Error(io("Command not found")));
    assert_eq!(detect_cpu(&ctx, OTHER), DetectionResult::Error(Error::UnsupportedPlatform));
    ctx.files.insert("/proc/cpuinfo".to_string(), "model name : Z80\n".to_string());
    assert_eq!(
        detect_cpu(&ctx, LINUX),
        DetectionResult::Detected(CpuInfo { model: "Z80".to_string(), cores: None })
    );
    ctx.commands.insert("sysctl".to_string(), ran(" 8 \n"));
    assert_eq!(
        detect_cpu(&ctx, MACOS),
        DetectionResult::Detected(CpuInfo { model: "8".to_string(), cores: Some(8) })
    );
    ctx.commands.insert("sysctl".to_string(), failed("8"));
    assert_eq!(
        detect_cpu(&ctx, FREEBSD),
        DetectionResult::Detected(CpuInfo { model: "Unknown CPU".to_string(), cores: None })
    );
    assert_eq!(
        detect_cpu(&ctx, WINDOWS),
        DetectionResult::Detected(CpuInfo { model: "Unknown CPU".to_string(), cores: None })
    );
    ctx.env_vars.insert("PROCESSOR_IDENTIFIER".to_string(), "Intel64 Family 6".to_string());
    ctx.env_vars.insert("NUMBER_OF_PROCESSORS".to_string(), "16".to_string());
    assert_eq!(
        detect_cpu(&ctx, WINDOWS),
        DetectionResult::Detected(CpuInfo { model: "Intel64 Family 6".to_string(), cores: Some(16) })
    );
}

#[test]
fn memory_table() {
    assert_eq!(
        parse_meminfo("MemTotal:       16384 kB\nMemFree:  1 kB\nMemAvailable:    4096 kB\n"),
        DetectionResult::Detected(MemoryInfo { total: 16777216, used: 12582912 })
    );
    assert_eq!(
        parse_meminfo("MemTotal: 1024 kB\n"),
        DetectionResult::Detected(MemoryInfo { total: 1048576, used: 1048576 })
    );
    assert_eq!(parse_meminfo("MemAvailable: 1024 kB\n"), DetectionResult::Unavailable);
    assert_eq!(parse_meminfo("MemTotal: lots\n"), DetectionResult::Unavailable);
    assert_eq!(parse_meminfo("MemTotal: 0 kB\n"), DetectionResult::Unavailable);
    assert_eq!(parse_meminfo(""), DetectionResult::Unavailable);
}

#[test]
fn memory_used_saturates_at_zero() {
    assert_eq!(
        parse_meminfo("MemTotal: 100 kB\nMemAvailable: 200 kB\n"),
        DetectionResult::Detected(MemoryInfo { total: 102400, used: 0 })
    );
    assert_eq!(MemoryInfo::from_available(10, 20), MemoryInfo { total: 10, used: 0 });
    assert_eq!(MemoryInfo::from_available(10, 10), MemoryInfo { total: 10, used: 0 });
    assert_eq!(MemoryInfo::from_available(0, 0), MemoryInfo { total: 0, used: 0 });
}

#[test]
fn memory_used_and_available_add_up() {
    for (total, available) in [(100u64, 30u64), (u64::MAX, 1), (5, 0), (7, 7)] {
        let info = MemoryInfo::from_available(total, available);
        assert_eq!(info.total, total);
        assert_eq!(info.used + available, total);
        assert_eq!(info.available(), available);
    }
    assert_eq!(MemoryInfo { total: 5, used: 9 }.available(), 0);
}

#[test]
fn memory_table_stops_once_both_are_known() {
    assert_eq!(
        parse_meminfo("MemTotal: 4 kB\nMemAvailable: 1 kB\nMemTotal: 8 kB\n"),
        DetectionResult::Detected(MemoryInfo { total: 4096, used: 3072 })
    );
    assert_eq!(
        parse_meminfo("MemTotal: 4 kB\nMemTotal: 8 kB\nMemAvailable: 1 kB\n"),
        DetectionResult::Detected(MemoryInfo { total: 8192, used: 7168 })
    );
}

#[test]
fn memory_table_saturates_large_numbers() {
    assert_eq!(
        parse_meminfo("MemTotal: 18446744073709551615 kB\n"),
        DetectionResult::Detected(MemoryInfo { total: u64::MAX, used: u64::MAX })
    );
}

#[test]
fn memory_formatting() {
    assert_eq!(MemoryInfo::format_bytes(0), "0.00 B");
    assert_eq!(MemoryInfo::format_bytes(1023), "1023.00 B");
    assert_eq!(MemoryInfo::format_bytes(1024), "1.00 KiB");
    assert_eq!(MemoryInfo::format_bytes(1536), "1.50 KiB");
    assert_eq!(MemoryInfo::format_bytes(1152), "1.12 KiB");
    assert_eq!(MemoryInfo::format_bytes(1048575), "1024.00 KiB");
    assert_eq!(MemoryInfo::format_bytes(1048576), "1.00 MiB");
    assert_eq!(MemoryInfo::format_bytes(16322875392), "15.20 GiB");
    assert_eq!(MemoryInfo::format_bytes(1099511627776), "1.00 TiB");
    assert_eq!(MemoryInfo::format_bytes(u64::MAX), "16777216.00 TiB");
    assert_eq!(
        MemoryInfo { total: 17179869184, used: 8589934592 }.to_string(),
        "8.00 GiB / 16.00 GiB"
    );
}

#[test]
fn memory_formatting_agrees_with_floating_point() {
    for bytes in [0u64, 1, 999, 1024, 1152, 1153, 123456789, 8589934592, 16322875392, 1u64 << 52] {
        let units = ["B", "KiB", "MiB", "GiB", "TiB"];
        let mut size = bytes as f64;
        let mut unit = 0;
        while size >= 1024.0 && unit < units.len() - 1 {
            size /= 1024.0;
            unit += 1;
        }
        assert_eq!(MemoryInfo::format_bytes(bytes), format!("{size:.2} {}", units[unit]));
    }
}

#[test]
fn memory_probe() {
    let mut ctx = MockSystemContext::default();
    assert_eq!(detect_memory(&ctx, LINUX), DetectionResult::Error(io("File not found")));
    assert_eq!(detect_memory(&ctx, MACOS), DetectionResult::Error(io("Command not found")));
    assert_eq!(detect_memory(&ctx, WINDOWS), DetectionResult::Error(Error::UnsupportedPlatform));
    assert_eq!(detect_memory(&ctx, OTHER), DetectionResult::Error(Error::UnsupportedPlatform));
    ctx.files.insert("/proc/meminfo".to_string(), "MemTotal: 2 kB\nMemAvailable: 1 kB".to_string());
    assert_eq!(
        detect_memory(&ctx, LINUX),
        DetectionResult::Detected(MemoryInfo { total: 2048, used: 1024 })
    );
    ctx.commands.insert("sysctl".to_string(), ran("17179869184\n"));
    assert_eq!(detect_memory(&ctx, MACOS), DetectionResult::Error(io("Command not found")));
    assert_eq!(
        detect_memory(&ctx, FREEBSD),
        DetectionResult::Detected(MemoryInfo { total: 17179869184, used: 0 })
    );
    ctx.commands.insert(
        "vm_stat".to_string(),
        ran("Mach Virtual Memory Statistics: (page size of 4096 bytes)\nPages free:                             1048576.\nPages active: 5.\n"),
    );
    assert_eq!(
        detect_memory(&ctx, MACOS),
        DetectionResult::Detected(MemoryInfo { total: 17179869184, used: 12884901888 })
    );
    ctx.commands.insert("sysctl".to_string(), ran("none"));
    assert_eq!(detect_memory(&ctx, MACOS), DetectionResult::Unavailable);
    assert_eq!(detect_memory(&ctx, FREEBSD), DetectionResult::Unavailable);
}

#[test]
fn free_pages_of_statistics() {
    assert_eq!(free_pages("Pages free: 12.\n"), 12);
    assert_eq!(free_pages("Pages free: x\nPages free: 7\n"), 7);
    assert_eq!(free_pages("Pages active: 3.\n"), 0);
    assert_eq!(free_pages(""), 0);
}

#[test]
fn shell_names_and_versions() {
    assert_eq!(shell_name("/usr/bin/zsh"), "zsh");
    assert_eq!(shell_name("/"), "sh");
    assert_eq!(shell_name(""), "sh");
    assert_eq!(find_version("fish, version 3.6.0\nmore\n"), Some("3.6.0".to_string()));
    assert_eq!(find_version("zsh 5.9 (x86_64-debian-linux-gnu)\n"), None);
    assert_eq!(find_version("tcsh 6.24.10\n"), Some("6.24.10".to_string()));
    assert_eq!(find_version(""), None);
    assert_eq!(find_version("\n1.0\n"), None);
    assert_eq!(find_version("   \n"), None);
}

#[test]
fn shell_probe() {
    let mut ctx = MockSystemContext::default();
    assert_eq!(detect_shell(&ctx, LINUX), DetectionResult::Unavailable);
    assert_eq!(detect_shell(&ctx, OTHER), DetectionResult::Error(Error::UnsupportedPlatform));
    ctx.env_vars.insert("SHELL".to_string(), "/usr/bin/fish".to_string());
    assert_eq!(
        detect_shell(&ctx, LINUX),
        DetectionResult::Detected(ShellInfo { name: "fish".to_string(), version: None })
    );
    ctx.commands.insert("fish".to_string(), ran("fish, version 3.6.0\n"));
    let out = detect_shell(&ctx, LINUX);
    assert_eq!(
        out,
        DetectionResult::Detected(ShellInfo {
            name: "fish".to_string(),
            version: Some("3.6.0".to_string()),
        })
    );
    assert_eq!(out.ok().unwrap().to_string(), "fish 3.6.0");
    ctx.commands.insert("fish".to_string(), failed("fish, version 3.6.0\n"));
    assert_eq!(
        detect_shell(&ctx, LINUX),
        DetectionResult::Detected(ShellInfo { name: "fish".to_string(), version: None })
    );
    ctx.env_vars.insert("SHELL".to_string(), "/bin/dash".to_string());
    ctx.commands.insert("dash".to_string(), ran("dash 1.0\n"));
    let out = detect_shell(&ctx, LINUX);
    assert_eq!(
        out,
        DetectionResult::Detected(ShellInfo { name: "dash".to_string(), version: None })
    );
    assert_eq!(out.ok().unwrap().to_string(), "dash");
}

#[test]
fn shell_probe_on_windows() {
    let mut ctx = MockSystemContext::default();
    assert_eq!(
        detect_shell(&ctx, WINDOWS),
        DetectionResult::Detected(ShellInfo { name: "cmd".to_string(), version: None })
    );
    ctx.env_vars.insert(
        "COMSPEC".to_string(),
        "C:\\Windows\\System32\\WindowsPowerShell\\powershell.exe".to_string(),
    );
    assert_eq!(
        detect_shell(&ctx, WINDOWS),
        DetectionResult::Detected(ShellInfo { name: "powershell".to_string(), version: None })
    );
}

#[test]
fn whole_seconds_of_tokens() {
    assert_eq!(whole_seconds(&"12345.67".chars().collect()), Some(12345));
    assert_eq!(whole_seconds(&"42".chars().collect()), Some(42));
    assert_eq!(whole_seconds(&"+42.".chars().collect()), Some(42));
    assert_eq!(whole_seconds(&".5".chars().collect()), Some(0));
    assert_eq!(whole_seconds(&"0.99".chars().collect()), Some(0));
    assert_eq!(whole_seconds(&"99999999999999999999999.5".chars().collect()), Some(u64::MAX));
    assert_eq!(whole_seconds(&".".chars().collect()), None);
    assert_eq!(whole_seconds(&"".chars().collect()), None);
    assert_eq!(whole_seconds(&"1.2.3".chars().collect()), None);
    assert_eq!(whole_seconds(&"abc".chars().collect()), None);
    assert_eq!(whole_seconds(&"-3".chars().collect()), None);
}

#[test]
fn boot_times() {
    assert_eq!(boot_time("{ sec = 1700000000, usec = 0 } Tue Nov 14"), Some(1700000000));
    assert_eq!(boot_time("sec = 5"), Some(5));
    assert_eq!(boot_time("sec =  7 sec = 9"), Some(7));
    assert_eq!(boot_time("{ usec = 12, }"), Some(12));
    assert_eq!(boot_time("{ usec = 12 }"), None);
    assert_eq!(boot_time("sec = x,"), None);
    assert_eq!(boot_time("nothing"), None);
    assert_eq!(boot_time(""), None);
}

#[test]
fn uptime_formatting() {
    assert_eq!(UptimeInfo { seconds: 0 }.to_string(), "0 minutes");
    assert_eq!(UptimeInfo { seconds: 59 }.to_string(), "0 minutes");
    assert_eq!(UptimeInfo { seconds: 60 }.to_string(), "1 minute");
    assert_eq!(UptimeInfo { seconds: 3600 }.to_string(), "1 hour");
    assert_eq!(UptimeInfo { seconds: 86400 }.to_string(), "1 day");
    assert_eq!(UptimeInfo { seconds: 90061 }.to_string(), "1 day, 1 hour, 1 minute");
    assert_eq!(UptimeInfo { seconds: 93784 }.format_uptime(), "1 day, 2 hours, 3 minutes");
    assert_eq!(UptimeInfo { seconds: 172800 + 120 }.to_string(), "2 days, 2 minutes");
    assert_eq!(UptimeInfo { seconds: 7200 }.to_string(), "2 hours");
}

#[test]
fn uptime_probe() {
    let mut ctx = MockSystemContext::default();
    assert_eq!(detect_uptime(&ctx, LINUX), DetectionResult::Error(io("File not found")));
    assert_eq!(detect_uptime(&ctx, MACOS), DetectionResult::Error(io("Command not found")));
    assert_eq!(detect_uptime(&ctx, WINDOWS), DetectionResult::Error(Error::UnsupportedPlatform));
    assert_eq!(detect_uptime(&ctx, OTHER), DetectionResult::Error(Error::UnsupportedPlatform));
    ctx.files.insert("/proc/uptime".to_string(), "12345.67 54321.00\n".to_string());
    assert_eq!(
        detect_uptime(&ctx, LINUX),
        DetectionResult::Detected(UptimeInfo { seconds: 12345 })
    );
    ctx.files.insert("/proc/uptime".to_string(), "soon\n".to_string());
    assert_eq!(detect_uptime(&ctx, LINUX), DetectionResult::Unavailable);
    ctx.files.insert("/proc/uptime".to_string(), "\n".to_string());
    assert_eq!(detect_uptime(&ctx, LINUX), DetectionResult::Unavailable);
}

#[test]
fn uptime_probe_reads_the_clock() {
    let mut ctx = MockSystemContext::default();
    ctx.commands.insert("sysctl".to_string(), ran("{ sec = 1000, usec = 0 }\n"));
    match detect_uptime(&ctx, MACOS) {
        DetectionResult::Detected(info) => assert!(info.seconds > 1_600_000_000),
        other => panic!("no uptime: {other:?}"),
    }
    ctx.commands.insert("sysctl".to_string(), ran("{ sec = 18446744073709551615, usec = 0 }\n"));
    assert_eq!(
        detect_uptime(&ctx, FREEBSD),
        DetectionResult::Detected(UptimeInfo { seconds: 0 })
    );
    ctx.commands.insert("sysctl".to_string(), failed("{ sec = 1000, usec = 0 }\n"));
    assert_eq!(detect_uptime(&ctx, MACOS), DetectionResult::Unavailable);
    ctx.commands.insert("sysctl".to_string(), ran("garbage"));
    assert_eq!(detect_uptime(&ctx, FREEBSD), DetectionResult::Unavailable);
}

#[test]
fn no_probe_detects_anything_without_fixtures() {
    let ctx = MockSystemContext::default();
    for target in [LINUX, MACOS, FREEBSD, OTHER_UNIX, OTHER] {
        for kind in ModuleKind::all() {
            let outcome = create_module(*kind, target).detect(&ctx);
            assert!(!outcome.is_detected());
            assert!(outcome.is_unavailable() != outcome.is_error());
        }
    }
}

#[test]
fn probes_report_their_category() {
    for kind in ModuleKind::all() {
        let probe = create_module(*kind, LINUX);
        assert_eq!(probe.kind(), *kind);
        assert_eq!(probe.name(), kind.name());
    }
}

#[test]
fn probe_wraps_what_it_detected_under_its_category() {
    let mut ctx = MockSystemContext::default();
    ctx.hostname = Some("box".to_string());
    assert_eq!(
        create_module(ModuleKind::Host, LINUX).detect(&ctx),
        DetectionResult::Detected(ModuleInfo::Host(HostInfo { hostname: "box".to_string() }))
    );
    assert_eq!(
        create_module(ModuleKind::Os, LINUX).detect(&ctx),
        DetectionResult::Error(io("File not found"))
    );
    assert_eq!(
        create_module(ModuleKind::Kernel, LINUX).detect(&ctx),
        DetectionResult::Unavailable
    );
}
