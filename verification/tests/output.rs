use libfastfetch::logo::database::{
    arch_linux, cachyos, debian, detect_distro, detect_logo, fedora, generic_linux, gentoo,
    manjaro, opensuse, ubuntu, Distro,
};
use libfastfetch::logo::Logo;
use libfastfetch::modules::ModuleKind;
use libfastfetch::output::color::Color;
use libfastfetch::output::{join_lines, label_line, label_width, measure_visible};
use libfastfetch::{
    BuildTarget, LogoConfig, MockSystemContext, OutputFormatter, Platform, RenderedModule,
};

const LINUX: BuildTarget = BuildTarget { os: Platform::Linux, unix: true, arch: "x86_64" };
const MACOS: BuildTarget = BuildTarget { os: Platform::MacOs, unix: true, arch: "aarch64" };

fn sample() -> Vec<RenderedModule> {
    vec![
        RenderedModule::value(ModuleKind::Os, "Linux".to_string()),
        RenderedModule::unavailable(ModuleKind::Host),
        RenderedModule::error(ModuleKind::Cpu, "I/O error: x".to_string()),
    ]
}

#[test]
fn rendered_modules_hold_one_of_value_and_error() {
    let m = RenderedModule::value(ModuleKind::Os, "v".to_string());
    assert_eq!((m.kind, m.value, m.error), (ModuleKind::Os, Some("v".to_string()), None));
    let m = RenderedModule::unavailable(ModuleKind::Cpu);
    assert_eq!((m.kind, m.value, m.error), (ModuleKind::Cpu, None, None));
    let m = RenderedModule::error(ModuleKind::Host, "e".to_string());
    assert_eq!((m.kind, m.value, m.error), (ModuleKind::Host, None, Some("e".to_string())));
}

#[test]
fn labels_are_padded_to_the_longest() {
    let formatter = OutputFormatter::new(false, None);
    assert_eq!(
        formatter.render(&sample()),
        "fastfetch-rs\n\nOS  : Linux\nHost: Not available\nCPU : Error - I/O error: x"
    );
    assert_eq!(label_width(&sample()), 4);
    assert_eq!(label_width(&[]), 0);
    assert_eq!(label_line(ModuleKind::Cpu, 6, "x"), "CPU   : x");
    assert_eq!(label_line(ModuleKind::Memory, 2, "x"), "Memory: x");
}

#[test]
fn values_only_shows_values_alone() {
    let formatter = OutputFormatter::new(true, None);
    assert_eq!(formatter.render(&sample()), "Linux");
    assert_eq!(formatter.render(&[]), "");
    assert_eq!(formatter.content(&sample()), vec!["Linux"]);
}

#[test]
fn nothing_to_show_leaves_the_heading() {
    let formatter = OutputFormatter::new(false, None);
    assert_eq!(formatter.render(&[]), "fastfetch-rs\n");
    assert_eq!(formatter.content(&[]), vec!["fastfetch-rs", ""]);
}

#[test]
fn lines_are_joined_by_line_feeds() {
    assert_eq!(join_lines(&Vec::new()), "");
    assert_eq!(join_lines(&vec!["a".to_string()]), "a");
    assert_eq!(join_lines(&vec!["a".to_string(), "".to_string(), "b".to_string()]), "a\n\nb");
}

#[test]
fn visible_width_leaves_out_escape_sequences() {
    assert_eq!(measure_visible(""), 0);
    assert_eq!(measure_visible("abc"), 3);
    assert_eq!(measure_visible("\x1b[91mabc\x1b[0m"), 3);
    assert_eq!(measure_visible("time 12"), 4);
    assert_eq!(measure_visible("██"), 6);
    assert_eq!(measure_visible("é€😀"), 9);
}

#[test]
fn results_stand_beside_the_logo() {
    let logo = Logo::from_art("ab\nc").unwrap();
    assert_eq!(logo.width(), 2);
    assert_eq!(logo.lines(), vec!["ab", "c"]);
    let formatter = OutputFormatter::new(false, Some(logo));
    assert_eq!(
        formatter.render(&sample()),
        "ab  fastfetch-rs\nc   \n    OS  : Linux\n    Host: Not available\n    CPU : Error - I/O error: x"
    );
}

#[test]
fn logo_longer_than_the_results() {
    let logo = Logo::from_art("one\ntwo\nthree").unwrap();
    let formatter = OutputFormatter::new(true, Some(logo.clone()));
    assert_eq!(formatter.render(&sample()), "one    Linux\ntwo    \nthree  ");
    assert_eq!(
        formatter.merge_with_logo(vec!["x".to_string()], &logo),
        "one    x\ntwo    \nthree  "
    );
}

#[test]
fn colored_logo_is_padded_by_what_is_visible() {
    let logo = Logo::from_definition(&["#o#", "#"], Some(Color::White));
    assert_eq!(logo.width(), 3);
    assert_eq!(logo.lines(), vec!["\x1b[37m#o#\x1b[0m", "\x1b[37m#\x1b[0m"]);
    let formatter = OutputFormatter::new(true, Some(logo));
    assert_eq!(
        formatter.render(&[RenderedModule::value(ModuleKind::Os, "v".to_string())]),
        "\x1b[37m#o#\x1b[0m  v\n\x1b[37m#\x1b[0m    "
    );
}

#[test]
fn logo_of_text() {
    assert!(Logo::from_art("").is_none());
    let logo = Logo::from_art("\n").unwrap();
    assert_eq!((logo.width(), logo.lines()), (0, vec!["".to_string()]));
    let logo = Logo::from_art("é€\r\nabc\n").unwrap();
    assert_eq!((logo.width(), logo.lines()), (3, vec!["é€".to_string(), "abc".to_string()]));
}

#[test]
fn logo_from_configuration() {
    let ctx = MockSystemContext::default();
    let config = LogoConfig { ascii_art: Some("x\nyy".to_string()) };
    let logo = Logo::from_config(&config, &ctx, LINUX).unwrap();
    assert_eq!((logo.width(), logo.lines()), (2, vec!["x".to_string(), "yy".to_string()]));
    let config = LogoConfig { ascii_art: Some(String::new()) };
    assert!(Logo::from_config(&config, &ctx, LINUX).is_none());
    let config = LogoConfig::default();
    let logo = Logo::from_config(&config, &ctx, LINUX).unwrap();
    assert_eq!(logo.width(), 21);
    assert_eq!(logo.lines().len(), 12);
    assert_eq!(logo.lines()[0], "\x1b[37m        #####        \x1b[0m");
}

#[test]
fn logos_of_the_distributions() {
    let logos = [
        (arch_linux(), 19, 39, Color::BrightCyan),
        (cachyos(), 19, 39, Color::BrightCyan),
        (ubuntu(), 12, 40, Color::BrightRed),
        (debian(), 17, 30, Color::BrightRed),
        (fedora(), 13, 38, Color::BrightBlue),
        (manjaro(), 14, 28, Color::BrightGreen),
        (gentoo(), 11, 31, Color::Magenta),
        (opensuse(), 18, 38, Color::BrightGreen),
        (generic_linux(), 12, 21, Color::White),
    ];
    for (logo, height, width, color) in logos {
        assert_eq!(logo.lines.len(), height);
        assert_eq!(logo.lines.iter().map(|l| l.chars().count()).max(), Some(width));
        assert_eq!(logo.color, Some(color));
        assert_eq!(Logo::from_definition(logo.lines, logo.color).width(), width);
    }
    assert_eq!(arch_linux().lines[0], "                   -`                  ");
    assert_eq!(generic_linux().lines[2], "       ##O#O##       ");
    assert_eq!(cachyos().lines, arch_linux().lines);
}

#[test]
fn distribution_of_a_release_descriptor() {
    assert_eq!(Distro::from_release("NAME=x\nID=ubuntu\nID=debian\n"), Distro::Ubuntu);
    assert_eq!(Distro::from_release("ID=\"Arch\"\n"), Distro::Arch);
    assert_eq!(Distro::from_release("ID=archlinux"), Distro::Arch);
    assert_eq!(Distro::from_release("ID=cachyos"), Distro::CachyOs);
    assert_eq!(Distro::from_release("ID=manjaro"), Distro::Manjaro);
    assert_eq!(Distro::from_release("ID=debian"), Distro::Debian);
    assert_eq!(Distro::from_release("ID=FEDORA"), Distro::Fedora);
    assert_eq!(Distro::from_release("ID=gentoo"), Distro::Gentoo);
    assert_eq!(Distro::from_release("ID=opensuse"), Distro::OpenSuse);
    assert_eq!(Distro::from_release("ID=opensuse-leap"), Distro::OpenSuse);
    assert_eq!(Distro::from_release("ID=\"opensuse-tumbleweed\""), Distro::OpenSuse);
    assert_eq!(Distro::from_release("ID=nixos"), Distro::Generic);
    assert_eq!(Distro::from_release("ID_LIKE=debian"), Distro::Generic);
    assert_eq!(Distro::from_release(""), Distro::Generic);
    assert_eq!(Distro::Fedora.logo().lines, fedora().lines);
}

#[test]
fn distribution_is_found_through_the_context() {
    let mut ctx = MockSystemContext::default();
    assert_eq!(detect_distro(&ctx, LINUX), Distro::Generic);
    ctx.files.insert("/usr/lib/os-release".to_string(), "ID=gentoo\n".to_string());
    assert_eq!(detect_distro(&ctx, LINUX), Distro::Gentoo);
    assert_eq!(detect_logo(&ctx, LINUX).color, Some(Color::Magenta));
    ctx.files.insert("/etc/os-release".to_string(), "ID=debian\n".to_string());
    assert_eq!(detect_distro(&ctx, LINUX), Distro::Debian);
    assert_eq!(detect_logo(&ctx, LINUX).lines, debian().lines);
    assert_eq!(detect_distro(&ctx, MACOS), Distro::Generic);
    assert_eq!(detect_logo(&ctx, MACOS).lines, generic_linux().lines);
}
