//! The logos of the distributions, and which of them a release descriptor
//! asks for.

use vstd::prelude::*;
use crate::context::{text_answer, SystemContext};
use crate::modules::os::{fallback_release_path, first_ok, primary_release_path, unquoted};
use crate::modules::{fold_case, fold_char, folded};
use crate::output::color::Color;
use crate::platform::{BuildTarget, Platform};
use crate::text::{to_chars, trim_class, CharClass};
use crate::tokens::{chars_eq, first_value, lines_of, split_lines, strip_prefix, views};

verus! {

/// A logo: its lines from top to bottom, and its colour if it has one.
#[derive(Debug, Clone, Copy)]
pub struct LogoDefinition {
    pub lines: &'static [&'static str],
    pub color: Option<Color>,
}

/// A distribution that has a logo of its own, or `Generic` for all others.
#[derive(Debug, Clone, Copy, PartialEq, Eq, Structural)]
pub enum Distro {
    Arch,
    CachyOs,
    Manjaro,
    Ubuntu,
    Debian,
    Fedora,
    Gentoo,
    OpenSuse,
    Generic,
}

/// The lines of the logo of Arch Linux.
pub const ARCH_LINUX_ART: [&'static str; 19] = [
    "                   -`                  ",
    "                  .o+`                 ",
    "                 `ooo/                 ",
    "                `+oooo:                ",
    "               `+oooooo:               ",
    "               -+oooooo+:              ",
    "             `/:-:++oooo+:             ",
    "            `/++++/+++++++:            ",
    "           `/++++++++++++++:           ",
    "          `/+++ooooooooooooo/`         ",
    "         ./ooosssso++osssssso+`        ",
    "        .oossssso-````/ossssss+`       ",
    "       -osssssso.      :ssssssso.      ",
    "      :osssssss/        osssso+++.     ",
    "     /ossssssss/        +ssssooo/-     ",
    "   `/ossssso+/:-        -:/+osssso+-   ",
    "  `+sso+:-`                 `.-/+oso:  ",
    " `++:.                           `-/+/ ",
    " .`                                 `/ ",
];

/// The logo of Arch Linux.
pub fn arch_linux() -> (logo: LogoDefinition)
    ensures
        logo.lines@ == ARCH_LINUX_ART@,
        logo.color == Some(Color::BrightCyan),
{
    LogoDefinition { lines: &ARCH_LINUX_ART, color: Some(Color::BrightCyan) }
}

/// The lines of the logo of Ubuntu.
pub const UBUNTU_ART: [&'static str; 12] = [
    "            .-/+oossssoo+/-.            ",
    "        `:+ssssssssssssssssss+:`        ",
    "      -+ssssssssssssssssssyyssss+-      ",
    "    .ossssssssssssssssso/.  .ossssso.   ",
    "   +sssssssssssssso:.         .+sssso+  ",
    "  +ssssssssso+:-`               :ysssss+",
    "  ossso+/:.`                     .ossso ",
    " `ossso-                          -ysss ",
    "  :oooo:          .`           `.oooo:  ",
    "   /ooooo/-..             `../ooooo/   ",
    "    -/ooooooooo++++++oooooooooo/-`     ",
    "      `-/+ooooooooooooooo+/:.`         ",
];

/// The logo of Ubuntu.
pub fn ubuntu() -> (logo: LogoDefinition)
    ensures
        logo.lines@ == UBUNTU_ART@,
        logo.color == Some(Color::BrightRed),
{
    LogoDefinition { lines: &UBUNTU_ART, color: Some(Color::BrightRed) }
}

/// The lines of the logo of Debian.
pub const DEBIAN_ART: [&'static str; 17] = [
    "       _,met$$$$$gg.          ",
    "    ,g$$$$$$$$$$$$$$$P.       ",
    "  ,g$$P\"     \"\"\"Y$$.\"  .      ",
    " ,$$P'              `$$$.     ",
    "',$$P       ,ggs.     `$$b:   ",
    "`d$$'     ,$P\"'   .    $$$    ",
    " $$P      d$'     ,    $$P    ",
    " $$:      $$.   -    ,d$$'    ",
    " $$;      Y$b._   _,d$P'      ",
    " Y$$.    `.`\"Y$$$$P\"'         ",
    " `$$b      \"-.__              ",
    "  `Y$$                        ",
    "   `Y$$.                      ",
    "     `$$b.                    ",
    "       `Y$$b.                 ",
    "          `\"Y$b._             ",
    "              `\"\"\"\"           ",
];

/// The logo of Debian.
pub fn debian() -> (logo: LogoDefinition)
    ensures
        logo.lines@ == DEBIAN_ART@,
        logo.color == Some(Color::BrightRed),
{
    LogoDefinition { lines: &DEBIAN_ART, color: Some(Color::BrightRed) }
}

/// The lines of the logo of Fedora.
pub const FEDORA_ART: [&'static str; 13] = [
    "             /',                      ",
    "            //  '                     ",
    "           //  /                      ",
    "          //  /                       ",
    "         //  /                        ",
    "        //  /                         ",
    "       //  /                          ",
    "      //  /                           ",
    "     //  /                            ",
    "    ',   '                            ",
    "      ',                              ",
    "        ',                            ",
    "          ',_,,,_,,                   ",
];

/// The logo of Fedora.
pub fn fedora() -> (logo: LogoDefinition)
    ensures
        logo.lines@ == FEDORA_ART@,
        logo.color == Some(Color::BrightBlue),
{
    LogoDefinition { lines: &FEDORA_ART, color: Some(Color::BrightBlue) }
}

/// The logo of CachyOS, which is that of Arch Linux.
pub fn cachyos() -> (logo: LogoDefinition)
    ensures
        logo.lines@ == ARCH_LINUX_ART@,
        logo.color == Some(Color::BrightCyan),
{
    arch_linux()
}

/// The lines of the logo of Manjaro.
pub const MANJARO_ART: [&'static str; 14] = [
    "██████████████████  ████████",
    "██████████████████  ████████",
    "██████████████████  ████████",
    "██████████████████  ████████",
    "████████            ████████",
    "████████  ████████  ████████",
    "████████  ████████  ████████",
    "████████  ████████  ████████",
    "████████  ████████  ████████",
    "████████  ████████  ████████",
    "████████  ████████  ████████",
    "████████  ████████  ████████",
    "████████  ████████  ████████",
    "████████  ████████  ████████",
];

/// The logo of Manjaro.
pub fn manjaro() -> (logo: LogoDefinition)
    ensures
        logo.lines@ == MANJARO_ART@,
        logo.color == Some(Color::BrightGreen),
{
    LogoDefinition { lines: &MANJARO_ART, color: Some(Color::BrightGreen) }
}

/// The lines of the logo of Gentoo.
pub const GENTOO_ART: [&'static str; 11] = [
    "         -/osy+:.              ",
    "        :ooooooo+/`            ",
    "       :oooooooooo+.           ",
    "      -+oooooooooooo.          ",
    "     .+ooooooooooooo/          ",
    "     :ooooooooooooo+-          ",
    "     /ooooooooooo+/-           ",
    "     /ooooooooo+/.             ",
    "     :ooooooo+/-               ",
    "      -+ooo+/.                 ",
    "       `:/-`                   ",
];

/// The logo of Gentoo.
pub fn gentoo() -> (logo: LogoDefinition)
    ensures
        logo.lines@ == GENTOO_ART@,
        logo.color == Some(Color::Magenta),
{
    LogoDefinition { lines: &GENTOO_ART, color: Some(Color::Magenta) }
}

/// The lines of the logo of openSUSE.
pub const OPENSUSE_ART: [&'static str; 18] = [
    "           .;ldkO0000Okdl;.           ",
    "       .;d00xl:^''''''^:ok00d;.       ",
    "     .d00l'                'o00d.     ",
    "   .d0Kd'  Okxol:;,.          :O0d.   ",
    "  .OKKKK0kOKKKKKKKKKKKOxo:,    lKO.  ",
    " ,0KKKKKKKKKKKKKKKK0d:,,,,;cxKKK0:  ",
    ".OKKKKKKKKKKKKKKKKk.        ,d0KK0. ",
    ":KKKKKKKKKKKKKKKK:            .OK:  ",
    "dKKKKKKKKKKKKKK0.              .c,  ",
    "dKKKKKKKKKKKKKK0.                   ",
    ":KKKKKKKKKKKKKKKK:            .OK:  ",
    ".OKKKKKKKKKKKKKKKKk.        ;d0KK0. ",
    " ,0KKKKKKKKKKKKKKKK0kc:,,;xKKKKK0:  ",
    "  .OKKKK0xdxkOOOO0KKKKKKKKKKK0.    ",
    "   .d0Ko.     ...''',;:clxKKd.     ",
    "     'l0Kk:.            .d0l.       ",
    "       .;lxOkdl:;,,;:ldO0d;.        ",
    "           .,cdk00000xc:.           ",
];

/// The logo of openSUSE.
pub fn opensuse() -> (logo: LogoDefinition)
    ensures
        logo.lines@ == OPENSUSE_ART@,
        logo.color == Some(Color::BrightGreen),
{
    LogoDefinition { lines: &OPENSUSE_ART, color: Some(Color::BrightGreen) }
}

/// The lines of the logo of any other distribution.
pub const GENERIC_LINUX_ART: [&'static str; 12] = [
    "        #####        ",
    "       #######       ",
    "       ##O#O##       ",
    "       #######       ",
    "     ###########     ",
    "    #############    ",
    "   ###############   ",
    "   ################  ",
    "  #################  ",
    "#####################",
    "#####################",
    "  #################  ",
];

/// The logo of any other distribution.
pub fn generic_linux() -> (logo: LogoDefinition)
    ensures
        logo.lines@ == GENERIC_LINUX_ART@,
        logo.color == Some(Color::White),
{
    LogoDefinition { lines: &GENERIC_LINUX_ART, color: Some(Color::White) }
}

impl Distro {
    /// The distribution that the identifier `id`, in lowercase, names.
    pub open spec fn of_id(id: Seq<char>) -> Distro {
        if id == "arch"@ || id == "archlinux"@ {
            Distro::Arch
        } else if id == "cachyos"@ {
            Distro::CachyOs
        } else if id == "manjaro"@ {
            Distro::Manjaro
        } else if id == "ubuntu"@ {
            Distro::Ubuntu
        } else if id == "debian"@ {
            Distro::Debian
        } else if id == "fedora"@ {
            Distro::Fedora
        } else if id == "gentoo"@ {
            Distro::Gentoo
        } else if id == "opensuse"@ || id == "opensuse-leap"@ || id == "opensuse-tumbleweed"@ {
            Distro::OpenSuse
        } else {
            Distro::Generic
        }
    }

    /// The distribution that a release descriptor names: that of the
    /// identifier on the first line that begins with `ID=`, without its
    /// double quotes and whatever its case; `Generic` without such a line.
    pub open spec fn of_release(content: Seq<char>) -> Distro {
        match first_value(lines_of(content), "ID="@) {
            Some(id) => Distro::of_id(folded(unquoted(id))),
            None => Distro::Generic,
        }
    }

    /// The distribution that a release descriptor names, as
    /// [`Distro::of_release`] has it.
    pub fn from_release(content: &str) -> (distro: Distro)
        ensures
            distro == Distro::of_release(content@),
    {
        let chars = to_chars(content);
        let lines = split_lines(&chars);
        let mut i: usize = 0;
        proof {
            assert(views(lines@).skip(0) == views(lines@));
        }
        while i < lines.len()
            invariant
                i <= lines.len(),
                views(lines@) == lines_of(content@),
                first_value(lines_of(content@), "ID="@) == first_value(
                    views(lines@).skip(i as int),
                    "ID="@,
                ),
            decreases lines.len() - i,
        {
            proof {
                let rest = views(lines@).skip(i as int);
                assert(rest[0] == lines@[i as int]@);
                assert(rest.drop_first() == views(lines@).skip(i + 1));
            }
            match strip_prefix(&lines[i], "ID=") {
                Some(value) => {
                    let bare = trim_class(&value, CharClass::Only('"'));
                    let mut id: Vec<char> = Vec::new();
                    let mut k: usize = 0;
                    while k < bare.len()
                        invariant
                            k <= bare.len(),
                            id@.len() == k,
                            forall|j: int| 0 <= j < k ==> id@[j] == fold_char(#[trigger] bare@[j]),
                        decreases bare.len() - k,
                    {
                        id.push(fold_case(bare[k]));
                        k += 1;
                    }
                    proof {
                        assert(id@ =~= folded(bare@));
                    }
                    return Distro::from_id(&id);
                },
                None => {},
            }
            i += 1;
        }
        proof {
            assert(views(lines@).skip(i as int).len() == 0);
        }
        Distro::Generic
    }

    /// The distribution that the identifier `id`, in lowercase, names.
    pub fn from_id(id: &Vec<char>) -> (distro: Distro)
        ensures
            distro == Distro::of_id(id@),
    {
        if chars_eq(id, "arch") || chars_eq(id, "archlinux") {
            Distro::Arch
        } else if chars_eq(id, "cachyos") {
            Distro::CachyOs
        } else if chars_eq(id, "manjaro") {
            Distro::Manjaro
        } else if chars_eq(id, "ubuntu") {
            Distro::Ubuntu
        } else if chars_eq(id, "debian") {
            Distro::Debian
        } else if chars_eq(id, "fedora") {
            Distro::Fedora
        } else if chars_eq(id, "gentoo") {
            Distro::Gentoo
        } else if chars_eq(id, "opensuse") || chars_eq(id, "opensuse-leap") || chars_eq(
            id,
            "opensuse-tumbleweed",
        ) {
            Distro::OpenSuse
        } else {
            Distro::Generic
        }
    }

    /// The lines of the distribution's logo.
    pub open spec fn art_of(self) -> Seq<&'static str> {
        match self {
            Distro::Arch => ARCH_LINUX_ART@,
            Distro::CachyOs => ARCH_LINUX_ART@,
            Distro::Manjaro => MANJARO_ART@,
            Distro::Ubuntu => UBUNTU_ART@,
            Distro::Debian => DEBIAN_ART@,
            Distro::Fedora => FEDORA_ART@,
            Distro::Gentoo => GENTOO_ART@,
            Distro::OpenSuse => OPENSUSE_ART@,
            Distro::Generic => GENERIC_LINUX_ART@,
        }
    }

    /// The colour of the distribution's logo.
    pub open spec fn color_of(self) -> Color {
        match self {
            Distro::Arch => Color::BrightCyan,
            Distro::CachyOs => Color::BrightCyan,
            Distro::Manjaro => Color::BrightGreen,
            Distro::Ubuntu => Color::BrightRed,
            Distro::Debian => Color::BrightRed,
            Distro::Fedora => Color::BrightBlue,
            Distro::Gentoo => Color::Magenta,
            Distro::OpenSuse => Color::BrightGreen,
            Distro::Generic => Color::White,
        }
    }

    /// The distribution's logo.
    pub fn logo(self) -> (logo: LogoDefinition)
        ensures
            logo.lines@ == self.art_of(),
            logo.color == Some(self.color_of()),
    {
        match self {
            Distro::Arch => arch_linux(),
            Distro::CachyOs => cachyos(),
            Distro::Manjaro => manjaro(),
            Distro::Ubuntu => ubuntu(),
            Distro::Debian => debian(),
            Distro::Fedora => fedora(),
            Distro::Gentoo => gentoo(),
            Distro::OpenSuse => opensuse(),
            Distro::Generic => generic_linux(),
        }
    }
}

/// The distribution whose logo is shown, given what reading the release
/// descriptor gave: `Generic` where it could not be read.
pub open spec fn distro_read(read: Result<Seq<char>, Seq<char>>) -> Distro {
    match read {
        Ok(content) => Distro::of_release(content),
        Err(_) => Distro::Generic,
    }
}

/// Whether `distro` can be the distribution that is found through `ctx`
/// when built for `target`. On Linux the release descriptor is read at the
/// primary path and, only if that fails, at the fallback path. On any
/// other platform nothing is asked, and the distribution is `Generic`.
pub open spec fn distro_may_be<C: SystemContext>(
    ctx: &C,
    target: BuildTarget,
    distro: Distro,
) -> bool {
    if target.os == Platform::Linux {
        exists|first: Result<Seq<char>, Seq<char>>, second: Result<Seq<char>, Seq<char>>|
            {
                &&& ctx.may_read_file(primary_release_path(), first)
                &&& first is Err ==> ctx.may_read_file(fallback_release_path(), second)
                &&& distro == distro_read(#[trigger] first_ok(first, second))
            }
    } else {
        distro == Distro::Generic
    }
}

/// Finds the distribution through `ctx`.
pub fn detect_distro<C: SystemContext>(ctx: &C, target: BuildTarget) -> (distro: Distro)
    ensures
        distro_may_be(ctx, target, distro),
{
    if target.os == Platform::Linux {
        let first = ctx.read_file("/etc/os-release");
        let ghost a = text_answer(first);
        let read = if first.is_ok() {
            proof {
                assert(first_ok(a, a) == a);
            }
            first
        } else {
            let second = ctx.read_file("/usr/lib/os-release");
            proof {
                assert(first_ok(a, text_answer(second)) == text_answer(second));
            }
            second
        };
        match read {
            Ok(content) => Distro::from_release(content.as_str()),
            Err(_) => Distro::Generic,
        }
    } else {
        Distro::Generic
    }
}

/// Whether `logo` can be the logo that is found through `ctx` when built
/// for `target`: the logo of a distribution that can be found.
pub open spec fn logo_may_be<C: SystemContext>(
    ctx: &C,
    target: BuildTarget,
    lines: Seq<&'static str>,
    color: Option<Color>,
) -> bool {
    exists|distro: Distro| #[trigger]
        distro_may_be(ctx, target, distro) && lines == distro.art_of() && color == Some(
            distro.color_of(),
        )
}

/// Finds the distribution through `ctx` and gives its logo.
pub fn detect_logo<C: SystemContext>(ctx: &C, target: BuildTarget) -> (logo: LogoDefinition)
    ensures
        logo_may_be(ctx, target, logo.lines@, logo.color),
{
    detect_distro(ctx, target).logo()
}

} // verus!
