//! The logo that is shown beside the results.

pub mod database;

use vstd::prelude::*;
use crate::config::LogoConfig;
use crate::context::SystemContext;
use crate::logo::database::{detect_logo, logo_may_be};
use crate::output::color::{styled_text, Color, StyledString, StyledStringView};
use crate::platform::BuildTarget;
use crate::text::{from_chars, to_chars};
use crate::tokens::{lines_of, split_lines, texts, views};

verus! {

/// A logo that is ready to be shown.
#[derive(Debug, Clone)]
pub struct Logo {
    lines: Vec<String>,
    width: usize,
    color: Option<Color>,
}

/// The mathematical value of a [`Logo`].
pub struct LogoView {
    pub lines: Seq<Seq<char>>,
    pub width: nat,
    pub color: Option<Color>,
}

impl View for Logo {
    type V = LogoView;

    closed spec fn view(&self) -> LogoView {
        LogoView { lines: texts(self.lines@), width: self.width as nat, color: self.color }
    }
}

/// The length of the longest of `lines`, in characters; 0 for no lines.
pub open spec fn widest(lines: Seq<Seq<char>>) -> nat
    decreases lines.len(),
{
    if lines.len() == 0 {
        0
    } else {
        let before = widest(lines.drop_last());
        if lines.last().len() > before {
            lines.last().len()
        } else {
            before
        }
    }
}

/// The views of the string slices of `v`.
pub open spec fn slices_view(v: Seq<&'static str>) -> Seq<Seq<char>> {
    Seq::new(v.len(), |i: int| v[i]@)
}

/// The logo that the text `art` draws: its lines and the length of the
/// longest of them, without a colour. A text without lines draws none.
pub open spec fn art_logo(art: Seq<char>) -> Option<LogoView> {
    let lines = lines_of(art);
    if lines.len() == 0 {
        None
    } else {
        Some(LogoView { lines, width: widest(lines), color: None })
    }
}

/// The lines of `logo` as they are written to a terminal: each in the
/// logo's colour if it has one, and as they are if it has none.
pub open spec fn shown_lines(logo: LogoView) -> Seq<Seq<char>> {
    Seq::new(
        logo.lines.len(),
        |i: int|
            match logo.color {
                Some(color) => styled_text(
                    StyledStringView { text: logo.lines[i], fg_color: Some(color), style: None },
                ),
                None => logo.lines[i],
            },
    )
}

impl Logo {
    /// The logo that the text `art` draws, as [`art_logo`] has it.
    pub fn from_art(art: &str) -> (out: Option<Logo>)
        ensures
            match out {
                Some(logo) => art_logo(art@) == Some(logo@),
                None => art_logo(art@) is None,
            },
    {
        let chars = to_chars(art);
        let split = split_lines(&chars);
        if split.len() == 0 {
            return None;
        }
        let mut lines: Vec<String> = Vec::new();
        let mut width: usize = 0;
        let mut i: usize = 0;
        proof {
            assert(views(split@).take(0) =~= Seq::<Seq<char>>::empty());
            assert(texts(lines@) =~= views(split@).take(0));
        }
        while i < split.len()
            invariant
                i <= split.len(),
                texts(lines@) == views(split@).take(i as int),
                width == widest(views(split@).take(i as int)),
            decreases split.len() - i,
        {
            proof {
                assert(views(split@).take(i + 1).drop_last() =~= views(split@).take(i as int));
                assert(views(split@).take(i + 1).last() == split@[i as int]@);
            }
            let ghost before = texts(lines@);
            let line = from_chars(&split[i]);
            if split[i].len() > width {
                width = split[i].len();
            }
            lines.push(line);
            proof {
                assert(texts(lines@) =~= before.push(split@[i as int]@));
                assert(texts(lines@) =~= views(split@).take(i + 1));
            }
            i += 1;
        }
        proof {
            assert(views(split@).take(i as int) =~= views(split@));
        }
        Some(Logo { lines, width, color: None })
    }

    /// The logo with the lines and the colour of `definition`.
    pub fn from_definition(lines: &'static [&'static str], color: Option<Color>) -> (logo: Logo)
        ensures
            logo@ == (LogoView {
                lines: slices_view(lines@),
                width: widest(slices_view(lines@)),
                color,
            }),
    {
        let mut owned: Vec<String> = Vec::new();
        let mut width: usize = 0;
        let mut i: usize = 0;
        let ghost all = slices_view(lines@);
        proof {
            assert(texts(owned@) =~= all.take(0));
        }
        while i < lines.len()
            invariant
                i <= lines.len(),
                all == slices_view(lines@),
                texts(owned@) == all.take(i as int),
                width == widest(all.take(i as int)),
            decreases lines.len() - i,
        {
            proof {
                assert(all.take(i + 1).drop_last() =~= all.take(i as int));
                assert(all.take(i + 1).last() == lines@[i as int]@);
            }
            let ghost before = texts(owned@);
            let count = lines[i].unicode_len();
            if count > width {
                width = count;
            }
            owned.push(lines[i].to_owned());
            proof {
                assert(texts(owned@) =~= before.push(lines@[i as int]@));
                assert(texts(owned@) =~= all.take(i + 1));
            }
            i += 1;
        }
        proof {
            assert(all.take(i as int) =~= all);
        }
        Logo { lines: owned, width, color }
    }

    /// Whether `out` can be the logo that `config` asks for, found through
    /// `ctx` when built for `target`. A configuration with a text asks for
    /// the logo that the text draws, and nothing is asked of the host; one
    /// without asks for the logo of the distribution.
    pub open spec fn may_come_from<C: SystemContext>(
        config: Option<Seq<char>>,
        ctx: &C,
        target: BuildTarget,
        out: Option<LogoView>,
    ) -> bool {
        match config {
            Some(art) => out == art_logo(art),
            None => exists|lines: Seq<&'static str>, color: Option<Color>| #[trigger]
                logo_may_be(ctx, target, lines, color) && out == Some(
                    LogoView {
                        lines: slices_view(lines),
                        width: widest(slices_view(lines)),
                        color,
                    },
                ),
        }
    }

    /// The logo that `config` asks for, as [`Logo::may_come_from`] has it.
    pub fn from_config<C: SystemContext>(config: &LogoConfig, ctx: &C, target: BuildTarget) -> (out:
        Option<Logo>)
        ensures
            Logo::may_come_from(
                config@,
                ctx,
                target,
                match out {
                    Some(logo) => Some(logo@),
                    None => None,
                },
            ),
    {
        match &config.ascii_art {
            Some(art) => Logo::from_art(art.as_str()),
            None => {
                let definition = detect_logo(ctx, target);
                Some(Logo::from_definition(definition.lines, definition.color))
            },
        }
    }

    /// The length of the longest line, in characters.
    pub fn width(&self) -> (w: usize)
        ensures
            w == self@.width,
    {
        self.width
    }

    /// The lines from top to bottom, as [`shown_lines`] has them.
    pub fn lines(&self) -> (out: Vec<String>)
        ensures
            texts(out@) == shown_lines(self@),
    {
        let mut out: Vec<String> = Vec::new();
        let mut i: usize = 0;
        while i < self.lines.len()
            invariant
                i <= self.lines.len(),
                out@.len() == i,
                forall|k: int| 0 <= k < i ==> out@[k]@ == shown_lines(self@)[k],
            decreases self.lines.len() - i,
        {
            let line = match self.color {
                Some(color) => StyledString::new(self.lines[i].as_str()).fg(color).format(),
                None => self.lines[i].clone(),
            };
            out.push(line);
            i += 1;
        }
        proof {
            assert(texts(out@) =~= shown_lines(self@));
        }
        out
    }
}

} // verus!
