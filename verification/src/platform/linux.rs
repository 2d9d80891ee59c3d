//! Readers of the texts that Linux offers below `/etc`, `/proc` and `/sys`.
//! They take the text of a file; reading the file is the caller's part.

use vstd::prelude::*;
use vstd::string::StringExecFns;
use crate::context::FixtureMap;
use crate::decimal::{parse_u64, parse_u64_of};
use crate::modules::os::unquoted;
use crate::text::{
    from_chars, leading, skip_class, slice_chars, to_chars, trim_class, trim_of, CharClass,
};
use crate::tokens::{
    chars_eq, first_token, first_token_of, lines_of, opt_str_view, split_lines, views,
};

verus! {

/// What a release descriptor says of the distribution.
#[derive(Debug, Clone, Default, PartialEq, Eq)]
pub struct OsRelease {
    pub id: Option<String>,
    pub name: Option<String>,
    pub pretty_name: Option<String>,
    pub version: Option<String>,
    pub version_id: Option<String>,
}

/// The mathematical value of an [`OsRelease`].
pub struct OsReleaseView {
    pub id: Option<Seq<char>>,
    pub name: Option<Seq<char>>,
    pub pretty_name: Option<Seq<char>>,
    pub version: Option<Seq<char>>,
    pub version_id: Option<Seq<char>>,
}

impl View for OsRelease {
    type V = OsReleaseView;

    open spec fn view(&self) -> OsReleaseView {
        OsReleaseView {
            id: opt_str_view(self.id),
            name: opt_str_view(self.name),
            pretty_name: opt_str_view(self.pretty_name),
            version: opt_str_view(self.version),
            version_id: opt_str_view(self.version_id),
        }
    }
}

/// The two parts of `s` about its first `at`: what stands before it and
/// what stands after it. `None` where `s` has no `at`.
pub open spec fn split_once_of(s: Seq<char>, at: char) -> Option<(Seq<char>, Seq<char>)> {
    let n = leading(s, CharClass::Except(at)) as int;
    if n >= s.len() {
        None
    } else {
        Some((s.take(n), s.skip(n + 1)))
    }
}

/// The two parts of `v` about its first `at`, as [`split_once_of`] has
/// them.
pub fn split_once(v: &Vec<char>, at: char) -> (out: Option<(Vec<char>, Vec<char>)>)
    ensures
        match out {
            Some((before, after)) => split_once_of(v@, at) == Some((before@, after@)),
            None => split_once_of(v@, at) is None,
        },
{
    let n = skip_class(v, 0, CharClass::Except(at));
    proof {
        assert(v@.skip(0) == v@);
    }
    if n >= v.len() {
        None
    } else {
        let before = slice_chars(v, 0, n);
        let after = slice_chars(v, n + 1, v.len());
        proof {
            assert(before@ =~= v@.take(n as int));
            assert(after@ =~= v@.skip(n + 1));
        }
        Some((before, after))
    }
}

/// The key and the value that a line of a release descriptor sets: the
/// line, trimmed, is not empty, does not begin with `#`, and has an equals
/// sign; the key stands before the first one, the value after it, without
/// the double quotes around it.
pub open spec fn release_entry(line: Seq<char>) -> Option<(Seq<char>, Seq<char>)> {
    let t = trim_of(line, CharClass::Space);
    if t.len() == 0 || t[0] == '#' {
        None
    } else {
        match split_once_of(t, '=') {
            Some((key, value)) => Some((key, unquoted(value))),
            None => None,
        }
    }
}

/// The value that the last of `lines` to set `key` gives it.
pub open spec fn release_value(lines: Seq<Seq<char>>, key: Seq<char>) -> Option<Seq<char>>
    decreases lines.len(),
{
    if lines.len() == 0 {
        None
    } else {
        match release_entry(lines.last()) {
            Some((k, v)) => if k == key {
                Some(v)
            } else {
                release_value(lines.drop_last(), key)
            },
            None => release_value(lines.drop_last(), key),
        }
    }
}

/// What a release descriptor says: for each of the five keys the value
/// that the last line to set it gives.
pub open spec fn os_release_of(content: Seq<char>) -> OsReleaseView {
    let lines = lines_of(content);
    OsReleaseView {
        id: release_value(lines, "ID"@),
        name: release_value(lines, "NAME"@),
        pretty_name: release_value(lines, "PRETTY_NAME"@),
        version: release_value(lines, "VERSION"@),
        version_id: release_value(lines, "VERSION_ID"@),
    }
}

/// The key and the value that `line` sets, as [`release_entry`] has them.
pub fn read_release_entry(line: &Vec<char>) -> (out: Option<(Vec<char>, Vec<char>)>)
    ensures
        match out {
            Some((key, value)) => release_entry(line@) == Some((key@, value@)),
            None => release_entry(line@) is None,
        },
{
    let t = trim_class(line, CharClass::Space);
    if t.len() == 0 || t[0] == '#' {
        return None;
    }
    match split_once(&t, '=') {
        Some((key, value)) => Some((key, trim_class(&value, CharClass::Only('"')))),
        None => None,
    }
}

/// Reads a release descriptor, as [`os_release_of`] has it.
pub fn parse_os_release(content: &str) -> (out: OsRelease)
    ensures
        out@ == os_release_of(content@),
{
    let chars = to_chars(content);
    let lines = split_lines(&chars);
    let mut out = OsRelease {
        id: None,
        name: None,
        pretty_name: None,
        version: None,
        version_id: None,
    };
    let mut i: usize = 0;
    while i < lines.len()
        invariant
            i <= lines.len(),
            out@.id == release_value(views(lines@).take(i as int), "ID"@),
            out@.name == release_value(views(lines@).take(i as int), "NAME"@),
            out@.pretty_name == release_value(views(lines@).take(i as int), "PRETTY_NAME"@),
            out@.version == release_value(views(lines@).take(i as int), "VERSION"@),
            out@.version_id == release_value(views(lines@).take(i as int), "VERSION_ID"@),
        decreases lines.len() - i,
    {
        proof {
            let now = views(lines@).take(i + 1);
            assert(now.drop_last() =~= views(lines@).take(i as int));
            assert(now.last() == lines@[i as int]@);
        }
        match read_release_entry(&lines[i]) {
            Some((key, value)) => {
                if chars_eq(&key, "ID") {
                    out.id = Some(from_chars(&value));
                }
                if chars_eq(&key, "NAME") {
                    out.name = Some(from_chars(&value));
                }
                if chars_eq(&key, "PRETTY_NAME") {
                    out.pretty_name = Some(from_chars(&value));
                }
                if chars_eq(&key, "VERSION") {
                    out.version = Some(from_chars(&value));
                }
                if chars_eq(&key, "VERSION_ID") {
                    out.version_id = Some(from_chars(&value));
                }
            },
            None => {},
        }
        i += 1;
    }
    proof {
        assert(views(lines@).take(i as int) =~= views(lines@));
    }
    out
}

/// The key and the number that a line of the memory table gives: the key
/// stands before the first colon, trimmed, and the number is the first
/// token after it.
pub open spec fn meminfo_entry(line: Seq<char>) -> Option<(Seq<char>, u64)> {
    match split_once_of(line, ':') {
        Some((key, value)) => match first_token_of(value) {
            Some(token) => match parse_u64_of(token) {
                Some(n) => Some((trim_of(key, CharClass::Space), n)),
                None => None,
            },
            None => None,
        },
        None => None,
    }
}

/// The numbers of the memory table by key; the last line of a key wins.
pub open spec fn meminfo_map(lines: Seq<Seq<char>>) -> Map<Seq<char>, u64>
    decreases lines.len(),
{
    if lines.len() == 0 {
        Map::empty()
    } else {
        let before = meminfo_map(lines.drop_last());
        match meminfo_entry(lines.last()) {
            Some((key, n)) => before.insert(key, n),
            None => before,
        }
    }
}

/// Reads the memory table into a map from key to number, as
/// [`meminfo_map`] has it.
pub fn parse_meminfo(content: &str) -> (out: FixtureMap<u64>)
    ensures
        out@ == meminfo_map(lines_of(content@)),
{
    let chars = to_chars(content);
    let lines = split_lines(&chars);
    let mut out: FixtureMap<u64> = FixtureMap::new();
    let mut i: usize = 0;
    while i < lines.len()
        invariant
            i <= lines.len(),
            views(lines@) == lines_of(content@),
            out@ == meminfo_map(views(lines@).take(i as int)),
        decreases lines.len() - i,
    {
        proof {
            let now = views(lines@).take(i + 1);
            assert(now.drop_last() =~= views(lines@).take(i as int));
            assert(now.last() == lines@[i as int]@);
        }
        match split_once(&lines[i], ':') {
            Some((key, value)) => match first_token(&value) {
                Some(token) => match parse_u64(&token) {
                    Some(n) => {
                        out.insert(from_chars(&trim_class(&key, CharClass::Space)), n);
                    },
                    None => {},
                },
                None => {},
            },
            None => {},
        }
        i += 1;
    }
    proof {
        assert(views(lines@).take(i as int) =~= views(lines@));
    }
    out
}

/// The key and the value that a line of the processor table gives: what
/// stands before and after the first colon, both trimmed.
pub open spec fn cpuinfo_entry(line: Seq<char>) -> Option<(Seq<char>, Seq<char>)> {
    match split_once_of(line, ':') {
        Some((key, value)) => Some(
            (trim_of(key, CharClass::Space), trim_of(value, CharClass::Space)),
        ),
        None => None,
    }
}

/// The values of the processor table by key; the first line of a key
/// wins, which is that of the first processor.
pub open spec fn cpuinfo_map(lines: Seq<Seq<char>>) -> Map<Seq<char>, Seq<char>>
    decreases lines.len(),
{
    if lines.len() == 0 {
        Map::empty()
    } else {
        let before = cpuinfo_map(lines.drop_last());
        match cpuinfo_entry(lines.last()) {
            Some((key, value)) => if before.contains_key(key) {
                before
            } else {
                before.insert(key, value)
            },
            None => before,
        }
    }
}

/// The texts of a map of strings.
pub open spec fn texts_of(map: Map<Seq<char>, String>) -> Map<Seq<char>, Seq<char>> {
    Map::new(|k: Seq<char>| map.contains_key(k), |k: Seq<char>| map[k]@)
}

/// Reads the processor table into a map from key to value, as
/// [`cpuinfo_map`] has it.
pub fn parse_cpuinfo(content: &str) -> (out: FixtureMap<String>)
    ensures
        texts_of(out@) == cpuinfo_map(lines_of(content@)),
{
    let chars = to_chars(content);
    let lines = split_lines(&chars);
    let mut out: FixtureMap<String> = FixtureMap::new();
    let mut i: usize = 0;
    proof {
        assert(texts_of(out@) =~= cpuinfo_map(views(lines@).take(0)));
    }
    while i < lines.len()
        invariant
            i <= lines.len(),
            views(lines@) == lines_of(content@),
            texts_of(out@) == cpuinfo_map(views(lines@).take(i as int)),
        decreases lines.len() - i,
    {
        proof {
            let now = views(lines@).take(i + 1);
            assert(now.drop_last() =~= views(lines@).take(i as int));
            assert(now.last() == lines@[i as int]@);
        }
        let ghost before = out@;
        match split_once(&lines[i], ':') {
            Some((key, value)) => {
                let key_text = from_chars(&trim_class(&key, CharClass::Space));
                let known = out.get(key_text.as_str()).is_some();
                proof {
                    assert(known == texts_of(before).contains_key(key_text@));
                }
                if !known {
                    let value_text = from_chars(&trim_class(&value, CharClass::Space));
                    out.insert(key_text, value_text);
                    proof {
                        assert(texts_of(out@) =~= texts_of(before).insert(
                            key_text@,
                            value_text@,
                        ));
                    }
                }
            },
            None => {},
        }
        i += 1;
    }
    proof {
        assert(views(lines@).take(i as int) =~= views(lines@));
    }
    out
}

/// The number that `content` holds, trimmed of white space.
pub open spec fn trimmed_number(content: Seq<char>) -> Option<u64> {
    parse_u64_of(trim_of(content, CharClass::Space))
}

/// The frequency in kHz that a frequency file holds: its number, trimmed.
pub fn parse_frequency(content: &str) -> (out: Option<u64>)
    ensures
        out == trimmed_number(content@),
{
    parse_u64(&trim_class(&to_chars(content), CharClass::Space))
}

/// The size in bytes of a block device, given the text of its size file,
/// which counts sectors of 512 bytes. `None` where the text holds no
/// number or where the size does not fit into 64 bits.
pub open spec fn device_bytes(content: Seq<char>) -> Option<u64> {
    match trimmed_number(content) {
        Some(sectors) => if sectors * 512 <= u64::MAX {
            Some((sectors * 512) as u64)
        } else {
            None
        },
        None => None,
    }
}

/// The size in bytes of a block device, as [`device_bytes`] has it.
pub fn parse_device_size(content: &str) -> (out: Option<u64>)
    ensures
        out == device_bytes(content@),
{
    match parse_frequency(content) {
        Some(sectors) => sectors.checked_mul(512),
        None => None,
    }
}

/// The path of the file that holds the field `field` of the DMI table.
pub fn dmi_path(field: &str) -> (path: String)
    ensures
        path@ == "/sys/class/dmi/id/"@ + field@,
{
    "/sys/class/dmi/id/".to_owned().concat(field)
}

} // verus!
