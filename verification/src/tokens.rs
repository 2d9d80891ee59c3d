//! Prefixes, lines, white-space tokens and colon-separated fields of a text.

use vstd::prelude::*;
use crate::text::{
    leading, skip_class, skip_class_back, slice_chars, to_chars, trailing, trim_end_of,
    trim_start_of, CharClass,
};

verus! {

/// Whether `s` begins with `p`.
pub open spec fn starts_with(s: Seq<char>, p: Seq<char>) -> bool {
    p.len() <= s.len() && s.take(p.len() as int) == p
}

/// What follows `p` in `s`, if `s` begins with `p`.
pub open spec fn strip_prefix_of(s: Seq<char>, p: Seq<char>) -> Option<Seq<char>> {
    if starts_with(s, p) {
        Some(s.skip(p.len() as int))
    } else {
        None
    }
}

/// The view of an optional character vector.
pub open spec fn opt_view(o: Option<Vec<char>>) -> Option<Seq<char>> {
    match o {
        Some(v) => Some(v@),
        None => None,
    }
}

/// The view of an optional string.
pub open spec fn opt_str_view(o: Option<String>) -> Option<Seq<char>> {
    match o {
        Some(v) => Some(v@),
        None => None,
    }
}

/// The views of the strings of `v`.
pub open spec fn texts(v: Seq<String>) -> Seq<Seq<char>> {
    Seq::new(v.len(), |i: int| v[i]@)
}

/// Whether `v` holds exactly the characters of `lit`.
pub fn chars_eq(v: &Vec<char>, lit: &str) -> (b: bool)
    ensures
        b == (v@ == lit@),
{
    let l = to_chars(lit);
    if v.len() != l.len() {
        return false;
    }
    let mut i: usize = 0;
    while i < v.len()
        invariant
            i <= v.len(),
            v.len() == l.len(),
            l@ == lit@,
            forall|k: int| 0 <= k < i ==> v@[k] == l@[k],
        decreases v.len() - i,
    {
        let a: char = v[i];
        let b: char = l[i];
        if a != b {
            proof {
                assert(v@[i as int] != lit@[i as int]);
            }
            return false;
        }
        i += 1;
    }
    proof {
        assert(v@ =~= l@);
    }
    true
}

/// What follows `prefix` in `v`, if `v` begins with `prefix`.
pub fn strip_prefix(v: &Vec<char>, prefix: &str) -> (out: Option<Vec<char>>)
    ensures
        opt_view(out) == strip_prefix_of(v@, prefix@),
{
    let p = to_chars(prefix);
    if p.len() > v.len() {
        return None;
    }
    let mut i: usize = 0;
    while i < p.len()
        invariant
            i <= p.len() <= v.len(),
            p@ == prefix@,
            forall|k: int| 0 <= k < i ==> v@[k] == p@[k],
        decreases p.len() - i,
    {
        let a: char = v[i];
        let b: char = p[i];
        if a != b {
            proof {
                assert(v@.take(p@.len() as int)[i as int] == v@[i as int]);
                assert(v@.take(p@.len() as int)[i as int] != prefix@[i as int]);
            }
            return None;
        }
        i += 1;
    }
    proof {
        assert(v@.take(p@.len() as int) =~= p@);
    }
    Some(slice_chars(v, p.len(), v.len()))
}

/// `l` without one carriage return at its end, if it has one.
pub open spec fn strip_cr(l: Seq<char>) -> Seq<char> {
    if l.len() > 0 && l.last() == '\r' {
        l.drop_last()
    } else {
        l
    }
}

/// The lines of `s`. A line ends at a line feed, or at the end of the text
/// if characters remain; the line feed, and a carriage return just before
/// it, are not part of the line. The empty text has no lines.
pub open spec fn lines_of(s: Seq<char>) -> Seq<Seq<char>>
    decreases s.len(),
{
    if s.len() == 0 {
        Seq::empty()
    } else {
        let n = leading(s, CharClass::Except('\n')) as int;
        if n >= s.len() {
            seq![s]
        } else {
            seq![strip_cr(s.take(n))] + lines_of(s.skip(n + 1))
        }
    }
}

/// The views of the vectors of `lines`.
pub open spec fn views(lines: Seq<Vec<char>>) -> Seq<Seq<char>> {
    Seq::new(lines.len(), |i: int| lines[i]@)
}

/// The lines of `v`, as [`lines_of`] has them.
pub fn split_lines(v: &Vec<char>) -> (out: Vec<Vec<char>>)
    ensures
        views(out@) == lines_of(v@),
{
    let mut out: Vec<Vec<char>> = Vec::new();
    let mut pos: usize = 0;
    proof {
        assert(v@.skip(0) == v@);
        assert(views(out@) + lines_of(v@) == lines_of(v@));
    }
    while pos < v.len()
        invariant
            pos <= v.len(),
            views(out@) + lines_of(v@.skip(pos as int)) == lines_of(v@),
        decreases v.len() - pos,
    {
        let ghost rest = v@.skip(pos as int);
        let ghost before = views(out@);
        let end = skip_class(v, pos, CharClass::Except('\n'));
        if end >= v.len() {
            let line = slice_chars(v, pos, v.len());
            proof {
                assert(line@ == rest);
                assert(lines_of(rest) == seq![rest]);
            }
            out.push(line);
            proof {
                assert(views(out@) =~= before + seq![rest]);
                assert(v@.skip(v@.len() as int).len() == 0);
            }
            pos = v.len();
        } else {
            let cut = if end > pos && v[end - 1] == '\r' {
                end - 1
            } else {
                end
            };
            let line = slice_chars(v, pos, cut);
            proof {
                let n = end - pos;
                assert(rest.take(n) == v@.subrange(pos as int, end as int));
                assert(line@ =~= strip_cr(rest.take(n)));
                assert(rest.skip(n + 1) == v@.skip(end + 1));
                assert(lines_of(rest) == seq![strip_cr(rest.take(n))] + lines_of(rest.skip(n + 1)));
            }
            out.push(line);
            proof {
                assert(views(out@) =~= before + seq![line@]);
                assert(views(out@) + lines_of(v@.skip(end + 1)) =~= before + lines_of(rest));
            }
            pos = end + 1;
        }
    }
    proof {
        assert(lines_of(v@.skip(pos as int)) =~= Seq::<Seq<char>>::empty());
        assert(views(out@) + Seq::<Seq<char>>::empty() =~= views(out@));
    }
    out
}

/// The first white-space-separated token of `s`, if `s` has one.
pub open spec fn first_token_of(s: Seq<char>) -> Option<Seq<char>> {
    let t = trim_start_of(s, CharClass::Space);
    if t.len() == 0 {
        None
    } else {
        Some(t.take(leading(t, CharClass::NotSpace) as int))
    }
}

/// The last white-space-separated token of `s`, if `s` has one.
pub open spec fn last_token_of(s: Seq<char>) -> Option<Seq<char>> {
    let t = trim_end_of(s, CharClass::Space);
    if t.len() == 0 {
        None
    } else {
        Some(t.skip(t.len() - trailing(t, CharClass::NotSpace)))
    }
}

/// The first white-space-separated token of `v`, if `v` has one.
pub fn first_token(v: &Vec<char>) -> (out: Option<Vec<char>>)
    ensures
        opt_view(out) == first_token_of(v@),
{
    let start = skip_class(v, 0, CharClass::Space);
    proof {
        assert(v@.skip(0) == v@);
    }
    if start >= v.len() {
        return None;
    }
    let end = skip_class(v, start, CharClass::NotSpace);
    let token = slice_chars(v, start, end);
    proof {
        let t = trim_start_of(v@, CharClass::Space);
        assert(t == v@.skip(start as int));
        assert(token@ =~= t.take(leading(t, CharClass::NotSpace) as int));
    }
    Some(token)
}

/// The last white-space-separated token of `v`, if `v` has one.
pub fn last_token(v: &Vec<char>) -> (out: Option<Vec<char>>)
    ensures
        opt_view(out) == last_token_of(v@),
{
    let end = skip_class_back(v, v.len(), CharClass::Space);
    proof {
        assert(v@.take(v@.len() as int) == v@);
    }
    if end == 0 {
        return None;
    }
    let start = skip_class_back(v, end, CharClass::NotSpace);
    let token = slice_chars(v, start, end);
    proof {
        let t = trim_end_of(v@, CharClass::Space);
        assert(t == v@.take(end as int));
        assert(token@ =~= t.skip(t.len() - trailing(t, CharClass::NotSpace)));
    }
    Some(token)
}

/// The second of the fields that colons divide `s` into: what stands
/// between the first colon and the next one, or the end. `None` where `s`
/// has no colon.
pub open spec fn second_field_of(s: Seq<char>) -> Option<Seq<char>> {
    let n = leading(s, CharClass::Except(':')) as int;
    if n >= s.len() {
        None
    } else {
        let rest = s.skip(n + 1);
        Some(rest.take(leading(rest, CharClass::Except(':')) as int))
    }
}

/// The second of the fields that colons divide `v` into, if `v` has a colon.
pub fn second_field(v: &Vec<char>) -> (out: Option<Vec<char>>)
    ensures
        opt_view(out) == second_field_of(v@),
{
    let first = skip_class(v, 0, CharClass::Except(':'));
    proof {
        assert(v@.skip(0) == v@);
    }
    if first >= v.len() {
        return None;
    }
    let next = skip_class(v, first + 1, CharClass::Except(':'));
    let field = slice_chars(v, first + 1, next);
    proof {
        let rest = v@.skip(first + 1);
        assert(field@ =~= rest.take(leading(rest, CharClass::Except(':')) as int));
    }
    Some(field)
}

/// The first line of `s`, if `s` has one.
pub open spec fn first_line_of(s: Seq<char>) -> Option<Seq<char>> {
    if lines_of(s).len() == 0 {
        None
    } else {
        Some(lines_of(s)[0])
    }
}

/// The first line of `v`, if `v` has one.
pub fn first_line(v: &Vec<char>) -> (out: Option<Vec<char>>)
    ensures
        opt_view(out) == first_line_of(v@),
{
    if v.len() == 0 {
        return None;
    }
    let end = skip_class(v, 0, CharClass::Except('\n'));
    proof {
        assert(v@.skip(0) == v@);
    }
    if end >= v.len() {
        let line = slice_chars(v, 0, v.len());
        proof {
            assert(line@ == v@);
        }
        Some(line)
    } else {
        let cut = if end > 0 && v[end - 1] == '\r' {
            end - 1
        } else {
            end
        };
        let line = slice_chars(v, 0, cut);
        proof {
            assert(line@ =~= strip_cr(v@.take(end as int)));
            assert(lines_of(v@)[0] == strip_cr(v@.take(end as int)));
        }
        Some(line)
    }
}

/// What follows `prefix` in the first of `lines` that begins with it.
pub open spec fn first_value(lines: Seq<Seq<char>>, prefix: Seq<char>) -> Option<Seq<char>>
    decreases lines.len(),
{
    if lines.len() == 0 {
        None
    } else {
        match strip_prefix_of(lines[0], prefix) {
            Some(v) => Some(v),
            None => first_value(lines.drop_first(), prefix),
        }
    }
}

/// What follows `prefix` in the last of `lines` that begins with it.
pub open spec fn last_value(lines: Seq<Seq<char>>, prefix: Seq<char>) -> Option<Seq<char>>
    decreases lines.len(),
{
    if lines.len() == 0 {
        None
    } else {
        match strip_prefix_of(lines.last(), prefix) {
            Some(v) => Some(v),
            None => last_value(lines.drop_last(), prefix),
        }
    }
}

/// One more line at the end changes the first value only if there was none.
pub proof fn lemma_first_value_push(lines: Seq<Seq<char>>, line: Seq<char>, prefix: Seq<char>)
    ensures
        first_value(lines.push(line), prefix) == (match first_value(lines, prefix) {
            Some(v) => Some(v),
            None => strip_prefix_of(line, prefix),
        }),
    decreases lines.len(),
{
    let all = lines.push(line);
    if lines.len() == 0 {
        assert(all.drop_first() =~= Seq::<Seq<char>>::empty());
        assert(first_value(all.drop_first(), prefix) is None);
    } else {
        assert(all[0] == lines[0]);
        assert(all.drop_first() =~= lines.drop_first().push(line));
        lemma_first_value_push(lines.drop_first(), line, prefix);
    }
}

/// The final component of `path`, whose components the characters of
/// `sep` divide. Empty components, and components that are a single full
/// stop, do not count. There is no final component where none is left, or
/// where the one that is left is two full stops.
pub open spec fn file_name_of(path: Seq<char>, sep: CharClass) -> Option<Seq<char>>
    decreases path.len(),
{
    if path.len() == 0 {
        None
    } else {
        let n = trailing(path, sep.inverse()) as int;
        let segment = path.skip(path.len() - n);
        if n == 0 || segment == seq!['.'] {
            if n >= path.len() {
                None
            } else {
                file_name_of(path.take(path.len() - n - 1), sep)
            }
        } else if segment == seq!['.', '.'] {
            None
        } else {
            Some(segment)
        }
    }
}

/// The final component of `path`, as [`file_name_of`] has it.
pub fn file_name(path: &Vec<char>, sep: CharClass) -> (out: Option<Vec<char>>)
    ensures
        opt_view(out) == file_name_of(path@, sep),
{
    let inside = sep.complement();
    let mut end: usize = path.len();
    proof {
        assert(path@.take(end as int) == path@);
    }
    while end > 0
        invariant
            end <= path.len(),
            inside == sep.inverse(),
            file_name_of(path@, sep) == file_name_of(path@.take(end as int), sep),
        decreases end,
    {
        let start = skip_class_back(path, end, inside);
        let n = end - start;
        let ghost head = path@.take(end as int);
        proof {
            lemma_trailing_bound(head, inside);
            assert(head.skip(head.len() - n) =~= path@.subrange(start as int, end as int));
        }
        let single = n == 1 && path[start] == '.';
        let double = n == 2 && path[start] == '.' && path[start + 1] == '.';
        proof {
            let segment = path@.subrange(start as int, end as int);
            if single {
                assert(segment =~= seq!['.']);
            } else {
                if segment == seq!['.'] {
                    assert(segment.len() == 1);
                    assert(segment[0] == '.');
                }
            }
            if double {
                assert(segment =~= seq!['.', '.']);
            } else {
                if segment == seq!['.', '.'] {
                    assert(segment.len() == 2);
                    assert(segment[0] == '.');
                    assert(segment[1] == '.');
                }
            }
        }
        if n == 0 || single {
            if start == 0 {
                return None;
            }
            proof {
                assert(head.take(head.len() - n - 1) =~= path@.take(start - 1));
            }
            end = start - 1;
        } else if double {
            return None;
        } else {
            return Some(slice_chars(path, start, end));
        }
    }
    None
}

/// The trailing run is no longer than the text.
pub proof fn lemma_trailing_bound(s: Seq<char>, class: CharClass)
    ensures
        trailing(s, class) <= s.len(),
    decreases s.len(),
{
    if s.len() > 0 && class.has(s.last()) {
        lemma_trailing_bound(s.drop_last(), class);
    }
}

/// The stem of a file name: what stands before its last full stop, and
/// the whole name where it has none or where its only one stands first.
pub open spec fn stem_of(name: Seq<char>) -> Seq<char> {
    let n = trailing(name, CharClass::Except('.')) as int;
    if n >= name.len() || name.len() - n - 1 == 0 {
        name
    } else {
        name.take(name.len() - n - 1)
    }
}

/// The stem of a file name, as [`stem_of`] has it.
pub fn file_stem(name: &Vec<char>) -> (out: Vec<char>)
    ensures
        out@ == stem_of(name@),
{
    let after = skip_class_back(name, name.len(), CharClass::Except('.'));
    proof {
        assert(name@.take(name@.len() as int) == name@);
    }
    if after == 0 || after == 1 {
        let out = slice_chars(name, 0, name.len());
        proof {
            assert(out@ =~= name@);
        }
        out
    } else {
        let out = slice_chars(name, 0, after - 1);
        proof {
            assert(out@ =~= name@.take(after - 1));
        }
        out
    }
}

/// The position at or after `from` at which `pattern` first occurs in `s`,
/// or the length of `s` where it does not occur.
pub open spec fn find_from(s: Seq<char>, pattern: Seq<char>, from: int) -> int
    decreases s.len() - from,
{
    if from < 0 || from >= s.len() || from + pattern.len() > s.len() {
        s.len() as int
    } else if s.subrange(from, from + pattern.len()) == pattern {
        from
    } else {
        find_from(s, pattern, from + 1)
    }
}

/// The position at which `pattern` first occurs in `v`, or the length of
/// `v` where it does not occur.
pub fn find(v: &Vec<char>, pattern: &str) -> (at: usize)
    ensures
        at == find_from(v@, pattern@, 0),
        at <= v.len(),
{
    let p = to_chars(pattern);
    let mut i: usize = 0;
    while i <= v.len() && p.len() <= v.len() - i
        invariant
            p@ == pattern@,
            find_from(v@, pattern@, 0) == find_from(v@, pattern@, i as int),
        decreases v.len() + 1 - i,
    {
        let mut k: usize = 0;
        while k < p.len() && v[i + k] == p[k]
            invariant
                i + p.len() <= v.len(),
                k <= p.len(),
                forall|j: int| 0 <= j < k ==> v@[i + j] == p@[j],
            decreases p.len() - k,
        {
            k += 1;
        }
        if k == p.len() {
            proof {
                assert(v@.subrange(i as int, i + p@.len()) =~= p@);
            }
            return i;
        }
        proof {
            assert(v@.subrange(i as int, i + p@.len())[k as int] == v@[i + k]);
        }
        i += 1;
    }
    v.len()
}

} // verus!
