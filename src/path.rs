//! Destination-path resolution for directory copies.
use vstd::prelude::*;
use vstd::string::*;

use crate::text::chars_of;

verus! {

/// The path separator.
pub const SEPARATOR: char = '/';

/// Whether `s` ends in a separator, or in a `.` segment after a separator.
pub open spec fn ends_in_trailer(s: Seq<char>) -> bool {
    s.len() > 0 && (s.last() == SEPARATOR || (s.len() >= 2 && s.last() == '.' && s[s.len() - 2]
        == SEPARATOR))
}

/// `s` without its trailing separators and trailing `.` segments.
pub open spec fn trim_trailing(s: Seq<char>) -> Seq<char>
    decreases s.len(),
{
    if ends_in_trailer(s) {
        trim_trailing(s.drop_last())
    } else {
        s
    }
}

/// The part of `s` after its last separator (all of `s` if it has none).
pub open spec fn last_segment(s: Seq<char>) -> Seq<char>
    decreases s.len(),
{
    if s.len() == 0 || s.last() == SEPARATOR {
        Seq::empty()
    } else {
        last_segment(s.drop_last()).push(s.last())
    }
}

/// The final component of a path, trailing separators and trailing `.`
/// segments ignored; none for an empty path, the root, `.` and `..`.
pub open spec fn file_name(s: Seq<char>) -> Option<Seq<char>> {
    let seg = last_segment(trim_trailing(s));
    if seg.len() == 0 || seg == seq!['.'] || seg == seq!['.', '.'] {
        None
    } else {
        Some(seg)
    }
}

/// The name used when the source has no final component.
pub open spec fn fallback_name() -> Seq<char> {
    seq!['R', 'O', 'O', 'T']
}

/// `name` placed as a child of `dir`.
pub open spec fn join(dir: Seq<char>, name: Seq<char>) -> Seq<char> {
    if dir.len() == 0 {
        name
    } else if dir.last() == SEPARATOR {
        dir + name
    } else {
        dir + seq![SEPARATOR] + name
    }
}

/// Where a copy of `source` into `destination` is created.
pub open spec fn resolve(source: Seq<char>, destination: Seq<char>) -> Seq<char> {
    match file_name(source) {
        Some(name) => join(destination, name),
        None => join(destination, fallback_name()),
    }
}

proof fn lemma_last_segment(t: Seq<char>, st: int)
    requires
        0 <= st <= t.len(),
        forall|k: int| st <= k < t.len() ==> t[k] != SEPARATOR,
        st == 0 || t[st - 1] == SEPARATOR,
    ensures
        last_segment(t) == t.subrange(st, t.len() as int),
    decreases t.len(),
{
    if t.len() == st {
        assert(t.subrange(st, t.len() as int) =~= Seq::<char>::empty());
    } else {
        lemma_last_segment(t.drop_last(), st);
        assert(t.drop_last().subrange(st, t.len() - 1).push(t.last()) =~= t.subrange(
            st,
            t.len() as int,
        ));
    }
}

/// The path under which a copy of `source_dir` is created inside
/// `destination_dir`: the source's final component, trailing separators and
/// `.` segments ignored, joined as a child of the destination. No filesystem
/// access.
pub fn destination_directory(source_dir: &str, destination_dir: &str) -> (r: String)
    ensures
        r@ == resolve(source_dir@, destination_dir@),
{
    let cs = chars_of(source_dir);
    let mut end: usize = cs.len();
    assert(cs@.take(end as int) =~= cs@);
    while end > 0 && (cs[end - 1] == SEPARATOR || (end >= 2 && cs[end - 1] == '.' && cs[end - 2]
        == SEPARATOR))
        invariant
            end <= cs@.len(),
            trim_trailing(cs@.take(end as int)) == trim_trailing(cs@),
        decreases end,
    {
        assert(cs@.take(end as int).drop_last() =~= cs@.take(end - 1));
        end = end - 1;
    }
    let mut start: usize = end;
    while start > 0 && cs[start - 1] != SEPARATOR
        invariant
            start <= end <= cs@.len(),
            forall|k: int| start <= k < end ==> cs@[k] != SEPARATOR,
        decreases start,
    {
        start = start - 1;
    }
    proof {
        lemma_last_segment(cs@.take(end as int), start as int);
        assert(cs@.take(end as int).subrange(start as int, end as int) =~= cs@.subrange(
            start as int,
            end as int,
        ));
    }
    let ghost seg = cs@.subrange(start as int, end as int);
    let len = end - start;
    let dots = (len == 1 && cs[start] == '.') || (len == 2 && cs[start] == '.' && cs[start + 1]
        == '.');
    proof {
        if len == 1 && cs@[start as int] == '.' {
            assert(seg =~= seq!['.']);
        }
        if len == 2 && cs@[start as int] == '.' && cs@[start + 1] == '.' {
            assert(seg =~= seq!['.', '.']);
        }
        if seg == seq!['.'] {
            assert(seg[0] == '.');
        }
        if seg == seq!['.', '.'] {
            assert(seg[0] == '.' && seg[1] == '.');
        }
    }
    let name: &str = if len == 0 || dots {
        proof {
            reveal_strlit("ROOT");
        }
        "ROOT"
    } else {
        source_dir.substring_char(start, end)
    };
    assert(name@ == match file_name(source_dir@) {
        Some(n) => n,
        None => fallback_name(),
    });
    let mut r = String::from_str(destination_dir);
    let n = destination_dir.unicode_len();
    if n > 0 && destination_dir.get_char(n - 1) != SEPARATOR {
        proof {
            reveal_strlit("/");
        }
        r.append("/");
    }
    r.append(name);
    r
}

/// Resolution is a function of its inputs alone: equal sources and equal
/// destinations always resolve to the same path.
pub proof fn lemma_resolve_deterministic(
    source1: Seq<char>,
    destination1: Seq<char>,
    source2: Seq<char>,
    destination2: Seq<char>,
)
    requires
        source1 == source2,
        destination1 == destination2,
    ensures
        resolve(source1, destination1) == resolve(source2, destination2),
{
}

/// A trailing separator on the source does not change where its copy goes.
pub proof fn lemma_resolve_ignores_trailing_separator(source: Seq<char>, destination: Seq<char>)
    ensures
        resolve(source.push(SEPARATOR), destination) == resolve(source, destination),
{
    let s = source.push(SEPARATOR);
    assert(s.drop_last() =~= source);
    assert(trim_trailing(s) == trim_trailing(source));
}

} // verus!
