//! Trimming of user-authored text.

use vstd::prelude::*;
use vstd::string::StrSliceExecFns;

verus! {

/// Whether `c` is white space: one of the twenty-five characters to which
/// Unicode gives the property White_Space.
pub open spec fn white_space(c: char) -> bool {
    let n: u32 = c as u32;
    ||| 0x0009 <= n <= 0x000D
    ||| n == 0x0020
    ||| n == 0x0085
    ||| n == 0x00A0
    ||| n == 0x1680
    ||| 0x2000 <= n <= 0x200A
    ||| n == 0x2028
    ||| n == 0x2029
    ||| n == 0x202F
    ||| n == 0x205F
    ||| n == 0x3000
}

/// Calls `char::is_whitespace`, which says whether a character has
/// Unicode's property White_Space. The contract names the characters that
/// have it; the answer depends on the character alone.
#[verifier::external_body]
pub(crate) fn is_whitespace(c: char) -> (b: bool)
    ensures
        b == white_space(c),
{
    c.is_whitespace()
}

/// `s` without its leading white space.
pub open spec fn trim_start(s: Seq<char>) -> Seq<char>
    decreases s.len(),
{
    if s.len() > 0 && white_space(s.first()) {
        trim_start(s.drop_first())
    } else {
        s
    }
}

/// `s` without its trailing white space.
pub open spec fn trim_end(s: Seq<char>) -> Seq<char>
    decreases s.len(),
{
    if s.len() > 0 && white_space(s.last()) {
        trim_end(s.drop_last())
    } else {
        s
    }
}

/// `s` without leading and trailing white space.
pub open spec fn trimmed(s: Seq<char>) -> Seq<char> {
    trim_end(trim_start(s))
}

/// A text is blank when nothing but white space is in it.
pub open spec fn blank(s: Seq<char>) -> bool {
    trimmed(s).len() == 0
}

/// For each character of `s`, whether it is white space.
pub open spec fn white_marks(s: Seq<char>) -> Seq<bool> {
    s.map_values(|c: char| white_space(c))
}

/// `ends` are the two ends of the piece that stays when the marked places
/// are cut off at both sides: it begins at the first place that is not
/// marked and ends behind the last one; where every place is marked it is
/// the empty piece at the very end.
pub open spec fn is_core(marks: Seq<bool>, ends: (int, int)) -> bool {
    &&& 0 <= ends.0 <= ends.1 <= marks.len()
    &&& forall|i: int| 0 <= i < ends.0 ==> marks[i]
    &&& forall|i: int| ends.1 <= i < marks.len() ==> marks[i]
    &&& ends.0 < ends.1 ==> !marks[ends.0] && !marks[ends.1 - 1]
    &&& ends.0 == ends.1 ==> ends.0 == marks.len()
}

/// For each character of `s`, whether it is white space.
pub fn mark_white(s: &str) -> (marks: Vec<bool>)
    ensures
        marks@ == white_marks(s@),
{
    let mut marks: Vec<bool> = Vec::new();
    for c in it: s.chars()
        invariant
            it.seq() == s@,
            marks@.len() == it.index(),
            forall|k: int| 0 <= k < marks@.len() ==> marks@[k] == white_space(s@[k]),
    {
        marks.push(is_whitespace(c));
    }
    assert(marks@ =~= white_marks(s@));
    marks
}

/// Finds the piece that stays when the marked places are cut off at both sides.
pub fn find_core(marks: &Vec<bool>) -> (ends: (usize, usize))
    ensures
        is_core(marks@, (ends.0 as int, ends.1 as int)),
{
    let n: usize = marks.len();
    let mut from: usize = 0;
    while from < n && marks[from]
        invariant
            from <= n,
            n == marks@.len(),
            forall|i: int| 0 <= i < from ==> marks@[i],
        decreases n - from,
    {
        from = from + 1;
    }
    let mut upto: usize = n;
    while from < upto && marks[upto - 1]
        invariant
            from <= upto <= n,
            n == marks@.len(),
            from < n ==> !marks@[from as int],
            forall|i: int| upto <= i < n ==> marks@[i],
        decreases upto - from,
    {
        upto = upto - 1;
    }
    (from, upto)
}

/// Removes leading and trailing white space.
pub fn trim(s: &str) -> (r: String)
    ensures
        r@ == trimmed(s@),
{
    let marks = mark_white(s);
    let (from, upto) = find_core(&marks);
    proof {
        core_is_trimmed(s@, from as int, upto as int);
    }
    s.substring_char(from, upto).to_owned()
}

/// The piece of a text that stays when its white space is cut off at both
/// sides is the trimmed text.
pub proof fn core_is_trimmed(s: Seq<char>, from: int, upto: int)
    requires
        is_core(white_marks(s), (from, upto)),
    ensures
        trimmed(s) == s.subrange(from, upto),
{
    let n = s.len() as int;
    let marks = white_marks(s);
    assert forall|i: int| 0 <= i < from implies white_space(s[i]) by {
        assert(marks[i]);
    }
    if from < n {
        if from < upto {
            assert(!marks[from]);
        }
    }
    cut_start(s, from);
    let rest = s.subrange(from, n);
    assert forall|i: int| upto - from <= i < rest.len() implies white_space(rest[i]) by {
        assert(marks[i + from]);
    }
    if upto > from {
        assert(!marks[upto - 1]);
        assert(rest[upto - from - 1] == s[upto - 1]);
    }
    cut_end(rest, upto - from);
    assert(rest.subrange(0, upto - from) =~= s.subrange(from, upto));
}

/// Where the first `from` characters are white space and the next one is
/// not, `trim_start` cuts off exactly those.
proof fn cut_start(s: Seq<char>, from: int)
    requires
        0 <= from <= s.len(),
        forall|i: int| 0 <= i < from ==> white_space(s[i]),
        from < s.len() ==> !white_space(s[from]),
    ensures
        trim_start(s) == s.subrange(from, s.len() as int),
    decreases from,
{
    if from == 0 {
        assert(s.subrange(0, s.len() as int) =~= s);
    } else {
        let rest = s.drop_first();
        assert(white_space(s[0]));
        assert forall|i: int| 0 <= i < from - 1 implies white_space(rest[i]) by {
            assert(rest[i] == s[i + 1]);
        }
        cut_start(rest, from - 1);
        assert(rest.subrange(from - 1, rest.len() as int) =~= s.subrange(from, s.len() as int));
    }
}

/// Where all from `upto` on is white space and the character before is
/// not, `trim_end` cuts off exactly that.
proof fn cut_end(s: Seq<char>, upto: int)
    requires
        0 <= upto <= s.len(),
        forall|i: int| upto <= i < s.len() ==> white_space(s[i]),
        upto > 0 ==> !white_space(s[upto - 1]),
    ensures
        trim_end(s) == s.subrange(0, upto),
    decreases s.len() - upto,
{
    if upto == s.len() {
        assert(s.subrange(0, s.len() as int) =~= s);
    } else {
        let rest = s.drop_last();
        assert(white_space(s[s.len() - 1]));
        cut_end(rest, upto);
        assert(rest.subrange(0, upto) =~= s.subrange(0, upto));
    }
}

} // verus!
