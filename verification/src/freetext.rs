//! Verified scanners for the free-text manifest formats: the line-anchored
//! Gradle `version '...'` statement and the Mix `version: "..."` attribute.

use vstd::prelude::*;

verus! {

/// The index of the first occurrence of `c` at or after `k`, or `s.len()`
/// if there is none.
pub open spec fn find_from(s: Seq<char>, k: int, c: char) -> int
    decreases s.len() - k,
{
    if k < 0 || k >= s.len() {
        s.len() as int
    } else if s[k] == c {
        k
    } else {
        find_from(s, k + 1, c)
    }
}

pub proof fn lemma_find_from(s: Seq<char>, k: int, c: char)
    requires
        0 <= k <= s.len(),
    ensures
        k <= find_from(s, k, c) <= s.len(),
        forall|j: int| k <= j < find_from(s, k, c) ==> s[j] != c,
        find_from(s, k, c) < s.len() ==> s[find_from(s, k, c)] == c,
    decreases s.len() - k,
{
    if k < s.len() && s[k] != c {
        lemma_find_from(s, k + 1, c);
    }
}

/// Whether `i` begins a line of `s`.
pub open spec fn is_line_start(s: Seq<char>, i: int) -> bool {
    i == 0 || s[i - 1] == '\n'
}

/// The line of `s` beginning at `i`: the characters up to the next newline
/// or the end of the text.
pub open spec fn line_at(s: Seq<char>, i: int) -> Seq<char> {
    s.subrange(i, find_from(s, i, '\n'))
}

/// The eight characters `version` followed by a space.
pub open spec fn gradle_kw() -> Seq<char> {
    seq!['v', 'e', 'r', 's', 'i', 'o', 'n', ' ']
}

/// A bare top-level Gradle version statement: the whole line is `version `,
/// then a version between matching single or double quotes, non-empty and
/// with no embedded quote of that kind. Yields the quoted value.
pub open spec fn gradle_line_version(line: Seq<char>) -> Option<Seq<char>> {
    if line.len() >= 11 && line.subrange(0, 8) == gradle_kw() && (line[8] == '\'' || line[8]
        == '"') && line.last() == line[8] && (forall|k: int|
        9 <= k < line.len() - 1 ==> #[trigger] line[k] != line[8]) {
        Some(line.subrange(9, line.len() - 1))
    } else {
        None
    }
}

/// The value of the first line of `s`, at or after position `i`, that is a
/// bare Gradle version statement.
pub open spec fn gradle_find_from(s: Seq<char>, i: int) -> Option<Seq<char>>
    decreases s.len() - i,
{
    if i < 0 || i >= s.len() {
        None
    } else if is_line_start(s, i) && (gradle_line_version(line_at(s, i)) is Some) {
        gradle_line_version(line_at(s, i))
    } else {
        gradle_find_from(s, i + 1)
    }
}

/// The ten characters `version: "`.
pub open spec fn mix_kw() -> Seq<char> {
    seq!['v', 'e', 'r', 's', 'i', 'o', 'n', ':', ' ', '"']
}

/// Whether a Mix version attribute `version: "..."` with a non-empty value
/// begins at position `i` of `s`.
pub open spec fn mix_match_at(s: Seq<char>, i: int) -> bool {
    &&& 0 <= i
    &&& i + 10 <= s.len()
    &&& s.subrange(i, i + 10) == mix_kw()
    &&& i + 10 < find_from(s, i + 10, '"') < s.len()
}

/// The value captured by the Mix version attribute at position `i`: the
/// characters between the opening quote and the first quote after it.
pub open spec fn mix_value_at(s: Seq<char>, i: int) -> Seq<char> {
    s.subrange(i + 10, find_from(s, i + 10, '"'))
}

/// The value of the first Mix version attribute at or after position `i`.
pub open spec fn mix_find_from(s: Seq<char>, i: int) -> Option<Seq<char>>
    decreases s.len() - i,
{
    if i < 0 || i >= s.len() {
        None
    } else if mix_match_at(s, i) {
        Some(mix_value_at(s, i))
    } else {
        mix_find_from(s, i + 1)
    }
}

fn find_char(s: &Vec<char>, k: usize, c: char) -> (r: usize)
    requires
        k <= s@.len(),
    ensures
        r == find_from(s@, k as int, c),
{
    let mut i = k;
    while i < s.len()
        invariant
            k <= i <= s@.len(),
            find_from(s@, k as int, c) == find_from(s@, i as int, c),
        decreases s@.len() - i,
    {
        if s[i] == c {
            return i;
        }
        i += 1;
    }
    i
}

fn has_seq_at(s: &Vec<char>, i: usize, pat: &Vec<char>) -> (r: bool)
    requires
        i + pat@.len() <= s@.len(),
    ensures
        r == (s@.subrange(i as int, i + pat@.len()) == pat@),
{
    proof {
        assert(s@.len() == s.len());
    }
    let mut k: usize = 0;
    while k < pat.len()
        invariant
            k <= pat@.len(),
            i + pat@.len() <= s@.len() <= usize::MAX,
            forall|m: int| 0 <= m < k ==> s@[i + m] == pat@[m],
        decreases pat@.len() - k,
    {
        if s[i + k] != pat[k] {
            proof {
                assert(s@.subrange(i as int, i + pat@.len())[k as int] == s@[i + k]);
            }
            return false;
        }
        k += 1;
    }
    proof {
        assert(s@.subrange(i as int, i + pat@.len()) =~= pat@);
    }
    true
}

fn gradle_kw_vec() -> (r: Vec<char>)
    ensures
        r@ == gradle_kw(),
{
    let mut r: Vec<char> = Vec::new();
    r.push('v');
    r.push('e');
    r.push('r');
    r.push('s');
    r.push('i');
    r.push('o');
    r.push('n');
    r.push(' ');
    proof {
        assert(r@ =~= gradle_kw());
    }
    r
}

fn mix_kw_vec() -> (r: Vec<char>)
    ensures
        r@ == mix_kw(),
{
    let mut r: Vec<char> = Vec::new();
    r.push('v');
    r.push('e');
    r.push('r');
    r.push('s');
    r.push('i');
    r.push('o');
    r.push('n');
    r.push(':');
    r.push(' ');
    r.push('"');
    proof {
        assert(r@ =~= mix_kw());
    }
    r
}

fn copy_range(s: &Vec<char>, from: usize, to: usize) -> (r: Vec<char>)
    requires
        from <= to <= s@.len(),
    ensures
        r@ == s@.subrange(from as int, to as int),
{
    let mut r: Vec<char> = Vec::new();
    let mut i = from;
    while i < to
        invariant
            from <= i <= to <= s@.len(),
            r@ == s@.subrange(from as int, i as int),
        decreases to - i,
    {
        r.push(s[i]);
        proof {
            assert(s@.subrange(from as int, i as int).push(s@[i as int]) =~= s@.subrange(
                from as int,
                i + 1 as int,
            ));
        }
        i += 1;
    }
    r
}

fn gradle_check_line(s: &Vec<char>, ls: usize, e: usize, kw: &Vec<char>) -> (r: Option<Vec<char>>)
    requires
        kw@ == gradle_kw(),
        ls <= e <= s@.len(),
        e == find_from(s@, ls as int, '\n'),
    ensures
        match r {
            Some(v) => gradle_line_version(line_at(s@, ls as int)) == Some(v@),
            None => gradle_line_version(line_at(s@, ls as int)) is None,
        },
{
    let ghost line = line_at(s@, ls as int);
    proof {
        assert(line.len() == e - ls);
    }
    if e - ls < 11 {
        return None;
    }
    if !has_seq_at(s, ls, kw) {
        proof {
            assert(line.subrange(0, 8) =~= s@.subrange(ls as int, ls + 8 as int));
        }
        return None;
    }
    proof {
        assert(line.subrange(0, 8) =~= s@.subrange(ls as int, ls + 8 as int));
    }
    let q = s[ls + 8];
    proof {
        assert(line[8] == q);
    }
    if !(q == '\'' || q == '"') {
        return None;
    }
    if s[e - 1] != q {
        proof {
            assert(line.last() == s@[e - 1]);
        }
        return None;
    }
    proof {
        assert(line.last() == s@[e - 1]);
    }
    proof {
        assert(line =~= s@.subrange(ls as int, e as int));
    }
    let mut k: usize = ls + 9;
    while k < e - 1
        invariant
            ls + 9 <= k <= e - 1,
            e <= s@.len(),
            11 <= e - ls,
            line == line_at(s@, ls as int),
            line =~= s@.subrange(ls as int, e as int),
            forall|m: int| 9 <= m < k - ls ==> #[trigger] line[m] != line[8],
            q == line[8],
        decreases e - k,
    {
        proof {
            assert(line[k - ls] == s@.subrange(ls as int, e as int)[k - ls]);
            assert(line[k - ls] == s@[k as int]);
        }
        if s[k] == q {
            return None;
        }
        k += 1;
    }
    let v = copy_range(s, ls + 9, e - 1);
    proof {
        assert(line.subrange(9, line.len() - 1) =~= s@.subrange(ls + 9 as int, e - 1 as int));
    }
    Some(v)
}

/// The value of the first bare `version '...'` line of `text`, scanning the
/// characters in order.
pub fn gradle_scan(text: &Vec<char>) -> (r: Option<Vec<char>>)
    ensures
        match r {
            Some(v) => gradle_find_from(text@, 0) == Some(v@),
            None => gradle_find_from(text@, 0) is None,
        },
{
    let kw = gradle_kw_vec();
    let mut i: usize = 0;
    while i < text.len()
        invariant
            i <= text@.len(),
            kw@ == gradle_kw(),
            gradle_find_from(text@, 0) == gradle_find_from(text@, i as int),
        decreases text@.len() - i,
    {
        if i == 0 || text[i - 1] == '\n' {
            proof {
                lemma_find_from(text@, i as int, '\n');
            }
            let e = find_char(text, i, '\n');
            match gradle_check_line(text, i, e, &kw) {
                Some(v) => {
                    return Some(v);
                },
                None => {},
            }
        }
        i += 1;
    }
    None
}

/// The value of the first `version: "..."` attribute of `text`, scanning
/// the characters in order.
pub fn mix_scan(text: &Vec<char>) -> (r: Option<Vec<char>>)
    ensures
        match r {
            Some(v) => mix_find_from(text@, 0) == Some(v@),
            None => mix_find_from(text@, 0) is None,
        },
{
    let kw = mix_kw_vec();
    let n = text.len();
    let mut i: usize = 0;
    while i < n
        invariant
            i <= n,
            n == text@.len(),
            kw@ == mix_kw(),
            mix_find_from(text@, 0) == mix_find_from(text@, i as int),
        decreases n - i,
    {
        if n - i >= 10 && has_seq_at(text, i, &kw) {
            proof {
                lemma_find_from(text@, i + 10 as int, '"');
            }
            let j = find_char(text, i + 10, '"');
            if i + 10 < j && j < text.len() {
                let v = copy_range(text, i + 10, j);
                return Some(v);
            }
        }
        i += 1;
    }
    None
}

} // verus!
