//! The version normalizer: strips double quotes, trims surrounding white
//! space, and guarantees a leading `v`.

use vstd::prelude::*;
use crate::text::chars_of;
use crate::text::string_from_chars;

verus! {

/// A character of the Unicode white-space set, exactly the characters that
/// `str::trim` removes.
pub open spec fn is_space_char(c: char) -> bool {
    ||| c == '\u{9}'
    ||| c == '\u{A}'
    ||| c == '\u{B}'
    ||| c == '\u{C}'
    ||| c == '\u{D}'
    ||| c == ' '
    ||| c == '\u{85}'
    ||| c == '\u{A0}'
    ||| c == '\u{1680}'
    ||| c == '\u{2000}'
    ||| c == '\u{2001}'
    ||| c == '\u{2002}'
    ||| c == '\u{2003}'
    ||| c == '\u{2004}'
    ||| c == '\u{2005}'
    ||| c == '\u{2006}'
    ||| c == '\u{2007}'
    ||| c == '\u{2008}'
    ||| c == '\u{2009}'
    ||| c == '\u{200A}'
    ||| c == '\u{2028}'
    ||| c == '\u{2029}'
    ||| c == '\u{202F}'
    ||| c == '\u{205F}'
    ||| c == '\u{3000}'
}

/// `s` with every double-quote character removed.
pub open spec fn strip_quotes(s: Seq<char>) -> Seq<char>
    decreases s.len(),
{
    if s.len() == 0 {
        Seq::empty()
    } else if s.last() == '"' {
        strip_quotes(s.drop_last())
    } else {
        strip_quotes(s.drop_last()).push(s.last())
    }
}

/// `s` with leading and trailing white space removed.
pub open spec fn trim_spaces(s: Seq<char>) -> Seq<char>
    decreases s.len(),
{
    if s.len() == 0 {
        s
    } else if is_space_char(s[0]) {
        trim_spaces(s.drop_first())
    } else if is_space_char(s.last()) {
        trim_spaces(s.drop_last())
    } else {
        s
    }
}

/// The normalized form of a raw version string: quotes removed, surrounding
/// white space trimmed, and a `v` prefixed unless one is already there.
pub open spec fn normalize_spec(s: Seq<char>) -> Seq<char> {
    let t = trim_spaces(strip_quotes(s));
    if t.len() > 0 && t[0] == 'v' {
        t
    } else {
        seq!['v'] + t
    }
}

/// Whether `c` belongs to the Unicode white-space set.
pub fn is_space(c: char) -> (r: bool)
    ensures
        r == is_space_char(c),
{
    c == '\u{9}' || c == '\u{A}' || c == '\u{B}' || c == '\u{C}' || c == '\u{D}' || c == ' '
        || c == '\u{85}' || c == '\u{A0}' || c == '\u{1680}' || c == '\u{2000}' || c == '\u{2001}'
        || c == '\u{2002}' || c == '\u{2003}' || c == '\u{2004}' || c == '\u{2005}'
        || c == '\u{2006}' || c == '\u{2007}' || c == '\u{2008}' || c == '\u{2009}'
        || c == '\u{200A}' || c == '\u{2028}' || c == '\u{2029}' || c == '\u{202F}'
        || c == '\u{205F}' || c == '\u{3000}'
}

fn remove_quotes(s: &Vec<char>) -> (r: Vec<char>)
    ensures
        r@ == strip_quotes(s@),
{
    let mut r: Vec<char> = Vec::new();
    let mut i: usize = 0;
    while i < s.len()
        invariant
            i <= s@.len(),
            r@ == strip_quotes(s@.subrange(0, i as int)),
        decreases s@.len() - i,
    {
        let c = s[i];
        proof {
            assert(s@.subrange(0, i + 1 as int).drop_last() =~= s@.subrange(0, i as int));
            assert(s@.subrange(0, i + 1 as int).last() == s@[i as int]);
        }
        if c != '"' {
            r.push(c);
        }
        i += 1;
    }
    proof {
        assert(s@.subrange(0, s@.len() as int) =~= s@);
    }
    r
}

proof fn lemma_trim_all_spaces(s: Seq<char>)
    requires
        forall|k: int| 0 <= k < s.len() ==> is_space_char(s[k]),
    ensures
        trim_spaces(s).len() == 0,
    decreases s.len(),
{
    if s.len() > 0 {
        lemma_trim_all_spaces(s.drop_first());
    }
}

proof fn lemma_trim_exact(s: Seq<char>, a: int, b: int)
    requires
        0 <= a <= b < s.len(),
        !is_space_char(s[a]),
        !is_space_char(s[b]),
        forall|k: int| 0 <= k < a ==> is_space_char(s[k]),
        forall|k: int| b < k < s.len() ==> is_space_char(s[k]),
    ensures
        trim_spaces(s) == s.subrange(a, b + 1),
    decreases s.len(),
{
    if a > 0 {
        lemma_trim_exact(s.drop_first(), a - 1, b - 1);
        assert(s.drop_first().subrange(a - 1, b) =~= s.subrange(a, b + 1));
    } else if b < s.len() - 1 {
        lemma_trim_exact(s.drop_last(), a, b);
        assert(s.drop_last().subrange(a, b + 1) =~= s.subrange(a, b + 1));
    } else {
        assert(s.subrange(0, s.len() as int) =~= s);
    }
}

fn trim_vec(s: &Vec<char>) -> (r: Vec<char>)
    ensures
        r@ == trim_spaces(s@),
{
    let mut a: usize = 0;
    while a < s.len() && is_space(s[a])
        invariant
            a <= s@.len(),
            forall|k: int| 0 <= k < a ==> is_space_char(s@[k]),
        decreases s@.len() - a,
    {
        a += 1;
    }
    if a == s.len() {
        proof {
            lemma_trim_all_spaces(s@);
            assert(trim_spaces(s@) =~= Seq::<char>::empty());
        }
        return Vec::new();
    }
    let mut b: usize = s.len() - 1;
    while is_space(s[b])
        invariant
            a <= b < s@.len(),
            !is_space_char(s@[a as int]),
            forall|k: int| b < k < s@.len() ==> is_space_char(s@[k]),
        decreases b,
    {
        b -= 1;
    }
    proof {
        lemma_trim_exact(s@, a as int, b as int);
    }
    let mut r: Vec<char> = Vec::new();
    let mut i: usize = a;
    while i <= b
        invariant
            a <= i <= b + 1,
            b < s@.len() <= usize::MAX,
            r@ == s@.subrange(a as int, i as int),
        decreases b + 1 - i,
    {
        r.push(s[i]);
        proof {
            assert(s@.subrange(a as int, i as int).push(s@[i as int]) =~= s@.subrange(
                a as int,
                i + 1 as int,
            ));
        }
        i += 1;
    }
    r
}

proof fn lemma_strip_no_quotes(s: Seq<char>)
    ensures
        forall|k: int| 0 <= k < strip_quotes(s).len() ==> strip_quotes(s)[k] != '"',
    decreases s.len(),
{
    if s.len() > 0 {
        lemma_strip_no_quotes(s.drop_last());
        let q = strip_quotes(s.drop_last());
        if s.last() != '"' {
            assert forall|k: int| 0 <= k < strip_quotes(s).len() implies strip_quotes(s)[k]
                != '"' by {
                if k < q.len() {
                    assert(strip_quotes(s)[k] == q[k]);
                } else {
                    assert(strip_quotes(s)[k] == s.last());
                }
            }
        }
    }
}

proof fn lemma_strip_id(s: Seq<char>)
    requires
        forall|k: int| 0 <= k < s.len() ==> s[k] != '"',
    ensures
        strip_quotes(s) == s,
    decreases s.len(),
{
    if s.len() > 0 {
        lemma_strip_id(s.drop_last());
        assert(s.drop_last().push(s.last()) =~= s);
    } else {
        assert(strip_quotes(s) =~= s);
    }
}

proof fn lemma_trim_no_quotes(s: Seq<char>)
    requires
        forall|k: int| 0 <= k < s.len() ==> s[k] != '"',
    ensures
        forall|k: int| 0 <= k < trim_spaces(s).len() ==> trim_spaces(s)[k] != '"',
    decreases s.len(),
{
    if s.len() == 0 {
    } else if is_space_char(s[0]) {
        assert forall|k: int| 0 <= k < s.drop_first().len() implies s.drop_first()[k] != '"' by {
            assert(s.drop_first()[k] == s[k + 1]);
        }
        lemma_trim_no_quotes(s.drop_first());
    } else if is_space_char(s.last()) {
        assert forall|k: int| 0 <= k < s.drop_last().len() implies s.drop_last()[k] != '"' by {
            assert(s.drop_last()[k] == s[k]);
        }
        lemma_trim_no_quotes(s.drop_last());
    }
    assert forall|k: int| 0 <= k < trim_spaces(s).len() implies trim_spaces(s)[k] != '"' by {
        if s.len() == 0 {
        } else if is_space_char(s[0]) {
            assert(trim_spaces(s)[k] == trim_spaces(s.drop_first())[k]);
        } else if is_space_char(s.last()) {
            assert(trim_spaces(s)[k] == trim_spaces(s.drop_last())[k]);
        } else {
            assert(trim_spaces(s)[k] == s[k]);
        }
    }
}

proof fn lemma_trim_ends(s: Seq<char>)
    ensures
        trim_spaces(s).len() > 0 ==> !is_space_char(trim_spaces(s)[0]) && !is_space_char(
            trim_spaces(s).last(),
        ),
    decreases s.len(),
{
    if s.len() == 0 {
    } else if is_space_char(s[0]) {
        lemma_trim_ends(s.drop_first());
    } else if is_space_char(s.last()) {
        lemma_trim_ends(s.drop_last());
    }
}

/// The normalized form of any string is non-empty and begins with `v`.
pub proof fn lemma_normalize_starts_with_v(s: Seq<char>)
    ensures
        normalize_spec(s).len() > 0,
        normalize_spec(s)[0] == 'v',
{
    let t = trim_spaces(strip_quotes(s));
    if !(t.len() > 0 && t[0] == 'v') {
        assert((seq!['v'] + t)[0] == 'v');
    }
}

/// A clean version value — no double quotes, no surrounding white space —
/// is kept verbatim: at most a `v` is put in front. Pre-release or build
/// suffixes in particular survive normalization unchanged.
pub proof fn lemma_normalize_verbatim(s: Seq<char>)
    requires
        forall|k: int| 0 <= k < s.len() ==> s[k] != '"',
        s.len() > 0 ==> !is_space_char(s[0]) && !is_space_char(s.last()),
    ensures
        s.len() > 0 && s[0] == 'v' ==> normalize_spec(s) == s,
        !(s.len() > 0 && s[0] == 'v') ==> normalize_spec(s) == seq!['v'] + s,
{
    lemma_strip_id(s);
}

/// Normalization is idempotent: normalizing an already-normalized string
/// changes nothing.
pub proof fn lemma_normalize_idempotent(s: Seq<char>)
    ensures
        normalize_spec(normalize_spec(s)) == normalize_spec(s),
{
    let t = trim_spaces(strip_quotes(s));
    let n = normalize_spec(s);
    lemma_strip_no_quotes(s);
    lemma_trim_no_quotes(strip_quotes(s));
    lemma_trim_ends(strip_quotes(s));
    assert forall|k: int| 0 <= k < n.len() implies n[k] != '"' by {
        if !(t.len() > 0 && t[0] == 'v') && k > 0 {
            assert(n[k] == t[k - 1]);
        }
    }
    lemma_strip_id(n);
    assert(n.len() > 0);
    assert(!is_space_char(n[0]));
    assert(!is_space_char(n.last())) by {
        if !(t.len() > 0 && t[0] == 'v') {
            if t.len() > 0 {
                assert(n.last() == t.last());
            } else {
                assert(n =~= seq!['v']);
            }
        }
    }
    assert(trim_spaces(n) == n);
    assert(normalize_spec(n) == n);
}

/// Normalizes a raw version string: removes every double quote, trims
/// surrounding white space, and prefixes `v` unless the result already
/// starts with `v`.
pub fn format_version(version: &str) -> (r: String)
    ensures
        r@ == normalize_spec(version@),
{
    let cs = chars_of(version);
    let stripped = remove_quotes(&cs);
    let trimmed = trim_vec(&stripped);
    if trimmed.len() > 0 && trimmed[0] == 'v' {
        string_from_chars(&trimmed)
    } else {
        let mut out: Vec<char> = Vec::new();
        out.push('v');
        let mut i: usize = 0;
        while i < trimmed.len()
            invariant
                i <= trimmed@.len(),
                out@ == seq!['v'] + trimmed@.subrange(0, i as int),
            decreases trimmed@.len() - i,
        {
            out.push(trimmed[i]);
            proof {
                assert((seq!['v'] + trimmed@.subrange(0, i as int)).push(trimmed@[i as int])
                    =~= seq!['v'] + trimmed@.subrange(0, i + 1 as int));
            }
            i += 1;
        }
        proof {
            assert(trimmed@.subrange(0, trimmed@.len() as int) =~= trimmed@);
        }
        string_from_chars(&out)
    }
}

} // verus!
