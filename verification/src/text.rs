//! Ordering of texts, character by character.

use vstd::prelude::*;
use vstd::string::*;

verus! {

/// Whether `a` comes before `b`, or equals it, in dictionary order by code
/// point.
pub open spec fn text_le(a: Seq<char>, b: Seq<char>) -> bool
    decreases a.len(),
{
    if a.len() == 0 {
        true
    } else if b.len() == 0 {
        false
    } else if a[0] != b[0] {
        (a[0] as u32) < (b[0] as u32)
    } else {
        text_le(a.drop_first(), b.drop_first())
    }
}

/// Distinct characters have distinct code points.
proof fn lemma_code_points_differ(x: char, y: char)
    requires
        x != y,
    ensures
        x as u32 != y as u32,
{
    assert(x as u32 as char == x);
    assert(y as u32 as char == y);
}

/// Of two texts one comes before the other.
pub proof fn lemma_text_le_total(a: Seq<char>, b: Seq<char>)
    ensures
        text_le(a, b) || text_le(b, a),
    decreases a.len(),
{
    if a.len() > 0 && b.len() > 0 {
        if a[0] == b[0] {
            lemma_text_le_total(a.drop_first(), b.drop_first());
        } else {
            lemma_code_points_differ(a[0], b[0]);
        }
    }
}

/// Two texts that come before each other are the same text.
pub proof fn lemma_text_le_antisymmetric(a: Seq<char>, b: Seq<char>)
    requires
        text_le(a, b),
        text_le(b, a),
    ensures
        a == b,
    decreases a.len(),
{
    if a.len() == 0 {
        assert(b.len() == 0);
        assert(a =~= b);
    } else {
        assert(b.len() > 0);
        assert(a[0] == b[0]);
        lemma_text_le_antisymmetric(a.drop_first(), b.drop_first());
        assert(a =~= seq![a[0]] + a.drop_first());
        assert(b =~= seq![b[0]] + b.drop_first());
    }
}

/// Once two texts agree on their first `i` characters, their order is that
/// of what follows.
proof fn lemma_text_le_skip(a: Seq<char>, b: Seq<char>, i: int)
    requires
        0 <= i <= a.len(),
        i <= b.len(),
        forall|j: int| 0 <= j < i ==> a[j] == b[j],
    ensures
        text_le(a, b) == text_le(a.skip(i), b.skip(i)),
    decreases i,
{
    if i == 0 {
        assert(a.skip(0) =~= a);
        assert(b.skip(0) =~= b);
    } else {
        lemma_text_le_skip(a, b, i - 1);
        let x = a.skip(i - 1);
        let y = b.skip(i - 1);
        assert(x[0] == a[i - 1]);
        assert(y[0] == b[i - 1]);
        assert(x.drop_first() =~= a.skip(i));
        assert(y.drop_first() =~= b.skip(i));
    }
}

/// Decides [`text_le`].
pub fn text_before(a: &str, b: &str) -> (le: bool)
    ensures
        le == text_le(a@, b@),
{
    let n = a.unicode_len();
    let m = b.unicode_len();
    let mut i: usize = 0;
    while i < n && i < m
        invariant
            n == a@.len(),
            m == b@.len(),
            i <= n,
            i <= m,
            forall|j: int| 0 <= j < i ==> a@[j] == b@[j],
        decreases n - i,
    {
        let x = a.get_char(i);
        let y = b.get_char(i);
        if x != y {
            proof {
                lemma_text_le_skip(a@, b@, i as int);
                assert(a@.skip(i as int)[0] == x);
                assert(b@.skip(i as int)[0] == y);
            }
            return (x as u32) < (y as u32);
        }
        i += 1;
    }
    proof {
        lemma_text_le_skip(a@, b@, i as int);
    }
    i == n
}

/// Whether two texts are the same.
pub fn text_eq(a: &str, b: &str) -> (same: bool)
    ensures
        same == (a@ == b@),
{
    String::from_str(a) == String::from_str(b)
}

/// Whether `text` begins with `prefix`.
pub open spec fn begins_with(text: Seq<char>, prefix: Seq<char>) -> bool {
    prefix.len() <= text.len() && text.take(prefix.len() as int) == prefix
}

/// Decides [`begins_with`].
pub fn starts_with(text: &str, prefix: &str) -> (yes: bool)
    ensures
        yes == begins_with(text@, prefix@),
{
    let n = text.unicode_len();
    let m = prefix.unicode_len();
    if m > n {
        return false;
    }
    let mut i: usize = 0;
    while i < m
        invariant
            n == text@.len(),
            m == prefix@.len(),
            m <= n,
            i <= m,
            forall|j: int| 0 <= j < i ==> text@[j] == prefix@[j],
        decreases m - i,
    {
        if text.get_char(i) != prefix.get_char(i) {
            assert(text@.take(m as int)[i as int] != prefix@[i as int]);
            return false;
        }
        i += 1;
    }
    assert(text@.take(m as int) =~= prefix@);
    true
}

/// What is left of `text` behind its first `count` characters.
pub fn skip_chars(text: &str, count: usize) -> (rest: String)
    requires
        count <= text@.len(),
    ensures
        rest@ == text@.skip(count as int),
{
    let n = text.unicode_len();
    let rest = text.substring_char(count, n);
    assert(text@.subrange(count as int, n as int) =~= text@.skip(count as int));
    String::from_str(rest)
}

/// How one character is written inside the first part of a joined text:
/// an underscore as `~u`, a tilde as `~~`, any other character as itself.
pub open spec fn escaped_char(c: char) -> Seq<char> {
    if c == '_' {
        seq!['~', 'u']
    } else if c == '~' {
        seq!['~', '~']
    } else {
        seq![c]
    }
}

/// `text` with each of its characters written as [`escaped_char`] says. What
/// comes out holds no underscore.
pub open spec fn escaped(text: Seq<char>) -> Seq<char>
    decreases text.len(),
{
    if text.len() == 0 {
        Seq::empty()
    } else {
        escaped_char(text[0]) + escaped(text.drop_first())
    }
}

/// Two texts joined into one, from which both can be told again: the first
/// escaped, an underscore, the second as it is.
pub open spec fn joined(first: Seq<char>, second: Seq<char>) -> Seq<char> {
    escaped(first) + seq!['_'] + second
}

/// Escaping goes character by character.
proof fn lemma_escaped_push(text: Seq<char>, c: char)
    ensures
        escaped(text.push(c)) == escaped(text) + escaped_char(c),
    decreases text.len(),
{
    if text.len() == 0 {
        let one = text.push(c);
        assert(one.drop_first() =~= Seq::<char>::empty());
        assert(one[0] == c);
        assert(escaped(one.drop_first()) =~= Seq::<char>::empty());
        assert(escaped(text) =~= Seq::<char>::empty());
        assert(escaped(one) == escaped_char(c) + escaped(one.drop_first()));
        assert(escaped(one) =~= escaped(text) + escaped_char(c));
    } else {
        lemma_escaped_push(text.drop_first(), c);
        assert(text.push(c).drop_first() =~= text.drop_first().push(c));
        assert(text.push(c)[0] == text[0]);
        assert(escaped(text.push(c)) =~= escaped(text) + escaped_char(c));
    }
}

/// A joined text tells its two parts: texts that are joined into the same
/// text are the same.
pub proof fn lemma_joined_unambiguous(
    first: Seq<char>,
    second: Seq<char>,
    other_first: Seq<char>,
    other_second: Seq<char>,
)
    requires
        joined(first, second) == joined(other_first, other_second),
    ensures
        first == other_first,
        second == other_second,
    decreases first.len(),
{
    let left = joined(first, second);
    let right = joined(other_first, other_second);
    if first.len() == 0 {
        assert(left[0] == '_');
        if other_first.len() > 0 {
            assert(right[0] == escaped_char(other_first[0])[0]);
        }
        assert(other_first.len() == 0);
        assert(first =~= other_first);
        assert(second =~= left.drop_first());
        assert(other_second =~= right.drop_first());
    } else {
        let c = first[0];
        assert(left[0] == escaped_char(c)[0]);
        if other_first.len() == 0 {
            assert(right[0] == '_');
        }
        assert(other_first.len() > 0);
        let d = other_first[0];
        assert(right[0] == escaped_char(d)[0]);
        let rest = first.drop_first();
        let other_rest = other_first.drop_first();
        if c == '_' || c == '~' {
            assert(left[1] == escaped_char(c)[1]);
            assert(d == '_' || d == '~');
            assert(right[1] == escaped_char(d)[1]);
            assert(c == d);
            assert(joined(rest, second) =~= left.skip(2));
            assert(joined(other_rest, other_second) =~= right.skip(2));
        } else {
            assert(d != '_' && d != '~');
            assert(c == d);
            assert(joined(rest, second) =~= left.skip(1));
            assert(joined(other_rest, other_second) =~= right.skip(1));
        }
        lemma_joined_unambiguous(rest, second, other_rest, other_second);
        assert(first =~= seq![c] + rest);
        assert(other_first =~= seq![d] + other_rest);
    }
}

/// Writes `text` with its underscores and tildes escaped.
pub fn escape(text: &str) -> (out: String)
    ensures
        out@ == escaped(text@),
{
    let n = text.unicode_len();
    let mut out = String::new();
    let mut i: usize = 0;
    proof {
        reveal_strlit("~u");
        reveal_strlit("~~");
        assert(text@.take(0) =~= Seq::<char>::empty());
    }
    while i < n
        invariant
            n == text@.len(),
            i <= n,
            out@ == escaped(text@.take(i as int)),
            "~u"@ == seq!['~', 'u'],
            "~~"@ == seq!['~', '~'],
        decreases n - i,
    {
        let c = text.get_char(i);
        proof {
            lemma_escaped_push(text@.take(i as int), c);
            assert(text@.take(i as int).push(c) =~= text@.take(i + 1));
        }
        if c == '_' {
            out.append("~u");
        } else if c == '~' {
            out.append("~~");
        } else {
            let piece = text.substring_char(i, i + 1);
            assert(piece@ =~= seq![c]);
            out.append(piece);
        }
        i += 1;
    }
    assert(text@.take(n as int) =~= text@);
    out
}

/// Joins two texts as [`joined`] says.
pub fn join(first: &str, second: &str) -> (out: String)
    ensures
        out@ == joined(first@, second@),
{
    proof {
        reveal_strlit("_");
        assert("_"@ =~= seq!['_']);
    }
    escape(first).concat("_").concat(second)
}

/// The view of an optional text.
pub open spec fn option_text(text: Option<String>) -> Option<Seq<char>> {
    match text {
        Some(text) => Some(text@),
        None => None,
    }
}

} // verus!
