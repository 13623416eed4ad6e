//! Small string helpers shared by the type generation logic.
use vstd::prelude::*;

verus! {

broadcast use vstd::string::axiom_spec_iter;

/// Whether two strings hold the same characters.
pub fn same_text(a: &str, b: &str) -> (res: bool)
    ensures
        res == (a@ == b@),
{
    let a = String::from_str(a);
    let b = String::from_str(b);
    a == b
}

/// Whether `needle` occurs in `list`.
pub fn contains_text(list: &Vec<String>, needle: &str) -> (res: bool)
    ensures
        res == exists|i: int| 0 <= i < list@.len() && #[trigger] list@[i]@ == needle@,
{
    let mut i: usize = 0;
    while i < list.len()
        invariant
            0 <= i <= list@.len(),
            forall|j: int| 0 <= j < i ==> #[trigger] list@[j]@ != needle@,
        decreases list.len() - i,
    {
        if same_text(list[i].as_str(), needle) {
            return true;
        }
        i = i + 1;
    }
    false
}

/// The characters of each string, in order.
pub open spec fn texts(v: Seq<String>) -> Seq<Seq<char>> {
    v.map_values(|s: String| s@)
}

/// `v` with `s` pushed, as characters.
pub proof fn lemma_texts_push(v: Seq<String>, s: String)
    ensures
        texts(v.push(s)) == texts(v).push(s@),
{
    assert(texts(v.push(s)) =~= texts(v).push(s@));
}

/// `s` with each occurrence of `from` replaced by `to`, scanning from the
/// front and resuming after each replaced occurrence, so occurrences do not
/// overlap. Meant for a nonempty `from`; an empty one replaces nothing.
pub open spec fn replaced(s: Seq<char>, from: Seq<char>, to: Seq<char>) -> Seq<char>
    decreases s.len(),
{
    if s.len() == 0 || from.len() == 0 {
        s
    } else if from.len() <= s.len() && s.take(from.len() as int) == from {
        to + replaced(s.skip(from.len() as int), from, to)
    } else {
        seq![s[0]] + replaced(s.skip(1), from, to)
    }
}

/// The characters of `s`, in order.
pub fn chars_of(s: &str) -> (v: Vec<char>)
    ensures
        v@ == s@,
{
    let mut v: Vec<char> = Vec::new();
    for c in it: s.chars()
        invariant
            v@ == it.seq().take(it.index() as int),
    {
        v.push(c);
    }
    v
}

/// Calls `String::push`, which appends the character `c` to `s`.
#[verifier::external_body]
fn push_char(s: &mut String, c: char)
    ensures
        final(s)@ == old(s)@.push(c),
{
    s.push(c);
}

/// The string made of the characters `chars`, in order.
pub fn string_of(chars: &Vec<char>) -> (s: String)
    ensures
        s@ == chars@,
{
    let mut s = String::new();
    let mut i: usize = 0;
    while i < chars.len()
        invariant
            0 <= i <= chars@.len(),
            s@ == chars@.take(i as int),
        decreases chars.len() - i,
    {
        push_char(&mut s, chars[i]);
        proof {
            assert(chars@.take(i + 1) == chars@.take(i as int).push(chars@[i as int]));
        }
        i = i + 1;
    }
    proof {
        assert(chars@.take(i as int) == chars@);
    }
    s
}

/// Whether `pattern` occurs in `text` at position `i`.
fn occurs_at(text: &Vec<char>, i: usize, pattern: &Vec<char>) -> (b: bool)
    requires
        i <= text@.len(),
    ensures
        b == (pattern@.len() <= text@.len() - i && text@.subrange(i as int, i + pattern@.len()) == pattern@),
{
    if pattern.len() > text.len() - i {
        return false;
    }
    let n = text.len();
    let mut j: usize = 0;
    while j < pattern.len()
        invariant
            0 <= j <= pattern@.len(),
            n == text@.len(),
            i + pattern@.len() <= n,
            forall|t: int| 0 <= t < j ==> text@[i + t] == pattern@[t],
        decreases pattern.len() - j,
    {
        if text[i + j] != pattern[j] {
            assert(text@.subrange(i as int, i + pattern@.len())[j as int] != pattern@[j as int]);
            return false;
        }
        j = j + 1;
    }
    assert(text@.subrange(i as int, i + pattern@.len()) =~= pattern@);
    true
}

/// `out` with `more` appended.
fn push_all(out: &mut Vec<char>, more: &Vec<char>)
    ensures
        final(out)@ == old(out)@ + more@,
{
    let mut j: usize = 0;
    while j < more.len()
        invariant
            0 <= j <= more@.len(),
            out@ == old(out)@ + more@.take(j as int),
        decreases more.len() - j,
    {
        out.push(more[j]);
        proof {
            assert(more@.take(j + 1) == more@.take(j as int).push(more@[j as int]));
        }
        j = j + 1;
    }
    proof {
        assert(more@.take(j as int) == more@);
    }
}

/// The characters of `text` with each occurrence of `from` replaced by `to`.
fn replace_chars(text: &Vec<char>, from: &Vec<char>, to: &Vec<char>) -> (res: Vec<char>)
    requires
        from@.len() > 0,
    ensures
        res@ == replaced(text@, from@, to@),
{
    let n = text.len();
    let k = from.len();
    let mut out: Vec<char> = Vec::new();
    let mut i: usize = 0;
    proof {
        assert(text@.skip(0) == text@);
        assert(out@ + replaced(text@.skip(0), from@, to@) =~= replaced(text@, from@, to@));
    }
    while i < n
        invariant
            0 <= i <= n,
            n == text@.len(),
            k == from@.len(),
            k > 0,
            out@ + replaced(text@.skip(i as int), from@, to@) == replaced(text@, from@, to@),
        decreases n - i,
    {
        let ghost before = out@;
        let ghost rest = text@.skip(i as int);
        if occurs_at(text, i, from) {
            proof {
                assert(rest.take(k as int) =~= text@.subrange(i as int, i + k));
                assert(rest.skip(k as int) =~= text@.skip(i + k));
                assert(replaced(rest, from@, to@) == to@ + replaced(text@.skip(i + k), from@, to@));
            }
            push_all(&mut out, to);
            proof {
                assert(before + (to@ + replaced(text@.skip(i + k), from@, to@)) =~= out@ + replaced(
                    text@.skip(i + k),
                    from@,
                    to@,
                ));
            }
            i = i + k;
        } else {
            proof {
                if k <= rest.len() {
                    assert(rest.take(k as int) =~= text@.subrange(i as int, i + k));
                }
                assert(rest.skip(1) =~= text@.skip(i + 1));
                assert(rest[0] == text@[i as int]);
                assert(replaced(rest, from@, to@) == seq![text@[i as int]] + replaced(text@.skip(i + 1), from@, to@));
            }
            out.push(text[i]);
            proof {
                assert(before + (seq![text@[i as int]] + replaced(text@.skip(i + 1), from@, to@)) =~= out@
                    + replaced(text@.skip(i + 1), from@, to@));
            }
            i = i + 1;
        }
    }
    proof {
        assert(text@.skip(n as int) =~= Seq::<char>::empty());
        assert(out@ + Seq::<char>::empty() =~= out@);
    }
    out
}

/// `text` with each occurrence of `from` replaced by `to`, as `str::replace`
/// does for a nonempty pattern.
pub fn replace_all(text: &str, from: &str, to: &str) -> (res: String)
    requires
        from@.len() > 0,
    ensures
        res@ == replaced(text@, from@, to@),
{
    let t = chars_of(text);
    let f = chars_of(from);
    let r = chars_of(to);
    let out = replace_chars(&t, &f, &r);
    string_of(&out)
}

} // verus!
