//! Generated source as a sequence of lines and indentation changes, and the
//! spelling of the numbers in it.
use vstd::prelude::*;

use super::super::text::texts;

verus! {

/// One line of generated source, or a change of indentation for the lines
/// after it.
#[derive(Debug)]
pub enum Line {
    /// A line, written at the current indentation; an empty one is a blank
    /// line.
    Text(String),
    /// Indent the lines that follow one level deeper.
    Indent,
    /// Indent the lines that follow one level less.
    Unindent,
}

/// A [`Line`] as plain values.
pub enum LineView {
    Text(Seq<char>),
    Indent,
    Unindent,
}

impl View for Line {
    type V = LineView;

    open spec fn view(&self) -> LineView {
        match self {
            Line::Text(s) => LineView::Text(s@),
            Line::Indent => LineView::Indent,
            Line::Unindent => LineView::Unindent,
        }
    }
}

/// The lines of `s` as plain values.
pub open spec fn views(s: Seq<Line>) -> Seq<LineView> {
    s.map_values(|l: Line| l@)
}

/// The line holding `s`.
pub open spec fn t(s: Seq<char>) -> LineView {
    LineView::Text(s)
}

/// A blank line.
pub open spec fn blank_view() -> LineView {
    LineView::Text(Seq::empty())
}

/// The line holding `s`.
pub fn text(s: &str) -> (l: Line)
    ensures
        l@ == t(s@),
{
    Line::Text(String::from_str(s))
}

/// The line holding `s`.
pub fn line(s: String) -> (l: Line)
    ensures
        l@ == t(s@),
{
    Line::Text(s)
}

/// A blank line.
pub fn blank() -> (l: Line)
    ensures
        l@ == blank_view(),
{
    Line::Text(String::new())
}

/// Append `more` to `out`.
pub fn append_lines(out: &mut Vec<Line>, more: Vec<Line>)
    ensures
        views(final(out)@) == views(old(out)@) + views(more@),
{
    let mut more = more;
    let ghost added = more@;
    out.append(&mut more);
    assert(views(out@) =~= views(old(out)@) + views(added));
}

/// The lines holding each of `ss`.
pub open spec fn text_views(ss: Seq<Seq<char>>) -> Seq<LineView> {
    Seq::new(ss.len(), |i: int| t(ss[i]))
}

/// A line holding each of `ss`, in order.
pub fn text_lines(ss: &Vec<String>) -> (r: Vec<Line>)
    ensures
        views(r@) == text_views(texts(ss@)),
{
    let mut r: Vec<Line> = Vec::new();
    let mut i: usize = 0;
    while i < ss.len()
        invariant
            0 <= i <= ss@.len(),
            views(r@) =~= text_views(texts(ss@)).take(i as int),
        decreases ss.len() - i,
    {
        let ghost r0 = r@;
        let s = ss[i].clone();
        assert(s@ == texts(ss@)[i as int]);
        r.push(Line::Text(s));
        assert(views(r@) =~= views(r0).push(t(texts(ss@)[i as int])));
        assert(text_views(texts(ss@)).take(i + 1) =~= text_views(texts(ss@)).take(i as int).push(t(texts(ss@)[i as int])));
        i = i + 1;
    }
    r
}

/// The digit `d`, for `d` below sixteen, in lower case.
pub open spec fn digit(d: nat) -> char {
    if d == 0 {
        '0'
    } else if d == 1 {
        '1'
    } else if d == 2 {
        '2'
    } else if d == 3 {
        '3'
    } else if d == 4 {
        '4'
    } else if d == 5 {
        '5'
    } else if d == 6 {
        '6'
    } else if d == 7 {
        '7'
    } else if d == 8 {
        '8'
    } else if d == 9 {
        '9'
    } else if d == 10 {
        'a'
    } else if d == 11 {
        'b'
    } else if d == 12 {
        'c'
    } else if d == 13 {
        'd'
    } else if d == 14 {
        'e'
    } else {
        'f'
    }
}

/// `n` written in `base` (ten or sixteen), without leading zeros.
pub open spec fn in_base(n: nat, base: nat) -> Seq<char>
    recommends
        base == 10 || base == 16,
    decreases n,
{
    if base < 2 || n < base {
        seq![digit(n)]
    } else {
        proof {
            assert(n / base < n) by (nonlinear_arith)
                requires
                    base >= 2,
                    n >= base,
            ;
        }
        in_base(n / base, base).push(digit(n % base))
    }
}

/// `n` in decimal, as `{}` formats it.
pub open spec fn decimal(n: nat) -> Seq<char> {
    in_base(n, 10)
}

/// `n` in hexadecimal with its prefix, as `{:#x}` formats it.
pub open spec fn hex(n: nat) -> Seq<char> {
    "0x"@ + in_base(n, 16)
}

fn digit_char(d: u64) -> (c: char)
    requires
        d < 16,
    ensures
        c == digit(d as nat),
{
    match d {
        0 => '0',
        1 => '1',
        2 => '2',
        3 => '3',
        4 => '4',
        5 => '5',
        6 => '6',
        7 => '7',
        8 => '8',
        9 => '9',
        10 => 'a',
        11 => 'b',
        12 => 'c',
        13 => 'd',
        14 => 'e',
        _ => 'f',
    }
}

fn push_digits(n: u64, base: u64, out: &mut Vec<char>)
    requires
        base == 10 || base == 16,
    ensures
        final(out)@ == old(out)@ + in_base(n as nat, base as nat),
    decreases n,
{
    if n < base {
        out.push(digit_char(n));
        assert(out@ =~= old(out)@ + in_base(n as nat, base as nat));
    } else {
        push_digits(n / base, base, out);
        let ghost mid = out@;
        out.push(digit_char(n % base));
        assert(out@ =~= old(out)@ + in_base(n as nat, base as nat));
    }
}

/// `n` in decimal.
pub fn decimal_text(n: u64) -> (s: String)
    ensures
        s@ == decimal(n as nat),
{
    let mut digits: Vec<char> = Vec::new();
    push_digits(n, 10, &mut digits);
    assert(digits@ =~= decimal(n as nat));
    crate::type_generation::text::string_of(&digits)
}

/// `n` in hexadecimal, with its `0x` prefix.
pub fn hex_text(n: u64) -> (s: String)
    ensures
        s@ == hex(n as nat),
{
    let mut digits: Vec<char> = Vec::new();
    push_digits(n, 16, &mut digits);
    proof {
        reveal_strlit("0x");
    }
    String::from_str("0x").concat(crate::type_generation::text::string_of(&digits).as_str())
}

} // verus!
