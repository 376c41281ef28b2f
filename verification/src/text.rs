//! Texts as sequences of characters: blank texts, and the markup of a line
//! break.

use vstd::prelude::*;

verus! {

broadcast use vstd::string::group_string_axioms;

/// `String::push` appends one character and changes nothing before it.
pub assume_specification[ String::push ](s: &mut String, c: char)
    ensures
        final(s)@ == old(s)@.push(c),
;

/// `str`'s `eq` says whether two texts hold the same characters.
pub assume_specification[ <str as PartialEq>::eq ](a: &str, b: &str) -> (r: bool)
    ensures
        r == (a@ == b@),
;

/// The characters that Unicode lists as white space.
pub open spec fn is_space(c: char) -> bool {
    let n = c as u32;
    ||| 0x09 <= n <= 0x0d
    ||| n == 0x20
    ||| n == 0x85
    ||| n == 0xa0
    ||| n == 0x1680
    ||| 0x2000 <= n <= 0x200a
    ||| n == 0x2028
    ||| n == 0x2029
    ||| n == 0x202f
    ||| n == 0x205f
    ||| n == 0x3000
}

/// A text is blank when it holds nothing but white space. The empty text is
/// blank.
pub open spec fn is_blank(s: Seq<char>) -> bool {
    forall|i: int| 0 <= i < s.len() ==> is_space(#[trigger] s[i])
}

/// The markup that stands for a line break: `<br />`.
pub open spec fn line_break() -> Seq<char> {
    seq!['<', 'b', 'r', ' ', '/', '>']
}

/// The text with every line break markup replaced by a newline character,
/// reading from the left; what is not part of such markup stays as it is.
pub open spec fn with_breaks_replaced(s: Seq<char>) -> Seq<char>
    decreases s.len(),
{
    if s.len() == 0 {
        s
    } else if line_break().is_prefix_of(s) {
        seq!['\n'] + with_breaks_replaced(s.skip(6))
    } else {
        seq![s[0]] + with_breaks_replaced(s.skip(1))
    }
}

/// The character that stands for a digit below ten.
pub open spec fn digit(d: nat) -> char
    recommends
        d < 10,
{
    (0x30 + d) as char
}

/// A number in decimal notation, without leading zeros.
pub open spec fn decimal(n: nat) -> Seq<char>
    decreases n,
{
    if n < 10 {
        seq![digit(n)]
    } else {
        decimal(n / 10).push(digit(n % 10))
    }
}

/// Whether the character is white space.
pub fn space(c: char) -> (r: bool)
    ensures
        r == is_space(c),
{
    let n: u32 = c as u32;
    (0x09 <= n && n <= 0x0d) || n == 0x20 || n == 0x85 || n == 0xa0 || n == 0x1680 || (0x2000 <= n
        && n <= 0x200a) || n == 0x2028 || n == 0x2029 || n == 0x202f || n == 0x205f || n == 0x3000
}

/// The characters of a text, one by one.
pub fn chars_of(text: &str) -> (r: Vec<char>)
    ensures
        r@ == text@,
{
    let mut out: Vec<char> = Vec::new();
    for c in it: text.chars()
        invariant
            it.seq() == text@,
            out@ == text@.take(it.index() as int),
    {
        out.push(c);
        assert(text@.take(it.index() + 1) =~= text@.take(it.index() as int).push(c));
    }
    assert(text@.take(text@.len() as int) =~= text@);
    out
}

/// Whether the text holds nothing but white space.
pub fn blank(text: &str) -> (r: bool)
    ensures
        r == is_blank(text@),
{
    let chars = chars_of(text);
    let mut i: usize = 0;
    while i < chars.len()
        invariant
            i <= chars.len(),
            chars@ == text@,
            forall|k: int| 0 <= k < i ==> is_space(#[trigger] chars@[k]),
        decreases chars.len() - i,
    {
        if !space(chars[i]) {
            return false;
        }
        i = i + 1;
    }
    true
}

/// Whether the line break markup stands at position `at`.
fn break_at(chars: &Vec<char>, at: usize) -> (r: bool)
    requires
        at < chars.len(),
    ensures
        r == line_break().is_prefix_of(chars@.skip(at as int)),
{
    let ghost rest = chars@.skip(at as int);
    if chars.len() - at < 6 {
        return false;
    }
    let r = chars[at] == '<' && chars[at + 1] == 'b' && chars[at + 2] == 'r' && chars[at + 3] == ' '
        && chars[at + 4] == '/' && chars[at + 5] == '>';
    proof {
        assert(rest.len() >= 6);
        assert(forall|k: int| 0 <= k < 6 ==> rest[k] == chars@[at + k]);
        if r {
            assert(rest.subrange(0, 6) =~= line_break());
        } else {
            if line_break().is_prefix_of(rest) {
                assert(rest.subrange(0, 6) == line_break());
                assert(forall|k: int| 0 <= k < 6 ==> rest.subrange(0, 6)[k] == rest[k]);
                assert(line_break()[0] == '<');
                assert(line_break()[1] == 'b');
                assert(line_break()[2] == 'r');
                assert(line_break()[3] == ' ');
                assert(line_break()[4] == '/');
                assert(line_break()[5] == '>');
            }
        }
    }
    r
}

/// Replaces every `<br />` by a newline character.
pub fn replace_breaks(text: &str) -> (r: String)
    ensures
        r@ == with_breaks_replaced(text@),
{
    let chars = chars_of(text);
    let mut out = String::new();
    let mut i: usize = 0;
    assert(chars@.skip(0) =~= chars@);
    while i < chars.len()
        invariant
            i <= chars.len(),
            chars@ == text@,
            out@ + with_breaks_replaced(chars@.skip(i as int)) == with_breaks_replaced(chars@),
        decreases chars.len() - i,
    {
        let ghost rest = chars@.skip(i as int);
        if break_at(&chars, i) {
            out.push('\n');
            proof {
                assert(rest.skip(6) =~= chars@.skip(i + 6));
            }
            i = i + 6;
        } else {
            out.push(chars[i]);
            proof {
                assert(rest.skip(1) =~= chars@.skip(i + 1));
            }
            i = i + 1;
        }
    }
    assert(chars@.skip(chars@.len() as int) =~= Seq::<char>::empty());
    assert(out@ + Seq::<char>::empty() =~= out@);
    out
}

/// Writes a number in decimal notation.
pub fn decimal_text(n: usize) -> (r: String)
    ensures
        r@ == decimal(n as nat),
{
    let mut low: Vec<char> = Vec::new();
    let mut rest: usize = n;
    assert(low@.reverse() =~= Seq::<char>::empty());
    assert(decimal(n as nat) + Seq::<char>::empty() =~= decimal(n as nat));
    while rest >= 10
        invariant
            decimal(rest as nat) + low@.reverse() == decimal(n as nat),
        decreases rest,
    {
        let d: u8 = (rest % 10) as u8;
        let c: char = (0x30u8 + d) as char;
        proof {
            let before = low@;
            let after = low@.push(c);
            assert(c == digit((rest % 10) as nat));
            assert(after.reverse() =~= seq![c] + before.reverse());
            assert(decimal(rest as nat) == decimal((rest / 10) as nat).push(c));
            assert(decimal((rest / 10) as nat).push(c) + before.reverse() =~= decimal(
                (rest / 10) as nat,
            ) + after.reverse());
        }
        low.push(c);
        rest = rest / 10;
    }
    let first: char = (0x30u8 + (rest as u8)) as char;
    let mut out = String::new();
    out.push(first);
    assert(out@ =~= decimal(rest as nat));
    let mut i: usize = low.len();
    while i > 0
        invariant
            i <= low.len(),
            out@ + low@.take(i as int).reverse() == decimal(n as nat),
        decreases i,
    {
        i = i - 1;
        proof {
            let part = low@.take(i + 1);
            assert(part.reverse() =~= seq![low@[i as int]] + low@.take(i as int).reverse());
            assert(out@.push(low@[i as int]) + low@.take(i as int).reverse() =~= out@ + part.reverse());
        }
        out.push(low[i]);
    }
    assert(low@.take(0).reverse() =~= Seq::<char>::empty());
    assert(out@ + Seq::<char>::empty() =~= out@);
    out
}

} // verus!
