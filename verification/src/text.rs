//! Text helpers shared by the error types: string-like inputs, white space
//! and decimal rendering of integers.
use vstd::prelude::*;

verus! {

/// A string-like value that can be turned into an owned `String`.
///
/// Implemented for `&str`, `String` and the error code type, so that
/// constructors accept any of them.
pub trait IntoText: Sized {
    /// The characters of the value.
    spec fn text_view(&self) -> Seq<char>;

    /// Converts the value into an owned string with the same characters.
    fn into_text(self) -> (text: String)
        ensures
            text@ == self.text_view(),
    ;
}

impl<'a> IntoText for &'a str {
    open spec fn text_view(&self) -> Seq<char> {
        (*self)@
    }

    fn into_text(self) -> (text: String) {
        String::from_str(self)
    }
}

impl IntoText for String {
    open spec fn text_view(&self) -> Seq<char> {
        self@
    }

    fn into_text(self) -> (text: String) {
        self
    }
}

/// Whether a character has the Unicode `White_Space` property.
pub open spec fn is_white_space(c: char) -> bool {
    let u = c as u32;
    ||| 0x9 <= u <= 0xD
    ||| u == 0x20
    ||| u == 0x85
    ||| u == 0xA0
    ||| u == 0x1680
    ||| 0x2000 <= u <= 0x200A
    ||| u == 0x2028
    ||| u == 0x2029
    ||| u == 0x202F
    ||| u == 0x205F
    ||| u == 0x3000
}

/// Whether a text is empty or made of white space only.
pub open spec fn is_blank(s: Seq<char>) -> bool {
    forall|i: int| 0 <= i < s.len() ==> #[trigger] is_white_space(s[i])
}

/// Blankness is determined character by character: the empty text is
/// blank, a single character is blank exactly when it is white space, and a
/// concatenation is blank exactly when both parts are.
pub proof fn lemma_blank_structure(a: Seq<char>, b: Seq<char>, c: char)
    ensures
        is_blank(Seq::<char>::empty()),
        is_blank(seq![c]) <==> is_white_space(c),
        is_blank(a + b) <==> is_blank(a) && is_blank(b),
{
    assert(seq![c][0] == c);
    if is_blank(a + b) {
        assert forall|i: int| 0 <= i < a.len() implies #[trigger] is_white_space(a[i]) by {
            assert((a + b)[i] == a[i]);
        }
        assert forall|i: int| 0 <= i < b.len() implies #[trigger] is_white_space(b[i]) by {
            assert((a + b)[a.len() + i] == b[i]);
        }
    }
    if is_blank(a) && is_blank(b) {
        assert forall|i: int| 0 <= i < (a + b).len() implies #[trigger] is_white_space((a + b)[i]) by {
            if i < a.len() {
                assert((a + b)[i] == a[i]);
            } else {
                assert((a + b)[i] == b[i - a.len()]);
            }
        }
    }
}

/// Returns `true` if `c` has the Unicode `White_Space` property.
pub(crate) fn char_is_white_space(c: char) -> (ws: bool)
    ensures
        ws == is_white_space(c),
{
    let u = c as u32;
    (0x9 <= u && u <= 0xD) || u == 0x20 || u == 0x85 || u == 0xA0 || u == 0x1680 || (0x2000 <= u
        && u <= 0x200A) || u == 0x2028 || u == 0x2029 || u == 0x202F || u == 0x205F || u == 0x3000
}

/// Returns `true` if `s` is empty or contains only white space,
/// that is, if trimming white space from it leaves nothing.
pub(crate) fn text_is_blank(s: &str) -> (blank: bool)
    ensures
        blank == is_blank(s@),
{
    proof {
        broadcast use vstd::string::axiom_spec_iter;
    }
    for c in it: s.chars()
        invariant
            it.seq() == s@,
            forall|j: int| 0 <= j < it.index() ==> #[trigger] is_white_space(s@[j]),
    {
        if !char_is_white_space(c) {
            assert(!is_white_space(s@[it.index()]));
            return false;
        }
    }
    true
}

/// The character of a decimal digit.
pub open spec fn digit_char(d: nat) -> char {
    if d == 0 {
        '0'
    } else if d == 1 {
        '1'
    } else if d == 2 {
        '2'
    } else if d == 3 {
        '3'
    } else if d == 4 {
        '4'
    } else if d == 5 {
        '5'
    } else if d == 6 {
        '6'
    } else if d == 7 {
        '7'
    } else if d == 8 {
        '8'
    } else {
        '9'
    }
}

/// The decimal notation of a natural number, without leading zeros.
pub open spec fn decimal(n: nat) -> Seq<char>
    decreases n,
{
    if n < 10 {
        seq![digit_char(n)]
    } else {
        decimal(n / 10).push(digit_char(n % 10))
    }
}

/// Whether a character is one of the ASCII digits `0` to `9`.
pub open spec fn is_digit(c: char) -> bool {
    48 <= (c as u32) <= 57
}

/// The number that a sequence of ASCII digits denotes, read in base ten.
pub open spec fn digits_value(s: Seq<char>) -> int
    decreases s.len(),
{
    if s.len() == 0 {
        0
    } else {
        digits_value(s.drop_last()) * 10 + ((s.last() as u32) - 48)
    }
}

proof fn lemma_digit_char_code(d: nat)
    requires
        d < 10,
    ensures
        digit_char(d) as u32 == 48 + d,
{
}

/// Decimal notation reads back: it is a non-empty run of digits, without a
/// leading zero unless it is `0` itself, whose value in base ten is the
/// number written.
pub proof fn lemma_decimal_reads_back(n: nat)
    ensures
        decimal(n).len() > 0,
        forall|i: int| 0 <= i < decimal(n).len() ==> is_digit(#[trigger] decimal(n)[i]),
        digits_value(decimal(n)) == n,
        decimal(n).len() > 1 ==> decimal(n)[0] != '0',
        decimal(n).len() == 1 <==> n < 10,
    decreases n,
{
    if n < 10 {
        assert(decimal(n).drop_last() =~= Seq::<char>::empty());
        assert(digits_value(Seq::<char>::empty()) == 0);
        lemma_digit_char_code(n);
        assert(decimal(n).last() == digit_char(n));
        assert(digits_value(decimal(n)) == digits_value(decimal(n).drop_last()) * 10 + ((decimal(
            n,
        ).last() as u32) - 48));
    } else {
        lemma_digit_char_code(n % 10);
        lemma_decimal_reads_back(n / 10);
        let d = decimal(n);
        assert(d.drop_last() =~= decimal(n / 10));
        assert(d.last() == digit_char(n % 10));
        assert(digits_value(d) == digits_value(d.drop_last()) * 10 + ((d.last() as u32) - 48));
        assert(digits_value(d) == (n / 10) * 10 + n % 10);
        assert(forall|i: int| 0 <= i < d.len() - 1 ==> d[i] == decimal(n / 10)[i]);
        if decimal(n / 10).len() == 1 {
            assert(1 <= n / 10 < 10);
        }
    }
}

/// The decimal notation of an integer, with a leading `-` when negative.
pub open spec fn signed_decimal(i: int) -> Seq<char> {
    if i < 0 {
        seq!['-'] + decimal((-i) as nat)
    } else {
        decimal(i as nat)
    }
}

/// The text of a boolean: `true` or `false`.
pub open spec fn bool_text(b: bool) -> Seq<char> {
    if b {
        "true"@
    } else {
        "false"@
    }
}

fn digit_str(d: u8) -> (s: &'static str)
    requires
        d < 10,
    ensures
        s@ == seq![digit_char(d as nat)],
{
    proof {
        reveal_strlit("0");
        reveal_strlit("1");
        reveal_strlit("2");
        reveal_strlit("3");
        reveal_strlit("4");
        reveal_strlit("5");
        reveal_strlit("6");
        reveal_strlit("7");
        reveal_strlit("8");
        reveal_strlit("9");
    }
    match d {
        0 => "0",
        1 => "1",
        2 => "2",
        3 => "3",
        4 => "4",
        5 => "5",
        6 => "6",
        7 => "7",
        8 => "8",
        _ => "9",
    }
}

/// Renders an unsigned number in decimal notation.
pub(crate) fn decimal_text(n: u128) -> (text: String)
    ensures
        text@ == decimal(n as nat),
{
    let mut m: u128 = n / 10;
    let mut out = String::from_str(digit_str((n % 10) as u8));
    proof {
        if n >= 10 {
            assert(decimal(n as nat) == decimal(m as nat) + out@);
        }
    }
    while m > 0
        invariant
            m > 0 ==> decimal(n as nat) == decimal(m as nat) + out@,
            m == 0 ==> decimal(n as nat) == out@,
        decreases m,
    {
        let d = (m % 10) as u8;
        let mut next = String::from_str(digit_str(d));
        next.append(out.as_str());
        proof {
            let m2 = m / 10;
            if m >= 10 {
                assert(decimal(m as nat) == decimal(m2 as nat).push(digit_char(d as nat)));
                assert(decimal(m2 as nat).push(digit_char(d as nat)) + out@ =~= decimal(m2 as nat)
                    + next@);
            } else {
                assert(decimal(m as nat) =~= next@.subrange(0, 1));
                assert(decimal(m as nat) + out@ =~= next@);
            }
        }
        out = next;
        m = m / 10;
    }
    out
}

/// Renders a signed number in decimal notation.
pub(crate) fn signed_decimal_text(value: i64) -> (text: String)
    ensures
        text@ == signed_decimal(value as int),
{
    if value < 0 {
        let magnitude = (0i128 - value as i128) as u128;
        let digits = decimal_text(magnitude);
        let mut out = String::from_str("-");
        proof {
            reveal_strlit("-");
        }
        out.append(digits.as_str());
        out
    } else {
        decimal_text(value as u128)
    }
}

/// Renders a boolean as `true` or `false`.
pub(crate) fn bool_to_text(b: bool) -> (text: String)
    ensures
        text@ == bool_text(b),
{
    if b {
        String::from_str("true")
    } else {
        String::from_str("false")
    }
}

} // verus!
