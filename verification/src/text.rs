//! Text utilities: HTML escaping for mail bodies, capitalising a name, and
//! plain string comparison.

use vstd::prelude::*;
use vstd::string::*;

verus! {

/// What one character of untrusted text becomes in an HTML mail body.
pub open spec fn spec_escape_char(c: char) -> Seq<char> {
    if c == '&' {
        "&amp;"@
    } else if c == '<' {
        "&lt;"@
    } else if c == '>' {
        "&gt;"@
    } else if c == '"' {
        "&quot;"@
    } else if c == '\'' {
        "&#x27;"@
    } else if c == '/' {
        "&#x2F;"@
    } else if c == '\n' {
        "<br>"@
    } else {
        seq![c]
    }
}

/// The whole text escaped character by character; newlines become line
/// breaks.
pub open spec fn spec_escape_html(s: Seq<char>) -> Seq<char>
    decreases s.len(),
{
    if s.len() == 0 {
        Seq::empty()
    } else {
        spec_escape_char(s[0]) + spec_escape_html(s.drop_first())
    }
}

proof fn lemma_escape_push(s: Seq<char>, x: char)
    ensures
        spec_escape_html(s.push(x)) == spec_escape_html(s) + spec_escape_char(x),
    decreases s.len(),
{
    if s.len() == 0 {
        assert(s =~= Seq::<char>::empty());
        assert(s.push(x).drop_first() =~= s);
        assert(s.push(x)[0] == x);
        assert(spec_escape_html(s.push(x)) =~= spec_escape_char(x) + spec_escape_html(s));
        assert(spec_escape_html(s) =~= Seq::<char>::empty());
        assert(spec_escape_char(x) + Seq::<char>::empty() =~= spec_escape_char(x));
        assert(spec_escape_html(s) + spec_escape_char(x) =~= spec_escape_char(x));
    } else {
        assert(s.push(x).drop_first() =~= s.drop_first().push(x));
        assert(s.push(x)[0] == s[0]);
        lemma_escape_push(s.drop_first(), x);
        assert(spec_escape_char(s[0]) + (spec_escape_html(s.drop_first()) + spec_escape_char(x))
            =~= (spec_escape_char(s[0]) + spec_escape_html(s.drop_first())) + spec_escape_char(
            x,
        ));
    }
}

/// Escapes untrusted text for an HTML mail body: the characters `&`, `<`,
/// `>`, `"`, `'` and `/` become entities, and a newline becomes `<br>`.
pub fn escape_html(text: String) -> (r: String)
    ensures
        r@ == spec_escape_html(text@),
{
    let n = text.as_str().unicode_len();
    let mut out = String::new();
    let mut i: usize = 0;
    proof {
        assert(text@.take(0) =~= Seq::<char>::empty());
    }
    while i < n
        invariant
            i <= n,
            n == text@.len(),
            out@ == spec_escape_html(text@.take(i as int)),
        decreases n - i,
    {
        let c = text.as_str().get_char(i);
        if c == '&' {
            out.append("&amp;");
        } else if c == '<' {
            out.append("&lt;");
        } else if c == '>' {
            out.append("&gt;");
        } else if c == '"' {
            out.append("&quot;");
        } else if c == '\'' {
            out.append("&#x27;");
        } else if c == '/' {
            out.append("&#x2F;");
        } else if c == '\n' {
            out.append("<br>");
        } else {
            let piece = text.as_str().substring_char(i, i + 1);
            proof {
                assert(text@.subrange(i as int, i as int + 1) =~= seq![text@[i as int]]);
            }
            out.append(piece);
        }
        proof {
            assert(text@.take(i as int + 1) =~= text@.take(i as int).push(text@[i as int]));
            lemma_escape_push(text@.take(i as int), text@[i as int]);
        }
        i += 1;
    }
    proof {
        assert(text@.take(n as int) =~= text@);
    }
    out
}

/// What the Unicode uppercasing of one character yields.
pub uninterp spec fn upper_of(c: char) -> Seq<char>;

/// Relies on `char::to_uppercase` (with `ToString`): the Unicode uppercase
/// mapping of the character, one or more characters, a function of the
/// character alone.
#[verifier::external_body]
fn char_uppercase(c: char) -> (r: String)
    ensures
        r@ == upper_of(c),
        r@.len() >= 1,
{
    c.to_uppercase().to_string()
}

/// A text with its first character uppercased and the rest kept.
pub open spec fn spec_capitalize_first(s: Seq<char>) -> Seq<char> {
    if s.len() == 0 {
        Seq::empty()
    } else {
        upper_of(s[0]) + s.drop_first()
    }
}

/// Uppercases the first character of a text, leaving the rest unchanged; an
/// empty text stays empty.
pub fn capitalize_first(s: String) -> (r: String)
    ensures
        r@ == spec_capitalize_first(s@),
{
    let n = s.as_str().unicode_len();
    if n == 0 {
        let r = String::new();
        proof {
            assert(r@ =~= spec_capitalize_first(s@));
        }
        r
    } else {
        let first = s.as_str().get_char(0);
        let mut out = char_uppercase(first);
        let rest = s.as_str().substring_char(1, n);
        proof {
            assert(s@.subrange(1, n as int) =~= s@.drop_first());
        }
        out.append(rest);
        out
    }
}

/// The digit character for one decimal digit.
pub open spec fn spec_digit_char(d: int) -> char {
    if d == 0 {
        '0'
    } else if d == 1 {
        '1'
    } else if d == 2 {
        '2'
    } else if d == 3 {
        '3'
    } else if d == 4 {
        '4'
    } else if d == 5 {
        '5'
    } else if d == 6 {
        '6'
    } else if d == 7 {
        '7'
    } else if d == 8 {
        '8'
    } else {
        '9'
    }
}

/// The decimal digits of a non-negative number, most significant first.
pub open spec fn spec_decimal_digits(n: int) -> Seq<char>
    decreases n,
{
    if n < 10 {
        seq![spec_digit_char(n)]
    } else {
        spec_decimal_digits(n / 10) + seq![spec_digit_char(n % 10)]
    }
}

/// The usual decimal rendering of a signed number.
pub open spec fn spec_i64_decimal(n: int) -> Seq<char> {
    if n < 0 {
        seq!['-'] + spec_decimal_digits(-n)
    } else {
        spec_decimal_digits(n)
    }
}

fn digit_str(d: u64) -> (r: &'static str)
    requires
        d < 10,
    ensures
        r@ == seq![spec_digit_char(d as int)],
{
    proof {
        reveal_strlit("0");
        reveal_strlit("1");
        reveal_strlit("2");
        reveal_strlit("3");
        reveal_strlit("4");
        reveal_strlit("5");
        reveal_strlit("6");
        reveal_strlit("7");
        reveal_strlit("8");
        reveal_strlit("9");
    }
    if d == 0 {
        "0"
    } else if d == 1 {
        "1"
    } else if d == 2 {
        "2"
    } else if d == 3 {
        "3"
    } else if d == 4 {
        "4"
    } else if d == 5 {
        "5"
    } else if d == 6 {
        "6"
    } else if d == 7 {
        "7"
    } else if d == 8 {
        "8"
    } else {
        "9"
    }
}

fn u64_decimal(v: u64) -> (r: String)
    ensures
        r@ == spec_decimal_digits(v as int),
    decreases v,
{
    if v < 10 {
        String::from_str(digit_str(v))
    } else {
        let mut s = u64_decimal(v / 10);
        s.append(digit_str(v % 10));
        s
    }
}

/// Renders a signed number in decimal, as the store's identifiers are
/// written into query parameters.
pub fn i64_to_decimal(n: i64) -> (r: String)
    ensures
        r@ == spec_i64_decimal(n as int),
{
    if n < 0 {
        let magnitude: u64 = if n == i64::MIN {
            9223372036854775808u64
        } else {
            (-n) as u64
        };
        proof {
            assert(magnitude as int == -(n as int));
        }
        let mut s = String::from_str("-");
        proof {
            reveal_strlit("-");
            assert("-"@ =~= seq!['-']);
        }
        s.append(u64_decimal(magnitude).as_str());
        s
    } else {
        u64_decimal(n as u64)
    }
}

/// Character-by-character string equality.
pub fn str_eq(a: &str, b: &str) -> (r: bool)
    ensures
        r == (a@ == b@),
{
    let n = a.unicode_len();
    let m = b.unicode_len();
    if n != m {
        return false;
    }
    let mut i: usize = 0;
    while i < n
        invariant
            i <= n,
            n == a@.len(),
            n == b@.len(),
            forall|j: int| 0 <= j < i ==> a@[j] == b@[j],
        decreases n - i,
    {
        if a.get_char(i) != b.get_char(i) {
            return false;
        }
        i += 1;
    }
    proof {
        assert(a@ =~= b@);
    }
    true
}

} // verus!
