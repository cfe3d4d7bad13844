//! Text building blocks for the engine's messages: decimal rendering of
//! counts, ASCII case folding, quoting of names, and joining lists.

use vstd::prelude::*;

verus! {

/// The character of one decimal digit `d` (`d < 10`).
pub open spec fn digit_char(d: nat) -> char
    recommends
        d < 10,
{
    (48 + d) as char
}

/// The decimal digits of `n`, most significant first, with no sign, no
/// padding and no separators.
pub open spec fn decimal_digits(n: nat) -> Seq<char>
    decreases n,
{
    if n < 10 {
        seq![digit_char(n)]
    } else {
        decimal_digits(n / 10).push(digit_char(n % 10))
    }
}

/// A decimal digit character, `'0'..='9'`.
pub open spec fn is_digit_char(c: char) -> bool {
    48 <= (c as int) <= 57
}

/// The number a string of decimal digits denotes, most significant first.
pub open spec fn digits_value(s: Seq<char>) -> int
    decreases s.len(),
{
    if s.len() == 0 {
        0
    } else {
        digits_value(s.drop_last()) * 10 + ((s.last() as int) - 48)
    }
}

/// The decimal rendering of a count is a non-empty run of digits that reads
/// back as the count, with no leading zero unless the count is zero.
pub proof fn law_decimal_digits_read_back(n: nat)
    ensures
        decimal_digits(n).len() > 0,
        forall|i: int| 0 <= i < decimal_digits(n).len() ==> is_digit_char(
            #[trigger] decimal_digits(n)[i],
        ),
        digits_value(decimal_digits(n)) == n,
        n > 0 ==> decimal_digits(n)[0] != '0',
    decreases n,
{
    if n < 10 {
        let d = decimal_digits(n);
        assert(d == seq![digit_char(n)]);
        assert(d.drop_last() =~= Seq::<char>::empty());
        assert((digit_char(n) as int) == 48 + n);
        assert(digits_value(d.drop_last()) == 0);
        assert(digits_value(d) == digits_value(d.drop_last()) * 10 + ((d.last() as int) - 48));
    } else {
        law_decimal_digits_read_back(n / 10);
        let prev = decimal_digits(n / 10);
        let d = decimal_digits(n);
        assert(d == prev.push(digit_char(n % 10)));
        assert(d.drop_last() =~= prev);
        assert((digit_char(n % 10) as int) == 48 + n % 10);
        assert(n == (n / 10) * 10 + n % 10) by (nonlinear_arith);
        assert(digits_value(d) == digits_value(d.drop_last()) * 10 + ((d.last() as int) - 48));
        assert(forall|i: int| 0 <= i < prev.len() ==> d[i] == prev[i]);
        assert(n / 10 > 0);
    }
}

/// `d` is a decimal rendering of `n`: a non-empty run of digits that reads
/// back as `n`, with no leading zero unless `n` is zero.
pub open spec fn is_decimal_of(d: Seq<char>, n: nat) -> bool {
    &&& d.len() > 0
    &&& forall|i: int| 0 <= i < d.len() ==> is_digit_char(#[trigger] d[i])
    &&& digits_value(d) == n
    &&& n > 0 ==> d[0] != '0'
}

/// [`decimal_digits`] is a decimal rendering of its count.
pub proof fn lemma_decimal_digits_is_decimal(n: nat)
    ensures
        is_decimal_of(decimal_digits(n), n),
{
    law_decimal_digits_read_back(n);
}

/// Two different counts never render alike.
pub proof fn law_decimal_digits_injective(a: nat, b: nat)
    ensures
        decimal_digits(a) == decimal_digits(b) ==> a == b,
{
    law_decimal_digits_read_back(a);
    law_decimal_digits_read_back(b);
}

/// ASCII lower-casing of one character: `'A'..='Z'` map to `'a'..='z'`,
/// every other character is unchanged.
pub open spec fn ascii_lower_char(c: char) -> char {
    if 65 <= (c as int) && (c as int) <= 90 {
        ((c as int) + 32) as char
    } else {
        c
    }
}

/// ASCII lower-casing of a whole string, character by character.
pub open spec fn ascii_lower(s: Seq<char>) -> Seq<char> {
    s.map_values(|c: char| ascii_lower_char(c))
}

/// A character that `Debug` prints as itself inside a quoted string: an ASCII
/// letter or digit, a space, a hyphen or an underscore.
pub open spec fn is_plain_char(c: char) -> bool {
    ||| 48 <= (c as int) <= 57
    ||| 65 <= (c as int) <= 90
    ||| 97 <= (c as int) <= 122
    ||| c == ' '
    ||| c == '-'
    ||| c == '_'
}

/// Every character of `s` is plain (see [`is_plain_char`]).
pub open spec fn is_plain(s: Seq<char>) -> bool {
    forall|i: int| 0 <= i < s.len() ==> is_plain_char(#[trigger] s[i])
}

/// What `format!("{:?}", s)` renders for a string slice `s`: the text in
/// double quotes, with quotes, backslashes, control and non-printable
/// characters escaped.
pub uninterp spec fn debug_str(s: Seq<char>) -> Seq<char>;

/// The items joined with `sep` between consecutive items (no leading or
/// trailing separator; the empty list joins to the empty string).
pub open spec fn joined(items: Seq<Seq<char>>, sep: Seq<char>) -> Seq<char>
    decreases items.len(),
{
    if items.len() == 0 {
        Seq::empty()
    } else if items.len() == 1 {
        items[0]
    } else {
        joined(items.drop_last(), sep) + sep + items.last()
    }
}

/// The views of a list of owned strings.
pub open spec fn string_views(items: Seq<String>) -> Seq<Seq<char>> {
    items.map_values(|s: String| s@)
}

/// The one-character string of a decimal digit `d` (`d < 10`).
fn digit_str(d: usize) -> (digit: &'static str)
    requires
        d < 10,
    ensures
        digit@ == seq![digit_char(d as nat)],
{
    proof {
        reveal_strlit("0");
        reveal_strlit("1");
        reveal_strlit("2");
        reveal_strlit("3");
        reveal_strlit("4");
        reveal_strlit("5");
        reveal_strlit("6");
        reveal_strlit("7");
        reveal_strlit("8");
        reveal_strlit("9");
    }
    let digit = match d {
        0 => "0",
        1 => "1",
        2 => "2",
        3 => "3",
        4 => "4",
        5 => "5",
        6 => "6",
        7 => "7",
        8 => "8",
        _ => "9",
    };
    assert(digit@ =~= seq![digit_char(d as nat)]);
    digit
}

/// Renders a count in decimal: its digits, most significant first, with no
/// sign, padding or separators (as `usize`'s `Display` writes it).
pub fn decimal_string(n: usize) -> (s: String)
    ensures
        s@ == decimal_digits(n as nat),
    decreases n,
{
    if n < 10 {
        digit_str(n).to_owned()
    } else {
        let mut s = decimal_string(n / 10);
        s.append(digit_str(n % 10));
        s
    }
}

/// Lower-cases ASCII letters through `str::to_ascii_lowercase`, which maps
/// `'A'..='Z'` to `'a'..='z'` and leaves every other character unchanged.
#[verifier::external_body]
pub(crate) fn ascii_lowercase(s: &str) -> (lower: String)
    ensures
        lower@ == ascii_lower(s@),
{
    s.to_ascii_lowercase()
}

/// Quotes a string slice through its `Debug` formatting (`format!("{:?}")`).
/// The result is named by [`debug_str`]; the one fact stated beyond the name
/// is that a string of plain characters comes back wrapped in double quotes
/// and otherwise unchanged. How other characters are escaped is left unsaid.
#[verifier::external_body]
pub(crate) fn debug_quoted(s: &str) -> (quoted: String)
    ensures
        quoted@ == debug_str(s@),
        is_plain(s@) ==> quoted@ == seq!['"'] + s@ + seq!['"'],
{
    format!("{:?}", s)
}

/// Joins owned strings with a separator, as `[String]::join` does.
pub fn join(items: &Vec<String>, sep: &str) -> (out: String)
    ensures
        out@ == joined(string_views(items@), sep@),
{
    let mut out = "".to_owned();
    let n = items.len();
    let ghost views = string_views(items@);
    proof {
        reveal_strlit("");
        assert(views.take(0) =~= Seq::<Seq<char>>::empty());
    }
    let mut i: usize = 0;
    while i < n
        invariant
            n == items@.len(),
            views == string_views(items@),
            0 <= i <= n,
            out@ == joined(views.take(i as int), sep@),
        decreases n - i,
    {
        proof {
            assert(views.take(i + 1).drop_last() =~= views.take(i as int));
            assert(views.take(i + 1).last() == items@[i as int]@);
        }
        if i > 0 {
            out.append(sep);
        }
        out.append(items[i].as_str());
        proof {
            if i == 0 {
                assert(views.take(1) =~= seq![items@[0]@]);
                assert(out@ =~= items@[0]@);
            }
        }
        i = i + 1;
    }
    proof {
        assert(views.take(n as int) =~= views);
    }
    out
}

} // verus!
