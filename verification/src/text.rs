//! Text building blocks: decimal and hexadecimal rendering, case-insensitive
//! ASCII comparison, and string equality.

use vstd::prelude::*;

verus! {

/// The character of a digit value below 16 (`0`–`9`, then `a`–`f`).
pub open spec fn digit_char(d: int) -> char {
    if d < 10 {
        (48 + d) as char
    } else {
        (87 + d) as char
    }
}

/// Decimal digits of `n`, most significant first, without leading zeros.
pub open spec fn decimal_digits(n: nat) -> Seq<char>
    decreases n,
{
    if n < 10 {
        seq![digit_char(n as int)]
    } else {
        decimal_digits(n / 10).push(digit_char((n % 10) as int))
    }
}

/// `count` copies of the character `c`.
pub open spec fn repeat_char(c: char, count: nat) -> Seq<char> {
    Seq::new(count, |i: int| c)
}

/// Decimal digits of `n`, left-padded with `0` to at least `width` characters.
pub open spec fn decimal_padded(n: nat, width: nat) -> Seq<char> {
    let digits = decimal_digits(n);
    if digits.len() < width {
        repeat_char('0', (width - digits.len()) as nat) + digits
    } else {
        digits
    }
}

/// The lowest `width` hexadecimal digits of `n`, lowercase, most significant
/// first.
pub open spec fn hex_fixed(n: nat, width: nat) -> Seq<char>
    decreases width,
{
    if width == 0 {
        Seq::empty()
    } else {
        hex_fixed(n / 16, (width - 1) as nat).push(digit_char((n % 16) as int))
    }
}

/// Lowercase hexadecimal of a byte string, two digits per byte.
pub open spec fn hex_of_bytes(bytes: Seq<u8>) -> Seq<char>
    decreases bytes.len(),
{
    if bytes.len() == 0 {
        Seq::empty()
    } else {
        hex_of_bytes(bytes.drop_last()) + hex_fixed(bytes.last() as nat, 2)
    }
}

/// A lowercase hexadecimal digit.
pub open spec fn is_lower_hex_digit(c: char) -> bool {
    ('0' <= c && c <= '9') || ('a' <= c && c <= 'f')
}

/// `hex_fixed(n, width)` has `width` lowercase hexadecimal digits.
pub proof fn lemma_hex_fixed_shape(n: nat, width: nat)
    ensures
        hex_fixed(n, width).len() == width,
        forall|i: int| 0 <= i < width ==> is_lower_hex_digit(#[trigger] hex_fixed(n, width)[i]),
    decreases width,
{
    if width > 0 {
        lemma_hex_fixed_shape(n / 16, (width - 1) as nat);
        let d = (n % 16) as int;
        assert(is_lower_hex_digit(digit_char(d)));
    }
}

/// `hex_of_bytes(b)` has two lowercase hexadecimal digits per byte.
pub proof fn lemma_hex_of_bytes_shape(b: Seq<u8>)
    ensures
        hex_of_bytes(b).len() == 2 * b.len(),
        forall|i: int| 0 <= i < 2 * b.len() ==> is_lower_hex_digit(#[trigger] hex_of_bytes(b)[i]),
    decreases b.len(),
{
    if b.len() > 0 {
        lemma_hex_of_bytes_shape(b.drop_last());
        lemma_hex_fixed_shape(b.last() as nat, 2);
        let prev = hex_of_bytes(b.drop_last());
        let last = hex_fixed(b.last() as nat, 2);
        assert forall|i: int| 0 <= i < 2 * b.len() implies is_lower_hex_digit(
            #[trigger] hex_of_bytes(b)[i],
        ) by {
            if i < prev.len() {
                assert(hex_of_bytes(b)[i] == prev[i]);
            } else {
                assert(hex_of_bytes(b)[i] == last[i - prev.len()]);
            }
        }
    }
}

/// ASCII lowercase of one character; every other character is unchanged.
pub open spec fn ascii_lower_char(c: char) -> char {
    if 'A' <= c && c <= 'Z' {
        ((c as u8) + 32) as char
    } else {
        c
    }
}

/// `a` and `b` are equal once ASCII letters are lowercased.
pub open spec fn eq_ignore_ascii_case(a: Seq<char>, b: Seq<char>) -> bool {
    a.len() == b.len() && forall|i: int|
        0 <= i < a.len() ==> #[trigger] ascii_lower_char(a[i]) == ascii_lower_char(b[i])
}

/// The one-character string of a digit value below 16.
pub fn digit_str(d: u64) -> (s: &'static str)
    requires
        d < 16,
    ensures
        s@ == seq![digit_char(d as int)],
{
    match d {
        0 => {
            proof {
                reveal_strlit("0");
            }
            "0"
        },
        1 => {
            proof {
                reveal_strlit("1");
            }
            "1"
        },
        2 => {
            proof {
                reveal_strlit("2");
            }
            "2"
        },
        3 => {
            proof {
                reveal_strlit("3");
            }
            "3"
        },
        4 => {
            proof {
                reveal_strlit("4");
            }
            "4"
        },
        5 => {
            proof {
                reveal_strlit("5");
            }
            "5"
        },
        6 => {
            proof {
                reveal_strlit("6");
            }
            "6"
        },
        7 => {
            proof {
                reveal_strlit("7");
            }
            "7"
        },
        8 => {
            proof {
                reveal_strlit("8");
            }
            "8"
        },
        9 => {
            proof {
                reveal_strlit("9");
            }
            "9"
        },
        10 => {
            proof {
                reveal_strlit("a");
            }
            "a"
        },
        11 => {
            proof {
                reveal_strlit("b");
            }
            "b"
        },
        12 => {
            proof {
                reveal_strlit("c");
            }
            "c"
        },
        13 => {
            proof {
                reveal_strlit("d");
            }
            "d"
        },
        14 => {
            proof {
                reveal_strlit("e");
            }
            "e"
        },
        _ => {
            proof {
                reveal_strlit("f");
            }
            "f"
        },
    }
}

/// Append the decimal digits of `n`.
pub fn push_decimal(s: &mut String, n: u64)
    ensures
        final(s)@ == old(s)@ + decimal_digits(n as nat),
    decreases n,
{
    if n >= 10 {
        push_decimal(s, n / 10);
        let d = digit_str(n % 10);
        s.append(d);
        proof {
            assert(old(s)@ + decimal_digits(n as nat) =~= old(s)@ + decimal_digits((n / 10) as nat)
                + seq![digit_char((n % 10) as int)]);
        }
    } else {
        let d = digit_str(n);
        s.append(d);
    }
}

/// Append the decimal digits of `n`, left-padded with zeros to `width`.
pub fn push_decimal_padded(s: &mut String, n: u64, width: usize)
    ensures
        final(s)@ == old(s)@ + decimal_padded(n as nat, width as nat),
{
    let mut digits = String::new();
    push_decimal(&mut digits, n);
    proof {
        assert(digits@ =~= decimal_digits(n as nat));
    }
    let len = digits.as_str().unicode_len();
    let mut i = len;
    while i < width
        invariant
            len <= i,
            i <= width || i == len,
            len == decimal_digits(n as nat).len(),
            s@ == old(s)@ + repeat_char('0', (i - len) as nat),
        decreases width - i,
    {
        let z = digit_str(0);
        s.append(z);
        i = i + 1;
        proof {
            assert(repeat_char('0', (i - len) as nat) =~= repeat_char('0', (i - 1 - len) as nat)
                + seq!['0']);
        }
    }
    s.append(digits.as_str());
    proof {
        if width <= len {
            assert(repeat_char('0', 0) =~= Seq::<char>::empty());
        }
        assert(final(s)@ =~= old(s)@ + decimal_padded(n as nat, width as nat));
    }
}

/// Append exactly `width` lowercase hexadecimal digits of `n` (its lowest
/// `4·width` bits).
pub fn push_hex_fixed(s: &mut String, n: u64, width: u32)
    ensures
        final(s)@ == old(s)@ + hex_fixed(n as nat, width as nat),
    decreases width,
{
    if width > 0 {
        push_hex_fixed(s, n / 16, width - 1);
        let d = digit_str(n % 16);
        s.append(d);
        proof {
            assert(old(s)@ + hex_fixed(n as nat, width as nat) =~= old(s)@ + hex_fixed(
                (n / 16) as nat,
                (width - 1) as nat,
            ) + seq![digit_char((n % 16) as int)]);
        }
    } else {
        proof {
            assert(old(s)@ + hex_fixed(n as nat, 0) =~= old(s)@);
        }
    }
}

/// Lowercase hexadecimal rendering of a byte string, two digits per byte.
pub fn hex_of_byte_slice(bytes: &[u8]) -> (s: String)
    ensures
        s@ == hex_of_bytes(bytes@),
{
    let mut s = String::new();
    let mut i: usize = 0;
    while i < bytes.len()
        invariant
            i <= bytes@.len(),
            s@ == hex_of_bytes(bytes@.subrange(0, i as int)),
        decreases bytes.len() - i,
    {
        push_hex_fixed(&mut s, bytes[i] as u64, 2);
        i = i + 1;
        proof {
            let pre = bytes@.subrange(0, i as int);
            assert(pre.drop_last() =~= bytes@.subrange(0, i - 1));
        }
    }
    proof {
        assert(bytes@.subrange(0, bytes@.len() as int) =~= bytes@);
    }
    s
}

/// String equality on character sequences.
pub fn str_eq(a: &str, b: &str) -> (r: bool)
    ensures
        r == (a@ == b@),
{
    let n = a.unicode_len();
    if n != b.unicode_len() {
        return false;
    }
    let mut i: usize = 0;
    while i < n
        invariant
            n == a@.len(),
            n == b@.len(),
            i <= n,
            forall|j: int| 0 <= j < i ==> a@[j] == b@[j],
        decreases n - i,
    {
        if a.get_char(i) != b.get_char(i) {
            return false;
        }
        i = i + 1;
    }
    proof {
        assert(a@ =~= b@);
    }
    true
}

/// The ASCII lowercase of one character.
pub fn ascii_lower(c: char) -> (r: char)
    ensures
        r == ascii_lower_char(c),
{
    if 'A' <= c && c <= 'Z' {
        let b: u8 = c as u8;
        (b + 32) as char
    } else {
        c
    }
}

/// Equality after lowercasing ASCII letters.
pub fn str_eq_ignore_ascii_case(a: &str, b: &str) -> (r: bool)
    ensures
        r == eq_ignore_ascii_case(a@, b@),
{
    let n = a.unicode_len();
    if n != b.unicode_len() {
        return false;
    }
    let mut i: usize = 0;
    while i < n
        invariant
            n == a@.len(),
            n == b@.len(),
            i <= n,
            forall|j: int| 0 <= j < i ==> ascii_lower_char(a@[j]) == ascii_lower_char(b@[j]),
        decreases n - i,
    {
        if ascii_lower(a.get_char(i)) != ascii_lower(b.get_char(i)) {
            return false;
        }
        i = i + 1;
    }
    true
}

/// `char::escape_debug` of a character: the character itself where Unicode
/// counts it printable and not a grapheme extender, `\u{..}` otherwise.
pub uninterp spec fn char_escape_debug(c: char) -> Seq<char>;

/// Calls `char::escape_debug` and collects the escape into a string. Trusted:
/// the result is `char_escape_debug(c)`; which characters are escaped depends
/// on Unicode tables that are not spelled out here.
#[verifier::external_body]
fn escape_debug_char(c: char) -> (r: String)
    ensures
        r@ == char_escape_debug(c),
{
    c.escape_debug().to_string()
}

/// One character as it appears inside a double-quoted debug rendering of a
/// string: `\0 \t \r \n \\ \"` escaped, other ASCII control characters as
/// `\u{..}` in lowercase hexadecimal, other ASCII characters unchanged, and
/// a non-ASCII character as `char::escape_debug` renders it.
pub open spec fn debug_escape_char(c: char) -> Seq<char> {
    if c == '\0' {
        "\\0"@
    } else if c == '\t' {
        "\\t"@
    } else if c == '\r' {
        "\\r"@
    } else if c == '\n' {
        "\\n"@
    } else if c == '\\' {
        "\\\\"@
    } else if c == '"' {
        "\\\""@
    } else if (c as u32) < 0x20 || (c as u32) == 0x7f {
        "\\u{"@ + (if (c as u32) < 16 {
            hex_fixed(c as u32 as nat, 1)
        } else {
            hex_fixed(c as u32 as nat, 2)
        }) + "}"@
    } else if (c as u32) < 0x80 {
        seq![c]
    } else {
        char_escape_debug(c)
    }
}

/// Debug escaping of a character sequence, without the quotes.
pub open spec fn debug_escape(s: Seq<char>) -> Seq<char>
    decreases s.len(),
{
    if s.len() == 0 {
        Seq::empty()
    } else {
        debug_escape(s.drop_last()) + debug_escape_char(s.last())
    }
}

/// A string in double quotes with its characters debug-escaped: Rust's `{:?}`
/// rendering of a string.
pub open spec fn debug_quoted(s: Seq<char>) -> Seq<char> {
    "\""@ + debug_escape(s) + "\""@
}

/// Append character `i` of `text`, debug-escaped.
fn push_debug_char(s: &mut String, text: &str, i: usize)
    requires
        i < text@.len() <= usize::MAX,
    ensures
        final(s)@ == old(s)@ + debug_escape_char(text@[i as int]),
{
    let c = text.get_char(i);
    if c == '\0' {
        s.append("\\0");
    } else if c == '\t' {
        s.append("\\t");
    } else if c == '\r' {
        s.append("\\r");
    } else if c == '\n' {
        s.append("\\n");
    } else if c == '\\' {
        s.append("\\\\");
    } else if c == '"' {
        s.append("\\\"");
    } else if (c as u32) < 0x20 || (c as u32) == 0x7f {
        s.append("\\u{");
        let code = c as u32;
        if code < 16 {
            push_hex_fixed(s, code as u64, 1);
        } else {
            push_hex_fixed(s, code as u64, 2);
        }
        s.append("}");
    } else if (c as u32) < 0x80 {
        let one = text.substring_char(i, i + 1);
        proof {
            assert(one@ =~= seq![c]);
        }
        s.append(one);
    } else {
        let esc = escape_debug_char(c);
        s.append(esc.as_str());
    }
}

/// Append `text` in double quotes, its characters debug-escaped.
pub fn push_debug_quoted(s: &mut String, text: &str)
    ensures
        final(s)@ == old(s)@ + debug_quoted(text@),
{
    s.append("\"");
    let n = text.unicode_len();
    let mut i: usize = 0;
    while i < n
        invariant
            n == text@.len(),
            i <= n,
            s@ == old(s)@ + "\""@ + debug_escape(text@.subrange(0, i as int)),
        decreases n - i,
    {
        push_debug_char(s, text, i);
        proof {
            let pre = text@.subrange(0, i + 1);
            assert(pre.drop_last() =~= text@.subrange(0, i as int));
            assert(pre.last() == text@[i as int]);
        }
        i = i + 1;
    }
    s.append("\"");
    proof {
        assert(text@.subrange(0, n as int) =~= text@);
    }
}

/// `c` is an ASCII decimal digit.
pub open spec fn is_digit(c: char) -> bool {
    '0' <= c && c <= '9'
}

/// Value of a run of decimal digits, most significant first.
pub open spec fn digits_value(s: Seq<char>) -> nat
    decreases s.len(),
{
    if s.len() == 0 {
        0
    } else {
        digits_value(s.drop_last()) * 10 + ((s.last() as u32) - 48) as nat
    }
}

/// The digits part of an unsigned decimal: the text without one leading `+`.
pub open spec fn unsigned_body(s: Seq<char>) -> Seq<char> {
    if s.len() > 0 && s[0] == '+' {
        s.drop_first()
    } else {
        s
    }
}

/// Every character is an ASCII digit.
pub open spec fn all_digits(s: Seq<char>) -> bool {
    forall|i: int| 0 <= i < s.len() ==> #[trigger] is_digit(s[i])
}

/// The unsigned decimal a text denotes as Rust's `usize::from_str` reads it:
/// an optional `+`, then one or more ASCII digits, of a value that fits.
pub open spec fn parse_usize_spec(s: Seq<char>) -> Option<usize> {
    let body = unsigned_body(s);
    if body.len() == 0 || !all_digits(body) {
        None
    } else if digits_value(body) > usize::MAX {
        None
    } else {
        Some(digits_value(body) as usize)
    }
}

proof fn lemma_digits_value_monotone(s: Seq<char>, k: int)
    requires
        0 <= k <= s.len(),
        all_digits(s),
    ensures
        digits_value(s.subrange(0, k)) <= digits_value(s),
    decreases s.len() - k,
{
    if k < s.len() {
        lemma_digits_value_monotone(s, k + 1);
        let pre = s.subrange(0, k + 1);
        assert(pre.drop_last() =~= s.subrange(0, k));
        assert(is_digit(s[k]));
        assert(pre.last() == s[k]);
        assert(digits_value(pre) == digits_value(s.subrange(0, k)) * 10 + ((s[k] as u32) - 48) as nat);
    } else {
        assert(s.subrange(0, k) =~= s);
    }
}

/// Parse an unsigned decimal as `usize::from_str` does.
pub fn parse_usize(s: &str) -> (r: Option<usize>)
    ensures
        r == parse_usize_spec(s@),
{
    let n = s.unicode_len();
    let start: usize = if n > 0 && s.get_char(0) == '+' {
        1
    } else {
        0
    };
    let ghost body = unsigned_body(s@);
    proof {
        assert(body =~= s@.subrange(start as int, n as int));
    }
    if start == n {
        return None;
    }
    let mut value: usize = 0;
    let mut i: usize = start;
    while i < n
        invariant
            n == s@.len(),
            start <= i <= n,
            start < n,
            body == unsigned_body(s@),
            body =~= s@.subrange(start as int, n as int),
            forall|j: int| 0 <= j < i - start ==> #[trigger] is_digit(body[j]),
            value == digits_value(body.subrange(0, i - start)),
        decreases n - i,
    {
        let c = s.get_char(i);
        proof {
            assert(body[i - start] == c);
        }
        if !('0' <= c && c <= '9') {
            proof {
                assert(!is_digit(body[i - start]));
                assert(!all_digits(body));
            }
            return None;
        }
        let d = (c as u32 - 48) as usize;
        let ghost pre = body.subrange(0, i + 1 - start);
        proof {
            assert(pre.drop_last() =~= body.subrange(0, i - start));
            assert(pre.last() == c);
            assert(digits_value(pre) == value * 10 + d);
        }
        match value.checked_mul(10) {
            None => {
                proof {
                    assert(digits_value(pre) > usize::MAX);
                    if all_digits(body) {
                        lemma_digits_value_monotone(body, i + 1 - start);
                    }
                }
                return None;
            },
            Some(v10) => match v10.checked_add(d) {
                None => {
                    proof {
                        assert(digits_value(pre) > usize::MAX);
                        if all_digits(body) {
                            lemma_digits_value_monotone(body, i + 1 - start);
                        }
                    }
                    return None;
                },
                Some(v) => {
                    value = v;
                },
            },
        }
        i = i + 1;
    }
    proof {
        assert(body.subrange(0, n - start) =~= body);
    }
    Some(value)
}

proof fn lemma_decimal_digits_value(n: nat)
    ensures
        decimal_digits(n).len() >= 1,
        all_digits(decimal_digits(n)),
        digits_value(decimal_digits(n)) == n,
    decreases n,
{
    if n >= 10 {
        lemma_decimal_digits_value(n / 10);
        let prev = decimal_digits(n / 10);
        let d = digit_char((n % 10) as int);
        assert(d as u32 == 48 + n % 10);
        assert(is_digit(d));
        assert(decimal_digits(n) == prev.push(d));
        assert(decimal_digits(n).last() == d);
        assert((n / 10) * 10 + n % 10 == n);
        assert(digits_value(decimal_digits(n)) == digits_value(decimal_digits(n).drop_last()) * 10
            + ((decimal_digits(n).last() as u32) - 48) as nat);
        assert(decimal_digits(n).drop_last() =~= prev);
        assert forall|i: int| 0 <= i < decimal_digits(n).len() implies #[trigger] is_digit(
            decimal_digits(n)[i],
        ) by {
            if i < prev.len() {
                assert(decimal_digits(n)[i] == prev[i]);
            }
        }
    } else {
        assert(decimal_digits(n) == seq![digit_char(n as int)]);
        assert(digit_char(n as int) as u32 == 48 + n);
        assert(decimal_digits(n).drop_last() =~= Seq::<char>::empty());
        assert(digits_value(decimal_digits(n)) == digits_value(decimal_digits(n).drop_last()) * 10
            + ((decimal_digits(n).last() as u32) - 48) as nat);
    }
}

/// Reading back the decimal rendering of a `usize` gives the value.
pub proof fn law_decimal_round_trip(n: usize)
    ensures
        parse_usize_spec(decimal_digits(n as nat)) == Some(n),
{
    lemma_decimal_digits_value(n as nat);
    let s = decimal_digits(n as nat);
    assert(is_digit(s[0]));
    assert(unsigned_body(s) == s);
}

} // verus!
