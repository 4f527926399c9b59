//! Text utilities the dispatcher is built on: decimal formatting and parsing,
//! the identifier grammar, equality helpers, and UTF-8 decoding of request
//! bodies.

use vstd::prelude::*;
use vstd::string::StringExecFns;
use vstd::utf8::valid_utf8;
use vstd::utf8::decode_utf8;

verus! {

/// Relies on `String::push`: appends the character to the string.
#[verifier::external_body]
pub fn string_push(s: &mut String, c: char)
    ensures
        final(s)@ == old(s)@.push(c),
{
    s.push(c);
}

/// Relies on `String::from_utf8`: succeeds exactly when the bytes are valid
/// UTF-8, and then returns the string those bytes encode.
#[verifier::external_body]
pub fn bytes_to_string(v: Vec<u8>) -> (r: Option<String>)
    ensures
        r is Some <==> valid_utf8(v@),
        r matches Some(s) ==> s@ == decode_utf8(v@),
{
    String::from_utf8(v).ok()
}

/// The character-sequence view of an optional string.
pub open spec fn opt_view(o: Option<String>) -> Option<Seq<char>> {
    match o {
        Option::None => Option::None,
        Some(s) => Some(s@),
    }
}

/// String-slice equality with its meaning over the character views.
pub fn str_eq(a: &str, b: &str) -> (r: bool)
    ensures
        r == (a@ == b@),
{
    let sa = a.to_owned();
    let sb = b.to_owned();
    sa.eq(&sb)
}

/// Lower-case an ASCII letter, given as its code point; other code points are
/// unchanged.
pub open spec fn spec_lower_code(u: u32) -> u32 {
    if 65 <= u <= 90 {
        (u + 32) as u32
    } else {
        u
    }
}

/// Case-insensitive character equality, folding ASCII letters only.
pub open spec fn eq_char_nocase(a: char, b: char) -> bool {
    spec_lower_code(a as u32) == spec_lower_code(b as u32)
}

/// Case-insensitive string equality, folding ASCII letters only.
pub open spec fn eq_nocase(a: Seq<char>, b: Seq<char>) -> bool {
    a.len() == b.len() && forall|i: int| 0 <= i < a.len() ==> eq_char_nocase(a[i], b[i])
}

/// ASCII-case-insensitive comparison of two string slices.
pub fn str_eq_nocase(a: &str, b: &str) -> (r: bool)
    ensures
        r == eq_nocase(a@, b@),
{
    let na = a.unicode_len();
    let nb = b.unicode_len();
    if na != nb {
        return false;
    }
    let mut i: usize = 0;
    while i < na
        invariant
            na == a@.len(),
            na == b@.len(),
            0 <= i <= na,
            forall|j: int| 0 <= j < i ==> eq_char_nocase(a@[j], b@[j]),
        decreases na - i,
    {
        let ca = a.get_char(i) as u32;
        let cb = b.get_char(i) as u32;
        let la = if 65 <= ca && ca <= 90 {
            ca + 32
        } else {
            ca
        };
        let lb = if 65 <= cb && cb <= 90 {
            cb + 32
        } else {
            cb
        };
        if la != lb {
            return false;
        }
        i = i + 1;
    }
    true
}

/// The decimal digit character for a value below ten.
pub open spec fn spec_digit(d: nat) -> char {
    if d == 0 {
        '0'
    } else if d == 1 {
        '1'
    } else if d == 2 {
        '2'
    } else if d == 3 {
        '3'
    } else if d == 4 {
        '4'
    } else if d == 5 {
        '5'
    } else if d == 6 {
        '6'
    } else if d == 7 {
        '7'
    } else if d == 8 {
        '8'
    } else {
        '9'
    }
}

/// The usual decimal rendering of a natural number, without leading zeros
/// (except for zero itself).
pub open spec fn dec_of(n: nat) -> Seq<char>
    decreases n,
{
    if n < 10 {
        seq![spec_digit(n)]
    } else {
        dec_of(n / 10).push(spec_digit(n % 10))
    }
}

fn digit_char(d: u32) -> (c: char)
    requires
        d < 10,
    ensures
        c == spec_digit(d as nat),
{
    if d == 0 {
        '0'
    } else if d == 1 {
        '1'
    } else if d == 2 {
        '2'
    } else if d == 3 {
        '3'
    } else if d == 4 {
        '4'
    } else if d == 5 {
        '5'
    } else if d == 6 {
        '6'
    } else if d == 7 {
        '7'
    } else if d == 8 {
        '8'
    } else {
        '9'
    }
}

/// Render a number in decimal, as the health probe stores timestamps.
pub fn u32_to_dec(n: u32) -> (r: String)
    ensures
        r@ == dec_of(n as nat),
    decreases n,
{
    if n < 10 {
        let mut s = String::new();
        string_push(&mut s, digit_char(n));
        s
    } else {
        let mut s = u32_to_dec(n / 10);
        string_push(&mut s, digit_char(n % 10));
        s
    }
}

/// A decimal digit.
pub open spec fn is_dec_digit(c: char) -> bool {
    '0' <= c && c <= '9'
}

/// Numeric value of a decimal digit character.
pub open spec fn digit_val(c: char) -> nat {
    (c as u32 - '0' as u32) as nat
}

pub open spec fn all_dec_digits(s: Seq<char>) -> bool {
    forall|i: int| 0 <= i < s.len() ==> is_dec_digit(s[i])
}

/// Value of a digit string read in base ten.
pub open spec fn dec_val(s: Seq<char>) -> nat
    decreases s.len(),
{
    if s.len() == 0 {
        0
    } else {
        dec_val(s.drop_last()) * 10 + digit_val(s.last())
    }
}

/// What parsing an expiration override yields: the numeric value exactly when
/// the text is one or more decimal digits whose value fits in 32 bits.
pub open spec fn spec_parse_u32(s: Seq<char>) -> Option<u32> {
    if s.len() > 0 && all_dec_digits(s) && dec_val(s) <= u32::MAX {
        Some(dec_val(s) as u32)
    } else {
        None
    }
}

proof fn lemma_dec_val_take_step(s: Seq<char>, i: int)
    requires
        0 <= i < s.len(),
    ensures
        dec_val(s.take(i + 1)) == dec_val(s.take(i)) * 10 + digit_val(s[i]),
{
    assert(s.take(i + 1).drop_last() =~= s.take(i));
    assert(s.take(i + 1).last() == s[i]);
}

proof fn lemma_dec_val_take_grows(s: Seq<char>, i: int, j: int)
    requires
        0 <= i <= j <= s.len(),
    ensures
        dec_val(s.take(i)) <= dec_val(s.take(j)),
    decreases j - i,
{
    if i < j {
        lemma_dec_val_take_grows(s, i, j - 1);
        lemma_dec_val_take_step(s, j - 1);
    }
}

/// Parse a decimal number, rejecting anything but digits and values that do
/// not fit in 32 bits.
pub fn parse_u32(s: &str) -> (r: Option<u32>)
    ensures
        r == spec_parse_u32(s@),
{
    let n = s.unicode_len();
    if n == 0 {
        return None;
    }
    let mut acc: u64 = 0;
    let mut i: usize = 0;
    while i < n
        invariant
            n == s@.len(),
            0 <= i <= n,
            all_dec_digits(s@.take(i as int)),
            acc == dec_val(s@.take(i as int)),
            acc <= u32::MAX,
        decreases n - i,
    {
        let c = s.get_char(i);
        if !(c >= '0' && c <= '9') {
            return None;
        }
        let d = (c as u32) - 48;
        proof {
            lemma_dec_val_take_step(s@, i as int);
        }
        let next: u64 = acc * 10 + (d as u64);
        if next > 0xffff_ffff {
            proof {
                lemma_dec_val_take_grows(s@, i + 1, s@.len() as int);
                assert(s@.take(s@.len() as int) =~= s@);
            }
            return None;
        }
        acc = next;
        i = i + 1;
    }
    proof {
        assert(s@.take(n as int) =~= s@);
    }
    Some(acc as u32)
}

/// A character allowed in an identifier path segment.
pub open spec fn is_id_char(c: char) -> bool {
    ('a' <= c && c <= 'z') || ('A' <= c && c <= 'Z') || ('0' <= c && c <= '9') || c == '_' || c
        == '-'
}

/// A well-formed identifier: one or more identifier characters.
pub open spec fn is_id_seq(s: Seq<char>) -> bool {
    s.len() > 0 && forall|i: int| 0 <= i < s.len() ==> is_id_char(s[i])
}

/// Decide the identifier grammar.
pub fn is_id_str(s: &str) -> (r: bool)
    ensures
        r == is_id_seq(s@),
{
    let n = s.unicode_len();
    if n == 0 {
        return false;
    }
    let mut i: usize = 0;
    while i < n
        invariant
            n == s@.len(),
            0 <= i <= n,
            forall|j: int| 0 <= j < i ==> is_id_char(s@[j]),
        decreases n - i,
    {
        let c = s.get_char(i);
        let ok = (c >= 'a' && c <= 'z') || (c >= 'A' && c <= 'Z') || (c >= '0' && c <= '9') || c
            == '_' || c == '-';
        if !ok {
            return false;
        }
        i = i + 1;
    }
    true
}

/// A path of the form `<prefix><id>` with a well-formed identifier after the
/// prefix.
pub open spec fn prefix_id_match(path: Seq<char>, prefix: Seq<char>) -> bool {
    path.len() > prefix.len() && path.take(prefix.len() as int) == prefix && is_id_seq(
        path.skip(prefix.len() as int),
    )
}

/// Extract the identifier segment of a `<prefix><id>` path, if the path has
/// that shape.
pub fn match_prefix_id(path: &str, prefix: &str) -> (r: Option<String>)
    ensures
        r is Some <==> prefix_id_match(path@, prefix@),
        r matches Some(id) ==> id@ == path@.skip(prefix@.len() as int),
{
    let n = path.unicode_len();
    let p = prefix.unicode_len();
    if n <= p {
        return None;
    }
    let head = path.substring_char(0, p);
    if !str_eq(head, prefix) {
        return None;
    }
    let tail = path.substring_char(p, n);
    if !is_id_str(tail) {
        return None;
    }
    Some(tail.to_owned())
}

/// Append `middle`, `id` and a newline to the base URL: the body returned on
/// successful creation.
pub fn build_link(base: &String, middle: &str, id: &str) -> (r: String)
    ensures
        r@ == base@ + middle@ + id@ + "\n"@,
{
    let mut s = base.clone();
    s.append(middle);
    s.append(id);
    s.append("\n");
    s
}

} // verus!
