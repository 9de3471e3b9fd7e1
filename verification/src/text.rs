use vstd::prelude::*;

verus! {

/// The character for one decimal digit.
pub open spec fn digit_char(d: int) -> char {
    if d == 0 { '0' }
    else if d == 1 { '1' }
    else if d == 2 { '2' }
    else if d == 3 { '3' }
    else if d == 4 { '4' }
    else if d == 5 { '5' }
    else if d == 6 { '6' }
    else if d == 7 { '7' }
    else if d == 8 { '8' }
    else { '9' }
}

/// The decimal representation of `n`, most significant digit first, with no
/// leading zero except for `n == 0` itself.
pub open spec fn dec_of(n: nat) -> Seq<char>
    decreases n,
{
    if n < 10 {
        seq![digit_char(n as int)]
    } else {
        dec_of(n / 10).push(digit_char((n % 10) as int))
    }
}

fn digit_str(d: u64) -> (r: &'static str)
    requires
        d < 10,
    ensures
        r@ == seq![digit_char(d as int)],
{
    let r = if d == 0 { "0" }
    else if d == 1 { "1" }
    else if d == 2 { "2" }
    else if d == 3 { "3" }
    else if d == 4 { "4" }
    else if d == 5 { "5" }
    else if d == 6 { "6" }
    else if d == 7 { "7" }
    else if d == 8 { "8" }
    else { "9" };
    proof {
        reveal_strlit("0");
        reveal_strlit("1");
        reveal_strlit("2");
        reveal_strlit("3");
        reveal_strlit("4");
        reveal_strlit("5");
        reveal_strlit("6");
        reveal_strlit("7");
        reveal_strlit("8");
        reveal_strlit("9");
        assert(r@ =~= seq![digit_char(d as int)]);
    }
    r
}

/// Appends the decimal representation of `n` to `out`.
pub fn push_decimal(out: &mut String, n: u64)
    ensures
        final(out)@ == old(out)@ + dec_of(n as nat),
    decreases n,
{
    if n >= 10 {
        push_decimal(out, n / 10);
        let d = digit_str(n % 10);
        out.append(d);
        proof {
            assert(out@ =~= old(out)@ + dec_of(n as nat));
        }
    } else {
        let d = digit_str(n);
        out.append(d);
        proof {
            assert(out@ =~= old(out)@ + dec_of(n as nat));
        }
    }
}

/// The decimal representation of `n` as a fresh string.
pub fn u64_to_string(n: u64) -> (r: String)
    ensures
        r@ == dec_of(n as nat),
{
    let mut s = String::new();
    push_decimal(&mut s, n);
    proof {
        assert(s@ =~= dec_of(n as nat));
    }
    s
}

/// What `core::str::from_utf8` decodes a byte sequence to: the character
/// sequence where the bytes are valid UTF-8, nothing otherwise.
pub uninterp spec fn utf8_decode(bytes: Seq<u8>) -> Option<Seq<char>>;

/// What `str::trim` leaves of a character sequence once leading and trailing
/// whitespace is removed.
pub uninterp spec fn trim_of(s: Seq<char>) -> Seq<char>;

/// True when every byte is plain ASCII.
pub open spec fn all_ascii(bytes: Seq<u8>) -> bool {
    forall|i: int| 0 <= i < bytes.len() ==> bytes[i] < 128
}

/// The characters that a sequence of ASCII bytes spells.
pub open spec fn ascii_chars(bytes: Seq<u8>) -> Seq<char> {
    bytes.map(|_i: int, b: u8| b as char)
}

/// Relies on core::str::from_utf8: decodes the bytes when they are valid
/// UTF-8; the result depends on the bytes alone, and ASCII bytes decode to
/// themselves.
#[verifier::external_body]
fn utf8_to_string(bytes: &Vec<u8>) -> (r: Option<String>)
    ensures
        r matches Some(s) ==> utf8_decode(bytes@) == Some(s@),
        (r is Some) == (utf8_decode(bytes@) is Some),
        r matches Some(s) ==> (all_ascii(bytes@) ==> s@ == ascii_chars(bytes@)),
        r is Some || !all_ascii(bytes@),
{
    match core::str::from_utf8(bytes.as_slice()) {
        Ok(s) => Some(s.to_string()),
        Err(_) => None,
    }
}

/// Relies on str::trim: removes leading and trailing whitespace; the result
/// depends on the characters alone and is never longer than the input.
#[verifier::external_body]
fn trim_str(s: &str) -> (r: String)
    ensures
        r@ == trim_of(s@),
        r@.len() <= s@.len(),
{
    s.trim().to_owned()
}

/// True when `needle` occurs contiguously inside `hay`.
pub open spec fn is_substring_of(needle: Seq<char>, hay: Seq<char>) -> bool {
    exists|i: int|
        0 <= i && i + needle.len() <= hay.len() && #[trigger] hay.subrange(i, i + needle.len())
            == needle
}

/// Relies on str::contains with a `&str` pattern: true exactly when the
/// pattern matches a sub-slice of the string.
#[verifier::external_body]
pub(crate) fn str_contains(hay: &str, needle: &str) -> (r: bool)
    ensures
        r == is_substring_of(needle@, hay@),
{
    hay.contains(needle)
}

/// Relies on <str as PartialEq>::eq: true exactly when the two strings hold
/// the same characters.
#[verifier::external_body]
pub(crate) fn str_eq(a: &str, b: &str) -> (r: bool)
    ensures
        r == (a@ == b@),
{
    a == b
}

/// The cleaned text a registry buffer holds: NUL bytes dropped, the rest
/// decoded as UTF-8 and trimmed; an undecodable buffer cleans to nothing.
pub open spec fn ansi_clean(bytes: Seq<u8>) -> Seq<char> {
    match utf8_decode(bytes.filter(|b: u8| b != 0)) {
        Some(s) => trim_of(s),
        None => Seq::<char>::empty(),
    }
}

/// Turns a fixed-size native text buffer into a usable string: NUL padding
/// is dropped, the remainder decoded and trimmed.
pub fn ansi_to_string(buffer: &[u8]) -> (r: String)
    ensures
        r@ == ansi_clean(buffer@),
{
    let mut kept: Vec<u8> = Vec::new();
    let n: usize = buffer.len();
    let mut i: usize = 0;
    while i < n
        invariant
            n == buffer@.len(),
            i <= n,
            kept@ == buffer@.subrange(0, i as int).filter(|b: u8| b != 0),
        decreases n - i,
    {
        let b: u8 = buffer[i];
        proof {
            reveal(Seq::filter);
            assert(buffer@.subrange(0, i + 1).drop_last() =~= buffer@.subrange(0, i as int));
            assert(buffer@.subrange(0, i + 1).last() == buffer@[i as int]);
        }
        if b != 0 {
            kept.push(b);
        }
        i = i + 1;
    }
    proof {
        assert(buffer@.subrange(0, n as int) =~= buffer@);
    }
    match utf8_to_string(&kept) {
        Some(s) => trim_str(s.as_str()),
        None => String::new(),
    }
}

/// A human-readable failure cause: a fixed prefix followed by the numeric
/// error code a native query reported.
pub fn message_with_code(prefix: &str, code: u32) -> (r: String)
    ensures
        r@ == prefix@ + dec_of(code as nat),
{
    let mut s = prefix.to_owned();
    push_decimal(&mut s, code as u64);
    s
}

} // verus!
