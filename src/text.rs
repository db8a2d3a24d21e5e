use vstd::prelude::*;
use vstd::utf8::*;

verus! {

/// The characters with the Unicode `White_Space` property: what trimming removes.
pub open spec fn is_white(c: char) -> bool {
    let v = c as u32;
    ||| 9 <= v <= 13
    ||| v == 32
    ||| v == 0x85
    ||| v == 0xa0
    ||| v == 0x1680
    ||| 0x2000 <= v <= 0x200a
    ||| v == 0x2028
    ||| v == 0x2029
    ||| v == 0x202f
    ||| v == 0x205f
    ||| v == 0x3000
}

/// `s` without its leading white space.
pub open spec fn trim_front(s: Seq<char>) -> Seq<char>
    decreases s.len(),
{
    if s.len() > 0 && is_white(s[0]) {
        trim_front(s.drop_first())
    } else {
        s
    }
}

/// `s` without its trailing white space.
pub open spec fn trim_back(s: Seq<char>) -> Seq<char>
    decreases s.len(),
{
    if s.len() > 0 && is_white(s.last()) {
        trim_back(s.drop_last())
    } else {
        s
    }
}

/// `s` without white space at either end.
pub open spec fn trimmed(s: Seq<char>) -> Seq<char> {
    trim_back(trim_front(s))
}

/// The bytes that carry `text` on the wire: its UTF-8 encoding and a line feed.
pub open spec fn line_frame(text: Seq<char>) -> Seq<u8> {
    encode_utf8(text).push(10u8)
}

/// Tells whether `c` is Unicode white space.
pub fn is_white_space(c: char) -> (r: bool)
    ensures
        r == is_white(c),
{
    let v = c as u32;
    (9 <= v && v <= 13) || v == 32 || v == 0x85 || v == 0xa0 || v == 0x1680 || (0x2000 <= v && v
        <= 0x200a) || v == 0x2028 || v == 0x2029 || v == 0x202f || v == 0x205f || v == 0x3000
}

/// Removes the white space at both ends of `s`.
pub fn trim_text(s: &str) -> (r: String)
    ensures
        r@ == trimmed(s@),
{
    let n = s.unicode_len();
    let mut i: usize = 0;
    assert(s@.subrange(0, n as int) =~= s@);
    while i < n && is_white_space(s.get_char(i))
        invariant
            n == s@.len(),
            i <= n,
            trim_front(s@) == trim_front(s@.subrange(i as int, n as int)),
        decreases n - i,
    {
        assert(s@.subrange(i as int, n as int).drop_first() =~= s@.subrange(i + 1, n as int));
        i = i + 1;
    }
    assert(trim_front(s@) == s@.subrange(i as int, n as int));
    let mut j: usize = n;
    while j > i && is_white_space(s.get_char(j - 1))
        invariant
            n == s@.len(),
            i <= j <= n,
            trim_back(s@.subrange(i as int, n as int)) == trim_back(s@.subrange(i as int, j as int)),
        decreases j,
    {
        assert(s@.subrange(i as int, j as int).drop_last() =~= s@.subrange(i as int, j - 1));
        j = j - 1;
    }
    String::from_str(s.substring_char(i, j))
}

/// Relies on `String::from_utf8`: it accepts exactly the valid UTF-8 byte strings, and then
/// holds the characters they encode.
#[verifier::external_body]
fn utf8_to_string(bytes: &[u8]) -> (r: Option<String>)
    ensures
        r is Some <==> valid_utf8(bytes@),
        r is Some ==> r->0@ == decode_utf8(bytes@),
{
    String::from_utf8(bytes.to_vec()).ok()
}

/// Decodes a line received from the peer and trims it; `None` where the bytes are not UTF-8.
pub fn decode_trimmed(bytes: &[u8]) -> (r: Option<String>)
    ensures
        r is Some <==> valid_utf8(bytes@),
        r is Some ==> r->0@ == trimmed(decode_utf8(bytes@)),
{
    match utf8_to_string(bytes) {
        Some(s) => Some(trim_text(s.as_str())),
        None => None,
    }
}

/// The bytes that carry `text` on the wire.
pub fn encode_line(text: &str) -> (r: Vec<u8>)
    ensures
        r@ == line_frame(text@),
{
    let mut v = text.as_bytes_vec();
    v.push(10u8);
    v
}

} // verus!
