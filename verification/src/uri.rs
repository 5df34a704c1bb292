//! Percent-decoding of the path of an `image-preview:` URI into a file path.
use vstd::prelude::*;

verus! {

/// The value of an ASCII hexadecimal digit.
pub open spec fn hex_digit(b: u8) -> Option<u8> {
    if 48 <= b && b <= 57 {
        Some((b - 48) as u8)
    } else if 97 <= b && b <= 102 {
        Some((b - 87) as u8)
    } else if 65 <= b && b <= 70 {
        Some((b - 55) as u8)
    } else {
        None
    }
}

/// `u8::from_str_radix(.., 16)` on the two bytes `a b`: two hex digits, or `+` and one.
pub open spec fn escape_value(a: u8, b: u8) -> Option<u8> {
    if a == 43 {
        hex_digit(b)
    } else {
        match (hex_digit(a), hex_digit(b)) {
            (Some(x), Some(y)) => Some((16 * x + y) as u8),
            _ => None,
        }
    }
}

/// The bytes of `b` from position `i` on, decoded: `%` followed by two more bytes that
/// form an escape (see `escape_value`) stands for the escaped byte; any other byte stands
/// for itself.
pub open spec fn decoded_from(b: Seq<u8>, i: int) -> Seq<u8>
    decreases b.len() - i,
{
    if i >= b.len() {
        Seq::empty()
    } else if b[i] == 37 && i + 2 < b.len() && escape_value(b[i + 1], b[i + 2]) is Some {
        seq![escape_value(b[i + 1], b[i + 2])->0] + decoded_from(b, i + 3)
    } else {
        seq![b[i]] + decoded_from(b, i + 1)
    }
}

/// The percent-decoded bytes of `b` (see `decoded_from`).
pub open spec fn percent_decoded(b: Seq<u8>) -> Seq<u8> {
    decoded_from(b, 0)
}

fn hex_digit_of(b: u8) -> (r: Option<u8>)
    ensures
        r == hex_digit(b),
{
    if 48 <= b && b <= 57 {
        Some(b - 48)
    } else if 97 <= b && b <= 102 {
        Some(b - 87)
    } else if 65 <= b && b <= 70 {
        Some(b - 55)
    } else {
        None
    }
}

fn escape_value_of(a: u8, b: u8) -> (r: Option<u8>)
    ensures
        r == escape_value(a, b),
{
    if a == 43 {
        return hex_digit_of(b);
    }
    match (hex_digit_of(a), hex_digit_of(b)) {
        (Some(x), Some(y)) => {
            assert(16 * x + y < 256);
            Some(16 * x + y)
        },
        _ => None,
    }
}

/// The percent-decoded bytes of `b` (see `percent_decoded`).
pub fn percent_decode_bytes(b: &[u8]) -> (r: Vec<u8>)
    ensures
        r@ == percent_decoded(b@),
{
    let mut r: Vec<u8> = Vec::new();
    let mut i: usize = 0;
    assert(r@ + decoded_from(b@, 0) =~= percent_decoded(b@));
    while i < b.len()
        invariant
            i <= b.len(),
            r@ + decoded_from(b@, i as int) == percent_decoded(b@),
        decreases b.len() - i,
    {
        let ghost before = r@;
        if b[i] == 37 && b.len() - i > 2 {
            if let Some(v) = escape_value_of(b[i + 1], b[i + 2]) {
                r.push(v);
                assert(before + decoded_from(b@, i as int) =~= r@ + decoded_from(b@, i + 3));
                i = i + 3;
                continue;
            }
        }
        r.push(b[i]);
        assert(before + decoded_from(b@, i as int) =~= r@ + decoded_from(b@, i + 1));
        i = i + 1;
    }
    assert(decoded_from(b@, i as int) =~= Seq::<u8>::empty());
    assert(r@ + Seq::<u8>::empty() =~= r@);
    r
}

/// What `String::from_utf8_lossy` makes of `bytes`.
pub uninterp spec fn utf8_lossy(bytes: Seq<u8>) -> Seq<char>;

/// `String::from_utf8_lossy`: the text of `bytes`, with each invalid sequence replaced by
/// U+FFFD. Claimed: the result is `utf8_lossy` of the bytes, and the plain decoding when the
/// bytes are valid UTF-8 (as its documentation says); the replacement itself is not stated.
#[verifier::external_body]
fn string_from_utf8_lossy(bytes: &[u8]) -> (r: String)
    ensures
        r@ == utf8_lossy(bytes@),
        vstd::utf8::valid_utf8(bytes@) ==> r@ == vstd::utf8::decode_utf8(bytes@),
{
    String::from_utf8_lossy(bytes).into_owned()
}

/// No `%` is followed by three more bytes of which the third continues a character, a
/// place where the escape would cut a character in two.
pub open spec fn escapes_on_char_boundaries(b: Seq<u8>) -> bool {
    forall|j: int| 0 <= j && j + 3 < b.len() && b[j] == 37 ==> !vstd::utf8::is_continuation_byte(#[trigger] b[j + 3])
}

/// The file path a percent-encoded URI path stands for: its percent-decoded bytes read as
/// UTF-8, invalid sequences replaced.
pub fn percent_decode(input: &str) -> (r: String)
    requires
        escapes_on_char_boundaries(vstd::utf8::encode_utf8(input@)),
    ensures
        r@ == utf8_lossy(percent_decoded(vstd::utf8::encode_utf8(input@))),
        vstd::utf8::valid_utf8(percent_decoded(vstd::utf8::encode_utf8(input@))) ==> r@ == vstd::utf8::decode_utf8(percent_decoded(vstd::utf8::encode_utf8(input@))),
{
    let bytes = input.as_bytes();
    let decoded = percent_decode_bytes(bytes);
    string_from_utf8_lossy(decoded.as_slice())
}


proof fn lemma_decoded_from_plain(b: Seq<u8>, i: int)
    requires
        0 <= i <= b.len(),
        forall|j: int| 0 <= j < b.len() ==> b[j] != 37,
    ensures
        decoded_from(b, i) == b.skip(i),
    decreases b.len() - i,
{
    if i < b.len() {
        lemma_decoded_from_plain(b, i + 1);
        assert(seq![b[i]] + b.skip(i + 1) =~= b.skip(i));
    } else {
        assert(b.skip(i) =~= Seq::<u8>::empty());
    }
}

/// Bytes without `%` decode to themselves; so a path without `%` comes back unchanged.
pub proof fn lemma_plain_path_unchanged(path: Seq<char>)
    requires
        forall|j: int| 0 <= j < vstd::utf8::encode_utf8(path).len() ==> vstd::utf8::encode_utf8(path)[j] != 37,
    ensures
        percent_decoded(vstd::utf8::encode_utf8(path)) == vstd::utf8::encode_utf8(path),
        vstd::utf8::valid_utf8(percent_decoded(vstd::utf8::encode_utf8(path))),
        vstd::utf8::decode_utf8(percent_decoded(vstd::utf8::encode_utf8(path))) == path,
{
    let b = vstd::utf8::encode_utf8(path);
    lemma_decoded_from_plain(b, 0);
    assert(b.skip(0) =~= b);
    vstd::utf8::encode_utf8_valid_utf8(path);
    vstd::utf8::encode_utf8_decode_utf8(path);
}

} // verus!
