//! Strings compared through their UTF-8 bytes.
//!
//! A `&str` is viewed as its sequence of characters; what runs compares
//! bytes. The lemmas here carry equality, prefixes and a two-character ASCII
//! ending from the bytes back to the characters.

use vstd::prelude::*;
use vstd::utf8::*;
use vstd::string::*;

verus! {

/// The byte of the character `.`.
pub const DOT: u8 = 0x2e;

/// The byte of the character `*`.
pub const STAR: u8 = 0x2a;

/// The encoding of a concatenation is the concatenation of the encodings.
pub proof fn lemma_encode_concat(a: Seq<char>, b: Seq<char>)
    ensures
        encode_utf8(a + b) == encode_utf8(a) + encode_utf8(b),
    decreases a.len(),
{
    if a.len() == 0 {
        assert(a + b =~= b);
        assert(encode_utf8(a) + encode_utf8(b) =~= encode_utf8(b));
    } else {
        assert((a + b).drop_first() =~= a.drop_first() + b);
        lemma_encode_concat(a.drop_first(), b);
        assert(encode_utf8(a + b) =~= encode_utf8(a) + encode_utf8(b));
    }
}

/// Two strings with the same bytes are the same string.
pub proof fn lemma_encode_injective(a: Seq<char>, b: Seq<char>)
    requires
        encode_utf8(a) == encode_utf8(b),
    ensures
        a == b,
{
    encode_utf8_decode_utf8(a);
    encode_utf8_decode_utf8(b);
}

/// Where one valid encoding starts another, it ends on a character boundary
/// of the other.
proof fn lemma_prefix_ends_on_boundary(p: Seq<u8>, b: Seq<u8>)
    requires
        valid_utf8(p),
        valid_utf8(b),
        p.is_prefix_of(b),
    ensures
        is_char_boundary(b, p.len() as int),
    decreases p.len(),
{
    if p.len() != 0 {
        assert(p[0] == b[0]);
        let width = length_of_first_scalar(p);
        assert(width == length_of_first_scalar(b));
        assert(1 <= width <= p.len());
        let p_rest = pop_first_scalar(p);
        let b_rest = pop_first_scalar(b);
        assert(p_rest =~= b_rest.subrange(0, p.len() - width));
        lemma_prefix_ends_on_boundary(p_rest, b_rest);
    }
}

/// One string starts another exactly when its bytes start the other's bytes.
pub proof fn lemma_prefix_by_bytes(p: Seq<char>, r: Seq<char>)
    ensures
        p.is_prefix_of(r) <==> encode_utf8(p).is_prefix_of(encode_utf8(r)),
{
    let p_bytes = encode_utf8(p);
    let r_bytes = encode_utf8(r);
    if p.is_prefix_of(r) {
        let rest = r.subrange(p.len() as int, r.len() as int);
        assert(r =~= p + rest);
        lemma_encode_concat(p, rest);
        assert(p_bytes =~= r_bytes.subrange(0, p_bytes.len() as int));
    }
    if p_bytes.is_prefix_of(r_bytes) {
        encode_utf8_valid_utf8(p);
        encode_utf8_valid_utf8(r);
        lemma_prefix_ends_on_boundary(p_bytes, r_bytes);
        let cut = p_bytes.len() as int;
        decode_utf8_split(r_bytes, cut);
        encode_utf8_decode_utf8(p);
        encode_utf8_decode_utf8(r);
        assert(r_bytes.subrange(0, cut) =~= p_bytes);
        let rest = decode_utf8(r_bytes.subrange(cut, r_bytes.len() as int));
        assert(r =~= p + rest);
        assert(p =~= r.subrange(0, p.len() as int));
    }
}

/// The bytes of a string made of the two ASCII characters `first` and
/// `second`.
proof fn lemma_encode_ascii_pair(first: char, second: char)
    requires
        first as u32 <= 0x7f,
        second as u32 <= 0x7f,
    ensures
        encode_utf8(seq![first, second]) == seq![first as u8, second as u8],
{
    let pair = seq![first, second];
    assert(is_ascii_chars(pair));
    is_ascii_chars_encode_utf8(pair);
    assert(encode_utf8(pair) =~= seq![first as u8, second as u8]);
}

/// The bytes of a string made of the one ASCII character `only`.
pub proof fn lemma_encode_ascii_single(only: char)
    requires
        only as u32 <= 0x7f,
    ensures
        encode_utf8(seq![only]) == seq![only as u8],
{
    let single = seq![only];
    assert(is_ascii_chars(single));
    is_ascii_chars_encode_utf8(single);
    assert(encode_utf8(single) =~= seq![only as u8]);
}

/// Whether a string ends with the two characters `first`, `second`.
pub open spec fn ends_with_pair(s: Seq<char>, first: char, second: char) -> bool {
    s.len() >= 2 && s[s.len() - 2] == first && s[s.len() - 1] == second
}

/// A string ends with two given ASCII characters exactly when its bytes end
/// with their two bytes; what stands before them is then the same in
/// characters and in bytes.
pub proof fn lemma_ascii_ending_by_bytes(s: Seq<char>, first: char, second: char)
    requires
        first as u32 <= 0x7f,
        second as u32 <= 0x7f,
    ensures
        ends_with_pair(s, first, second) <==> {
            let bytes = encode_utf8(s);
            bytes.len() >= 2 && bytes[bytes.len() - 2] == first as u8 && bytes[bytes.len() - 1]
                == second as u8
        },
        ends_with_pair(s, first, second) ==> encode_utf8(s.subrange(0, s.len() - 2))
            == encode_utf8(s).subrange(0, encode_utf8(s).len() - 2),
{
    let bytes = encode_utf8(s);
    let pair = seq![first, second];
    lemma_encode_ascii_pair(first, second);
    if ends_with_pair(s, first, second) {
        let head = s.subrange(0, s.len() - 2);
        assert(s =~= head + pair);
        lemma_encode_concat(head, pair);
        assert(encode_utf8(head) =~= bytes.subrange(0, bytes.len() - 2));
    }
    if bytes.len() >= 2 && bytes[bytes.len() - 2] == first as u8 && bytes[bytes.len() - 1]
        == second as u8 {
        let cut = bytes.len() - 2;
        encode_utf8_valid_utf8(s);
        is_char_boundary_iff_not_is_continuation_byte(bytes, cut);
        decode_utf8_split(bytes, cut);
        encode_utf8_decode_utf8(s);
        encode_utf8_decode_utf8(pair);
        assert(bytes.subrange(cut, bytes.len() as int) =~= encode_utf8(pair));
        let head = decode_utf8(bytes.subrange(0, cut));
        assert(s =~= head + pair);
    }
}

/// Whether two byte strings are equal.
pub fn bytes_equal(a: &[u8], b: &[u8]) -> (equal: bool)
    ensures
        equal == (a@ == b@),
{
    if a.len() != b.len() {
        return false;
    }
    let mut i: usize = 0;
    while i < a.len()
        invariant
            a@.len() == b@.len(),
            i <= a@.len(),
            forall|j: int| 0 <= j < i ==> a@[j] == b@[j],
        decreases a@.len() - i,
    {
        if a[i] != b[i] {
            return false;
        }
        i += 1;
    }
    assert(a@ =~= b@);
    true
}

/// Whether `whole` starts with `pattern`.
pub fn bytes_start_with(whole: &[u8], pattern: &[u8]) -> (starts: bool)
    ensures
        starts == pattern@.is_prefix_of(whole@),
{
    if whole.len() < pattern.len() {
        return false;
    }
    let mut i: usize = 0;
    while i < pattern.len()
        invariant
            pattern@.len() <= whole@.len(),
            i <= pattern@.len(),
            forall|j: int| 0 <= j < i ==> whole@[j] == pattern@[j],
        decreases pattern@.len() - i,
    {
        if whole[i] != pattern[i] {
            assert(pattern@[i as int] != whole@.subrange(0, pattern@.len() as int)[i as int]);
            return false;
        }
        i += 1;
    }
    assert(pattern@ =~= whole@.subrange(0, pattern@.len() as int));
    true
}

/// Whether two strings are equal, character for character.
pub fn str_equal(a: &str, b: &str) -> (equal: bool)
    ensures
        equal == (a@ == b@),
{
    let equal = bytes_equal(a.as_bytes(), b.as_bytes());
    proof {
        if equal {
            lemma_encode_injective(a@, b@);
        }
    }
    equal
}

/// The items of a list written one after another with `separator` between
/// them.
pub open spec fn joined(items: Seq<Seq<char>>, separator: Seq<char>) -> Seq<char>
    decreases items.len(),
{
    if items.len() == 0 {
        Seq::empty()
    } else if items.len() == 1 {
        items[0]
    } else {
        joined(items.drop_last(), separator) + separator + items.last()
    }
}

/// Writes the items of a list one after another with `separator` between
/// them.
pub fn join(items: &Vec<String>, separator: &str) -> (text: String)
    ensures
        text@ == joined(items.deep_view(), separator@),
{
    let mut text = String::new();
    let mut i: usize = 0;
    while i < items.len()
        invariant
            i <= items.len(),
            text@ == joined(items.deep_view().take(i as int), separator@),
        decreases items.len() - i,
    {
        let ghost before = items.deep_view().take(i as int);
        let ghost after = items.deep_view().take(i + 1);
        proof {
            assert(after.drop_last() =~= before);
            assert(after.last() == items@[i as int]@);
        }
        if i > 0 {
            text.append(separator);
        }
        text.append(items[i].as_str());
        proof {
            if i == 0 {
                assert(text@ =~= after[0]);
            }
        }
        i += 1;
    }
    assert(items.deep_view().take(items.len() as int) =~= items.deep_view());
    text
}

} // verus!
