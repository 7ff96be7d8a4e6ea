//! String slices and array slices: references to a contiguous part of a
//! collection.
//!
//! A `String` is stored as UTF-8 bytes, and a string slice must begin and end
//! between two characters. The functions here scan the bytes for a space and
//! cut there; the lemmas show that such a cut never falls inside a character
//! and that it yields the characters in front of the first space.

use vstd::prelude::*;
use vstd::utf8::*;

verus! {

/// The byte that encodes a space in UTF-8.
pub const SPACE: u8 = 0x20;

/// How many elements of `s` come before the first occurrence of `needle`:
/// the index of that occurrence, or the length of `s` when there is none.
pub open spec fn prefix_len_before<T>(s: Seq<T>, needle: T) -> nat
    decreases s.len(),
{
    if s.len() == 0 || s[0] == needle {
        0
    } else {
        1 + prefix_len_before(s.drop_first(), needle)
    }
}

/// The characters of `text` in front of its first space; all of `text` when
/// it holds no space.
pub open spec fn first_word_of(text: Seq<char>) -> Seq<char> {
    text.take(prefix_len_before(text, ' ') as int)
}

/// `prefix_len_before(s, needle)` is a position in `s` with no `needle` in
/// front of it, and `needle` stands there unless it is the end of `s`.
pub proof fn lemma_prefix_len_before<T>(s: Seq<T>, needle: T)
    ensures
        prefix_len_before(s, needle) <= s.len(),
        forall|j: int| 0 <= j < prefix_len_before(s, needle) ==> s[j] != needle,
        prefix_len_before(s, needle) < s.len() ==> s[prefix_len_before(s, needle) as int]
            == needle,
    decreases s.len(),
{
    if s.len() == 0 || s[0] == needle {
    } else {
        let rest = s.drop_first();
        lemma_prefix_len_before(rest, needle);
        assert forall|j: int| 0 <= j < prefix_len_before(s, needle) implies s[j] != needle by {
            if j > 0 {
                assert(s[j] == rest[j - 1]);
            }
        }
        let n = prefix_len_before(rest, needle) as int;
        if n < rest.len() {
            assert(s[n + 1] == rest[n]);
        }
    }
}

/// Only one position of `s` has no `needle` in front of it and either holds
/// `needle` or is the end of `s`: it is `prefix_len_before(s, needle)`.
pub proof fn lemma_prefix_len_before_unique<T>(s: Seq<T>, needle: T, end: int)
    requires
        0 <= end <= s.len(),
        forall|j: int| 0 <= j < end ==> s[j] != needle,
        end < s.len() ==> s[end] == needle,
    ensures
        end == prefix_len_before(s, needle),
{
    lemma_prefix_len_before(s, needle);
    let n = prefix_len_before(s, needle) as int;
    if n < end {
        assert(s[n] == needle);
    } else if end < n {
        assert(s[end] == needle);
    }
}

/// The first word of a text is its longest beginning without a space: it
/// is a prefix of the text, no space stands in it, and where it is not the
/// whole text a space follows it.
pub proof fn lemma_first_word_of(text: Seq<char>)
    ensures
        first_word_of(text).is_prefix_of(text),
        !first_word_of(text).contains(' '),
        first_word_of(text).len() < text.len() ==> text[first_word_of(text).len() as int] == ' ',
{
    lemma_prefix_len_before(text, ' ');
}

/// A text without a space is its own first word, so taking the first word
/// a second time changes nothing.
pub proof fn lemma_first_word_of_idempotent(text: Seq<char>)
    ensures
        !text.contains(' ') ==> first_word_of(text) == text,
        first_word_of(first_word_of(text)) == first_word_of(text),
{
    if !text.contains(' ') {
        lemma_prefix_len_before_unique(text, ' ', text.len() as int);
        assert(text.take(text.len() as int) =~= text);
    }
    let word = first_word_of(text);
    lemma_first_word_of(text);
    lemma_prefix_len_before_unique(word, ' ', word.len() as int);
    assert(word.take(word.len() as int) =~= word);
}

/// Skipping a run `a` that holds no `needle` moves the search on by the
/// length of `a`.
proof fn lemma_prefix_len_before_concat<T>(a: Seq<T>, b: Seq<T>, needle: T)
    requires
        forall|j: int| 0 <= j < a.len() ==> a[j] != needle,
    ensures
        prefix_len_before(a + b, needle) == a.len() + prefix_len_before(b, needle),
{
    lemma_prefix_len_before(b, needle);
    let end = a.len() + prefix_len_before(b, needle);
    assert forall|j: int| 0 <= j < end implies (a + b)[j] != needle by {
        if j >= a.len() {
            assert((a + b)[j] == b[j - a.len()]);
        }
    }
    if end < (a + b).len() {
        assert((a + b)[end as int] == b[end - a.len()]);
    }
    lemma_prefix_len_before_unique(a + b, needle, end as int);
}

/// The space is encoded as the single byte `0x20`, and no other character
/// has that byte anywhere in its encoding.
proof fn lemma_space_byte_only_in_space(c: char)
    ensures
        ({
            let encoded = encode_scalar(c as u32);
            if c == ' ' {
                encoded == seq![SPACE]
            } else {
                forall|j: int| 0 <= j < encoded.len() ==> encoded[j] != SPACE
            }
        }),
{
    let v = c as u32;
    char_is_scalar(c);
    if c != ' ' {
        char_u32_cast(c, v);
        char_u32_cast(' ', 0x20u32);
        assert(v != 0x20u32);
    }
    assert(v <= 0x7F ==> (v == 0x20 <==> leading_byte_width_1(v) == SPACE)) by (bit_vector);
    assert(leading_byte_width_2(v) != SPACE) by (bit_vector);
    assert(leading_byte_width_3(v) != SPACE) by (bit_vector);
    assert(leading_byte_width_4(v) != SPACE) by (bit_vector);
    assert(last_continuation_byte(v) != SPACE) by (bit_vector);
    assert(second_last_continuation_byte(v) != SPACE) by (bit_vector);
    assert(third_last_continuation_byte(v) != SPACE) by (bit_vector);
}

/// Cutting the UTF-8 encoding of `text` in front of its first `0x20` byte
/// gives the encoding of the characters in front of the first space of
/// `text`: the cut falls between two characters, and it falls where the
/// first word ends.
pub proof fn lemma_first_word_bytes(text: Seq<char>)
    ensures
        encode_utf8(text).take(prefix_len_before(encode_utf8(text), SPACE) as int)
            == encode_utf8(first_word_of(text)),
    decreases text.len(),
{
    let bytes = encode_utf8(text);
    if text.len() == 0 {
        assert(first_word_of(text) =~= text);
        assert(bytes.take(0) =~= bytes);
    } else {
        let c = text[0];
        let head = encode_scalar(c as u32);
        let rest = text.drop_first();
        lemma_space_byte_only_in_space(c);
        if c == ' ' {
            assert(bytes[0] == SPACE);
            assert(bytes.take(0) =~= Seq::<u8>::empty());
            assert(first_word_of(text) =~= Seq::<char>::empty());
        } else {
            lemma_first_word_bytes(rest);
            lemma_prefix_len_before_concat(head, encode_utf8(rest), SPACE);
            let m = prefix_len_before(encode_utf8(rest), SPACE) as int;
            lemma_prefix_len_before(encode_utf8(rest), SPACE);
            lemma_prefix_len_before(rest, ' ');
            assert(bytes.take(head.len() + m) =~= head + encode_utf8(rest).take(m));
            let word = first_word_of(text);
            assert(word.len() > 0);
            assert(word[0] == c);
            assert(word.drop_first() =~= first_word_of(rest));
        }
    }
}

/// Two texts with the same UTF-8 encoding are the same text.
proof fn lemma_encode_utf8_injective(a: Seq<char>, b: Seq<char>)
    requires
        encode_utf8(a) == encode_utf8(b),
    ensures
        a == b,
{
    encode_utf8_decode_utf8(a);
    encode_utf8_decode_utf8(b);
}

/// In a text of ASCII characters every character is one byte, so a cut at
/// any position `at` falls between two characters, and the bytes on each
/// side of it encode the characters on that side.
proof fn lemma_ascii_cut(text: Seq<char>, at: int)
    requires
        is_ascii_chars(text),
        0 <= at <= text.len(),
    ensures
        encode_utf8(text).len() == text.len(),
        is_char_boundary(encode_utf8(text), at),
        encode_utf8(text).take(at) == encode_utf8(text.take(at)),
        encode_utf8(text).skip(at) == encode_utf8(text.skip(at)),
{
    let bytes = encode_utf8(text);
    is_ascii_chars_encode_utf8(text);
    is_ascii_chars_encode_utf8(text.take(at));
    is_ascii_chars_encode_utf8(text.skip(at));
    assert(bytes.take(at) =~= encode_utf8(text.take(at)));
    assert(bytes.skip(at) =~= encode_utf8(text.skip(at)));
    encode_utf8_valid_utf8(text);
    if at < bytes.len() {
        assert(bytes[at] == text[at] as u8);
        is_char_boundary_iff_not_is_continuation_byte(bytes, at);
    } else {
        is_char_boundary_start_end_of_seq(bytes);
    }
}

/// Takes slices of strings and of an array, and shows what each of them
/// holds.
///
/// A range may leave out its start when that is zero and its end when that
/// is the length: the slices taken either way are equal. Every range used
/// here lies inside its collection and, for a string, between two
/// characters, so no slice can fail.
pub fn slices() {
    let s = String::from_str("hello world");
    proof {
        reveal_strlit("hello world");
        reveal_strlit("hello");
        reveal_strlit("world");
    }
    let hello = s.as_str().substring_ascii(0, 5);
    let world = s.as_str().substring_ascii(6, 11);
    assert(hello@ == "hello"@);
    assert(world@ == "world"@);

    // From the start: the range `0..2` and the range `..2`.
    let s = String::from_str("hello");
    let text = s.as_str();
    proof {
        lemma_ascii_cut(text@, 2);
        lemma_ascii_cut(text@, 3);
    }
    let slice = text.substring_ascii(0, 2);
    let (start, _) = text.split_at(2);
    proof {
        lemma_encode_utf8_injective(start@, slice@);
    }
    assert(start@ == slice@);

    // Up to the end: the range `3..len` and the range `3..`.
    let len = text.len();
    let slice = text.substring_ascii(3, len);
    let (_, rest) = text.split_at(3);
    proof {
        lemma_encode_utf8_injective(rest@, slice@);
    }
    assert(rest@ == slice@);

    // All of it: the range `0..len` and the range `..`.
    let slice = text.substring_ascii(0, len);
    assert(slice@ == text@);

    // A string literal is itself a slice.
    let _s = "Hello, world!";

    // A slice of an array.
    let a: [i32; 5] = [1, 2, 3, 4, 5];
    let slice = &a[1..3];
    assert(slice@ == seq![2i32, 3i32]);
}

/// Returns the length in bytes of the first word of `s`: the index of the
/// first space byte, or the byte length of `s` when it holds no space.
///
/// The result is only a number: it says nothing once `s` has changed. See
/// [`first_word`], which returns the word itself.
pub fn first_word_old(s: &String) -> (end: usize)
    ensures
        end == prefix_len_before(encode_utf8(s@), SPACE),
        end == encode_utf8(first_word_of(s@)).len(),
{
    let bytes = s.as_str().as_bytes();
    let mut i: usize = 0;
    while i < bytes.len()
        invariant
            i <= bytes@.len(),
            bytes@ == encode_utf8(s@),
            forall|j: int| 0 <= j < i ==> bytes@[j] != SPACE,
        decreases bytes@.len() - i,
    {
        if bytes[i] == SPACE {
            proof {
                lemma_prefix_len_before_unique(bytes@, SPACE, i as int);
                lemma_first_word_bytes(s@);
            }
            return i;
        }
        i += 1;
    }
    proof {
        lemma_prefix_len_before_unique(bytes@, SPACE, i as int);
        lemma_first_word_bytes(s@);
    }
    s.as_str().len()
}

/// Returns the first word of `s` as a slice of it: the characters in front
/// of the first space, or the whole string when it holds no space.
pub fn first_word(s: &String) -> (word: &str)
    ensures
        word@ == first_word_of(s@),
{
    let text = s.as_str();
    let bytes = text.as_bytes();
    let mut i: usize = 0;
    while i < bytes.len()
        invariant
            i <= bytes@.len(),
            text@ == s@,
            bytes@ == encode_utf8(s@),
            forall|j: int| 0 <= j < i ==> bytes@[j] != SPACE,
        decreases bytes@.len() - i,
    {
        if bytes[i] == SPACE {
            proof {
                // A space byte is no continuation byte: a character begins here.
                encode_utf8_valid_utf8(s@);
                is_char_boundary_iff_not_is_continuation_byte(bytes@, i as int);
            }
            let (word, _) = text.split_at(i);
            proof {
                lemma_prefix_len_before_unique(bytes@, SPACE, i as int);
                lemma_first_word_bytes(s@);
                lemma_encode_utf8_injective(word@, first_word_of(s@));
            }
            return word;
        }
        i += 1;
    }
    proof {
        lemma_prefix_len_before_unique(bytes@, SPACE, i as int);
        lemma_first_word_bytes(s@);
        assert(bytes@.take(i as int) =~= bytes@);
        lemma_encode_utf8_injective(text@, first_word_of(s@));
    }
    text
}

} // verus!
