//! Verified text utilities: decimal rendering of integers, string comparison,
//! suffix tests, file-name extraction and list splitting, together with the
//! two UTF-8 decoding wrappers the executors need.

use vstd::prelude::*;
use vstd::utf8::decode_utf8;
use vstd::utf8::valid_utf8;

verus! {

/// The character for one decimal digit.
pub open spec fn digit_char(d: int) -> char {
    if d == 0 {
        '0'
    } else if d == 1 {
        '1'
    } else if d == 2 {
        '2'
    } else if d == 3 {
        '3'
    } else if d == 4 {
        '4'
    } else if d == 5 {
        '5'
    } else if d == 6 {
        '6'
    } else if d == 7 {
        '7'
    } else if d == 8 {
        '8'
    } else {
        '9'
    }
}

/// The decimal digits of a non-negative integer, most significant first.
pub open spec fn dec_digits(n: int) -> Seq<char>
    recommends
        n >= 0,
    decreases n,
{
    if n < 10 {
        seq![digit_char(n)]
    } else {
        dec_digits(n / 10).push(digit_char(n % 10))
    }
}

/// The decimal rendering of an integer: the digits, with a leading minus sign
/// when it is negative.
pub open spec fn int_digits(n: int) -> Seq<char> {
    if n < 0 {
        seq!['-'] + dec_digits(-n)
    } else {
        dec_digits(n)
    }
}

/// One decimal digit as a string slice.
fn digit_str(d: u64) -> (r: &'static str)
    requires
        d < 10,
    ensures
        r@ == seq![digit_char(d as int)],
{
    proof {
        reveal_strlit("0");
        reveal_strlit("1");
        reveal_strlit("2");
        reveal_strlit("3");
        reveal_strlit("4");
        reveal_strlit("5");
        reveal_strlit("6");
        reveal_strlit("7");
        reveal_strlit("8");
        reveal_strlit("9");
    }
    let r = match d {
        0 => "0",
        1 => "1",
        2 => "2",
        3 => "3",
        4 => "4",
        5 => "5",
        6 => "6",
        7 => "7",
        8 => "8",
        _ => "9",
    };
    proof {
        assert(r@ =~= seq![digit_char(d as int)]);
    }
    r
}

/// Renders an unsigned integer in decimal.
pub fn u64_to_string(n: u64) -> (r: String)
    ensures
        r@ == dec_digits(n as int),
    decreases n,
{
    if n < 10 {
        String::from_str(digit_str(n))
    } else {
        let prefix = u64_to_string(n / 10);
        let r = prefix.concat(digit_str(n % 10));
        proof {
            assert(r@ =~= dec_digits((n as int) / 10).push(digit_char((n as int) % 10)));
        }
        r
    }
}

/// Renders a signed 32-bit integer in decimal.
pub fn i32_to_string(n: i32) -> (r: String)
    ensures
        r@ == int_digits(n as int),
{
    let wide: i64 = n as i64;
    if wide < 0 {
        let magnitude: u64 = (-wide) as u64;
        let digits = u64_to_string(magnitude);
        let r = String::from_str("-").concat(digits.as_str());
        proof {
            reveal_strlit("-");
            assert("-"@ =~= seq!['-']);
        }
        r
    } else {
        u64_to_string(wide as u64)
    }
}

/// Whether two string slices hold the same characters.
pub fn str_eq(a: &str, b: &str) -> (r: bool)
    ensures
        r == (a@ == b@),
{
    let sa = String::from_str(a);
    let sb = String::from_str(b);
    sa == sb
}

/// Whether `s` ends with `suffix`.
pub open spec fn ends_with(s: Seq<char>, suffix: Seq<char>) -> bool {
    suffix.len() <= s.len() && s.subrange(s.len() - suffix.len(), s.len() as int) == suffix
}

/// Whether the string slice `s` ends with `suffix`.
pub fn ends_with_str(s: &str, suffix: &str) -> (r: bool)
    ensures
        r == ends_with(s@, suffix@),
{
    let slen = s.unicode_len();
    let tlen = suffix.unicode_len();
    if tlen > slen {
        return false;
    }
    let tail = s.substring_char(slen - tlen, slen);
    str_eq(tail, suffix)
}

/// The part of a path after its last separator: the file name. A path that
/// ends in a separator has an empty file name.
pub open spec fn file_name_of(s: Seq<char>) -> Seq<char>
    decreases s.len(),
{
    if s.len() == 0 {
        s
    } else if s.last() == '/' {
        Seq::empty()
    } else {
        file_name_of(s.drop_last()).push(s.last())
    }
}

/// A path without separators is all file name.
pub proof fn lemma_file_name_no_separator(s: Seq<char>)
    requires
        forall|k: int| 0 <= k < s.len() ==> s[k] != '/',
    ensures
        file_name_of(s) == s,
    decreases s.len(),
{
    if s.len() > 0 {
        lemma_file_name_no_separator(s.drop_last());
        assert(file_name_of(s.drop_last()).push(s.last()) =~= s);
    }
}

/// The file name of a path is what follows its last separator.
pub proof fn lemma_file_name_after_separator(s: Seq<char>, j: int)
    requires
        0 <= j < s.len(),
        s[j] == '/',
        forall|k: int| j < k < s.len() ==> s[k] != '/',
    ensures
        file_name_of(s) == s.subrange(j + 1, s.len() as int),
    decreases s.len(),
{
    if j == s.len() - 1 {
        assert(file_name_of(s) =~= s.subrange(j + 1, s.len() as int));
    } else {
        lemma_file_name_after_separator(s.drop_last(), j);
        assert(file_name_of(s.drop_last()).push(s.last()) =~= s.subrange(j + 1, s.len() as int));
    }
}

/// The file name of a path: the part after the last `/`.
pub fn file_name(s: &str) -> (r: String)
    ensures
        r@ == file_name_of(s@),
{
    let len = s.unicode_len();
    let mut i: usize = len;
    while i > 0
        invariant
            i <= len,
            len == s@.len(),
            forall|k: int| i <= k < len ==> s@[k] != '/',
        decreases i,
    {
        if s.get_char(i - 1) == '/' {
            let tail = s.substring_char(i, len);
            proof {
                lemma_file_name_after_separator(s@, i - 1);
            }
            return String::from_str(tail);
        }
        i = i - 1;
    }
    proof {
        lemma_file_name_no_separator(s@);
    }
    String::from_str(s)
}

/// The views of a sequence of strings.
pub open spec fn seq_views(v: Seq<String>) -> Seq<Seq<char>> {
    v.map_values(|s: String| s@)
}

/// The pieces of `s` between occurrences of `sep`: splitting the empty
/// sequence gives one empty piece, and every separator ends a piece.
pub open spec fn split_chars(s: Seq<char>, sep: char) -> Seq<Seq<char>>
    decreases s.len(),
{
    if s.len() == 0 {
        seq![Seq::empty()]
    } else {
        let parts = split_chars(s.drop_last(), sep);
        if s.last() == sep {
            parts.push(Seq::empty())
        } else {
            parts.update(parts.len() - 1, parts.last().push(s.last()))
        }
    }
}

proof fn lemma_split_nonempty(s: Seq<char>, sep: char)
    ensures
        split_chars(s, sep).len() >= 1,
    decreases s.len(),
{
    if s.len() > 0 {
        lemma_split_nonempty(s.drop_last(), sep);
    }
}

/// Splits a string slice on a separator character.
pub fn split_on(s: &str, sep: char) -> (r: Vec<String>)
    ensures
        seq_views(r@) == split_chars(s@, sep),
{
    let len = s.unicode_len();
    let mut pieces: Vec<String> = Vec::new();
    let mut start: usize = 0;
    let mut i: usize = 0;
    proof {
        assert(s@.take(0) =~= Seq::<char>::empty());
        assert(s@.subrange(0, 0) =~= Seq::<char>::empty());
        assert(split_chars(s@.take(0), sep) =~= seq_views(pieces@).push(s@.subrange(0, 0)));
    }
    while i < len
        invariant
            start <= i <= len,
            len == s@.len(),
            forall|k: int| start <= k < i ==> s@[k] != sep,
            split_chars(s@.take(i as int), sep) == seq_views(pieces@).push(
                s@.subrange(start as int, i as int),
            ),
        decreases len - i,
    {
        let c = s.get_char(i);
        if c == sep {
            let piece = s.substring_char(start, i);
            let ghost old_pieces = pieces@;
            pieces.push(String::from_str(piece));
            proof {
                assert(seq_views(pieces@) =~= seq_views(old_pieces).push(piece@));
                assert(s@.take(i + 1).drop_last() =~= s@.take(i as int));
                assert(s@.take(i + 1).last() == sep);
                assert(s@.subrange(i + 1, i + 1) =~= Seq::<char>::empty());
                assert(split_chars(s@.take(i + 1), sep) =~= seq_views(pieces@).push(
                    s@.subrange(i + 1, i + 1),
                ));
            }
            start = i + 1;
        } else {
            proof {
                assert(s@.take(i + 1).drop_last() =~= s@.take(i as int));
                assert(s@.take(i + 1).last() == s@[i as int]);
                let parts = split_chars(s@.take(i as int), sep);
                lemma_split_nonempty(s@.take(i as int), sep);
                assert(parts.last() == s@.subrange(start as int, i as int));
                assert(s@.subrange(start as int, i as int).push(s@[i as int]) =~= s@.subrange(
                    start as int,
                    i + 1,
                ));
                assert(split_chars(s@.take(i + 1), sep) =~= seq_views(pieces@).push(
                    s@.subrange(start as int, i + 1),
                ));
            }
        }
        i = i + 1;
    }
    let piece = s.substring_char(start, len);
    let ghost old_pieces = pieces@;
    pieces.push(String::from_str(piece));
    proof {
        assert(s@.take(len as int) =~= s@);
        assert(seq_views(pieces@) =~= seq_views(old_pieces).push(piece@));
    }
    pieces
}

/// Whether `needle` occurs somewhere inside `hay`.
pub open spec fn contains_seq(hay: Seq<char>, needle: Seq<char>) -> bool {
    exists|i: int|
        0 <= i && i + needle.len() <= hay.len() && #[trigger] hay.subrange(i, i + needle.len())
            == needle
}

/// The characters that `String::from_utf8_lossy` makes of a byte sequence:
/// the decoding of its well-formed parts, with replacement characters for the
/// rest.
pub uninterp spec fn lossy_text(bytes: Seq<u8>) -> Seq<char>;

/// Relies on `String::from_utf8_lossy`: the result is a function of the bytes
/// alone, and a valid UTF-8 byte sequence decodes unchanged.
#[verifier::external_body]
pub fn decode_lossy(bytes: &[u8]) -> (r: String)
    ensures
        r@ == lossy_text(bytes@),
        valid_utf8(bytes@) ==> r@ == decode_utf8(bytes@),
{
    String::from_utf8_lossy(bytes).into_owned()
}

/// Relies on `String::from_utf8`: it succeeds exactly on valid UTF-8 and then
/// decodes the bytes unchanged.
#[verifier::external_body]
pub fn utf8_to_string(bytes: Vec<u8>) -> (r: Option<String>)
    ensures
        r is Some <==> valid_utf8(bytes@),
        r matches Some(s) ==> s@ == decode_utf8(bytes@),
{
    String::from_utf8(bytes).ok()
}

} // verus!
