//! What has to hold of a text before it is handed to the outside parsers,
//! and the stand-in that is handed to them where it does not hold.
//!
//! The outside parsers panic where a byte literal opens on a character
//! outside ASCII: at a token that starts with `b'` and goes on with such a
//! character. Whether the three characters stand at the start of a token is
//! for the parser to say, so the library asks it, about a text in which the
//! `b` of each such triple is replaced by a character that no token starts
//! with. Where the triple is inside a string literal, a comment, a character
//! literal, a word or a hexadecimal number, the parser reads the stand-in as
//! it reads the text; where the triple opens a token, the parser rejects the
//! stand-in.

use vstd::prelude::*;
use vstd::string::{StrSliceExecFns, StringExecFns};

verus! {

/// Whether the three characters at `i` are `b`, an apostrophe and a
/// character outside ASCII.
pub open spec fn wide_byte_at(text: Seq<char>, i: int) -> bool {
    &&& 0 <= i
    &&& i + 2 < text.len()
    &&& text[i] == 'b'
    &&& text[i + 1] == '\''
    &&& text[i + 2] as u32 > 0x7f
}

/// Whether `b`, an apostrophe and a character outside ASCII stand in a row
/// somewhere in the text. No such text is handed to the outside parsers.
pub open spec fn opens_wide_byte(text: Seq<char>) -> bool {
    exists|i: int| #[trigger] wide_byte_at(text, i)
}

/// A digit of a hexadecimal literal, or the underscore that may stand
/// between them.
pub open spec fn is_hex_digit(c: char) -> bool {
    ||| '0' <= c <= '9'
    ||| 'a' <= c <= 'f'
    ||| 'A' <= c <= 'F'
    ||| c == '_'
}

/// A character of an ASCII word.
pub open spec fn is_word_char(c: char) -> bool {
    ||| '0' <= c <= '9'
    ||| 'a' <= c <= 'z'
    ||| 'A' <= c <= 'Z'
    ||| c == '_'
}

/// Where the run of hexadecimal digits that ends before `i` begins.
pub open spec fn hex_run_start(text: Seq<char>, i: int) -> int
    decreases i,
{
    if 0 < i <= text.len() && is_hex_digit(text[i - 1]) {
        hex_run_start(text, i - 1)
    } else {
        i
    }
}

/// Whether the character at `i` continues a hexadecimal literal: before it
/// stand `0x` and digits only, and before those no character that could
/// make them part of a word.
pub open spec fn in_hex_literal(text: Seq<char>, i: int) -> bool {
    let k = hex_run_start(text, i);
    &&& 2 <= k
    &&& text[k - 1] == 'x'
    &&& text[k - 2] == '0'
    &&& k == 2 || (text[k - 3] as u32 <= 0x7f && !is_word_char(text[k - 3]))
}

/// The character that stands in for the one at `i`. Only the `b` of a triple
/// `b`, apostrophe, character outside ASCII is replaced:
///
/// - behind `b'` by a backtick, which is content of a string, a comment or a
///   character or byte literal and nothing else;
/// - in a hexadecimal literal by the digit `a`;
/// - elsewhere by a middle dot, which is content of a string, a comment or a
///   character literal, goes on a word, and starts no token.
pub open spec fn stand_in(text: Seq<char>, i: int) -> char {
    if wide_byte_at(text, i) {
        if i >= 2 && text[i - 2] == 'b' && text[i - 1] == '\'' {
            '`'
        } else if in_hex_literal(text, i) {
            'a'
        } else {
            '\u{b7}'
        }
    } else {
        text[i]
    }
}

/// The text that is handed to the outside parsers in place of `text`.
pub open spec fn guarded(text: Seq<char>) -> Seq<char> {
    Seq::new(text.len(), |i: int| stand_in(text, i))
}

/// A text without such a triple is handed on as it is.
pub proof fn lemma_guarded_same(text: Seq<char>)
    requires
        !opens_wide_byte(text),
    ensures
        guarded(text) == text,
{
    assert forall|i: int| 0 <= i < text.len() implies guarded(text)[i] == text[i] by {
        assert(!wide_byte_at(text, i));
    }
    assert(guarded(text) =~= text);
}

/// The stand-in has no such triple, whatever the text: the outside parsers
/// can be asked about it.
pub proof fn lemma_guarded_safe(text: Seq<char>)
    ensures
        !opens_wide_byte(guarded(text)),
{
    let g = guarded(text);
    assert forall|j: int| !wide_byte_at(g, j) by {
        if wide_byte_at(g, j) {
            assert(g[j] == stand_in(text, j));
            assert(g[j + 1] == stand_in(text, j + 1));
            assert(g[j + 2] == stand_in(text, j + 2));
            assert(!wide_byte_at(text, j));
            assert(!wide_byte_at(text, j + 1));
            assert(text[j] == 'b');
            assert(text[j + 1] == '\'');
            if wide_byte_at(text, j + 2) {
                assert(stand_in(text, j + 2) == '`');
            }
        }
    }
}

/// The stand-in differs from the text in the `b` of such triples at most.
pub proof fn lemma_guarded_differs(text: Seq<char>, i: int)
    requires
        0 <= i < text.len(),
    ensures
        guarded(text).len() == text.len(),
        guarded(text)[i] != text[i] ==> wide_byte_at(text, i),
{
}

/// Whether `b`, an apostrophe and a character outside ASCII stand in a row
/// somewhere in the text.
pub fn has_wide_byte(text: &str) -> (b: bool)
    ensures
        b == opens_wide_byte(text@),
{
    let n = text.unicode_len();
    if n < 3 {
        assert(forall|i: int| !wide_byte_at(text@, i));
        return false;
    }
    let mut i: usize = 0;
    while i + 2 < n
        invariant
            n == text@.len(),
            3 <= n,
            i + 2 <= n,
            forall|j: int| 0 <= j < i ==> !wide_byte_at(text@, j),
        decreases n - i,
    {
        if is_wide_byte_at(text, n, i) {
            return true;
        }
        i += 1;
    }
    assert(forall|j: int| !wide_byte_at(text@, j));
    false
}

/// Whether the three characters at `i` are `b`, an apostrophe and a
/// character outside ASCII.
fn is_wide_byte_at(text: &str, n: usize, i: usize) -> (b: bool)
    requires
        n == text@.len(),
    ensures
        b == wide_byte_at(text@, i as int),
{
    i < n && n - i > 2 && text.get_char(i) == 'b' && text.get_char(i + 1) == '\'' && text.get_char(
        i + 2,
    ) as u32 > 0x7f
}

/// Whether a character is a digit of a hexadecimal literal or an
/// underscore.
fn hex_digit(c: char) -> (b: bool)
    ensures
        b == is_hex_digit(c),
{
    ('0' <= c && c <= '9') || ('a' <= c && c <= 'f') || ('A' <= c && c <= 'F') || c == '_'
}

/// Whether a character is one of an ASCII word.
fn word_char(c: char) -> (b: bool)
    ensures
        b == is_word_char(c),
{
    ('0' <= c && c <= '9') || ('a' <= c && c <= 'z') || ('A' <= c && c <= 'Z') || c == '_'
}

/// Whether the character at `i` continues a hexadecimal literal.
fn continues_hex_literal(text: &str, i: usize) -> (b: bool)
    requires
        i <= text@.len(),
    ensures
        b == in_hex_literal(text@, i as int),
{
    let mut k: usize = i;
    while k > 0 && hex_digit(text.get_char(k - 1))
        invariant
            k <= i <= text@.len(),
            hex_run_start(text@, i as int) == hex_run_start(text@, k as int),
        decreases k,
    {
        k -= 1;
    }
    if k < 2 {
        return false;
    }
    if text.get_char(k - 1) != 'x' || text.get_char(k - 2) != '0' {
        return false;
    }
    if k == 2 {
        return true;
    }
    let before = text.get_char(k - 3);
    before as u32 <= 0x7f && !word_char(before)
}

/// The text that is handed to the outside parsers in place of `text`.
pub fn guard(text: &str) -> (r: String)
    ensures
        r@ == guarded(text@),
{
    let n = text.unicode_len();
    let mut r = String::from_str("");
    let mut done: usize = 0;
    let mut i: usize = 0;
    proof {
        reveal_strlit("");
        reveal_strlit("`");
        reveal_strlit("a");
        reveal_strlit("\u{b7}");
    }
    assert(r@ =~= guarded(text@).subrange(0, 0));
    while i < n
        invariant
            n == text@.len(),
            done <= i <= n,
            r@ == guarded(text@).subrange(0, done as int),
            forall|j: int| done <= j < i ==> !wide_byte_at(text@, j),
            "`"@ == seq!['`'],
            "a"@ == seq!['a'],
            "\u{b7}"@ == seq!['\u{b7}'],
        decreases n - i,
    {
        if is_wide_byte_at(text, n, i) {
            let ghost before = r@;
            r.append(text.substring_char(done, i));
            let mark = if i >= 2 && text.get_char(i - 2) == 'b' && text.get_char(i - 1) == '\'' {
                "`"
            } else if continues_hex_literal(text, i) {
                "a"
            } else {
                "\u{b7}"
            };
            r.append(mark);
            proof {
                let g = guarded(text@);
                assert(text@.subrange(done as int, i as int) =~= g.subrange(done as int, i as int));
                assert(mark@ =~= g.subrange(i as int, i as int + 1));
                assert(r@ =~= g.subrange(0, i as int + 1));
            }
            done = i + 1;
        }
        i += 1;
    }
    r.append(text.substring_char(done, n));
    proof {
        let g = guarded(text@);
        assert(text@.subrange(done as int, n as int) =~= g.subrange(done as int, n as int));
        assert(r@ =~= g);
    }
    r
}

} // verus!
