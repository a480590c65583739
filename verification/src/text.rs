//! Byte-level text handling for the calculator's line-based input: splitting
//! a line into whitespace-separated tokens, case folding, the quit and
//! affirmative keywords, and parsing an unsigned decimal menu code.
//!
//! A line is handled as its UTF-8 bytes. Splitting recognises every Unicode
//! whitespace character by its UTF-8 encoding, and case folding covers the
//! ASCII letters and the Cyrillic letters А..Я, so both the Latin and the
//! Russian keywords match case-insensitively.

use vstd::prelude::*;

verus! {

/// The ASCII whitespace bytes: space, horizontal tab, line feed, vertical
/// tab, form feed, carriage return.
pub open spec fn is_space(b: u8) -> bool {
    b == 32 || b == 9 || b == 10 || b == 11 || b == 12 || b == 13
}

/// Whether a byte is ASCII whitespace.
pub fn is_space_byte(b: u8) -> (r: bool)
    ensures
        r == is_space(b),
{
    b == 32 || b == 9 || b == 10 || b == 11 || b == 12 || b == 13
}

/// The three-byte UTF-8 encodings of Unicode whitespace: the ogham space
/// mark, the en quad through hair space range, the line and paragraph
/// separators, the narrow no-break space, the medium mathematical space and
/// the ideographic space.
pub open spec fn is_three_byte_space(a: u8, b: u8, c: u8) -> bool {
    ||| (a == 0xE1 && b == 0x9A && c == 0x80)
    ||| (a == 0xE2 && b == 0x80 && 0x80 <= c && c <= 0x8A)
    ||| (a == 0xE2 && b == 0x80 && (c == 0xA8 || c == 0xA9 || c == 0xAF))
    ||| (a == 0xE2 && b == 0x81 && c == 0x9F)
    ||| (a == 0xE3 && b == 0x80 && c == 0x80)
}

/// Whether three bytes are a three-byte whitespace encoding.
fn three_byte_space(a: u8, b: u8, c: u8) -> (r: bool)
    ensures
        r == is_three_byte_space(a, b, c),
{
    (a == 0xE1 && b == 0x9A && c == 0x80) || (a == 0xE2 && b == 0x80 && 0x80 <= c && c <= 0x8A)
        || (a == 0xE2 && b == 0x80 && (c == 0xA8 || c == 0xA9 || c == 0xAF)) || (a == 0xE2 && b
        == 0x81 && c == 0x9F) || (a == 0xE3 && b == 0x80 && c == 0x80)
}

/// The byte length of the Unicode whitespace character that starts at `i`,
/// or 0 when none does: the ASCII whitespace bytes, the two-byte next line
/// and no-break space characters, and the three-byte encodings. In valid
/// UTF-8 no whitespace pattern can start inside another character, because
/// every pattern starts with an ASCII byte or a lead byte.
pub open spec fn space_len(s: Seq<u8>, i: int) -> int {
    if !(0 <= i < s.len()) {
        0
    } else if is_space(s[i]) {
        1
    } else if i + 2 <= s.len() && s[i] == 0xC2 && (s[i + 1] == 0x85 || s[i + 1] == 0xA0) {
        2
    } else if i + 3 <= s.len() && is_three_byte_space(s[i], s[i + 1], s[i + 2]) {
        3
    } else {
        0
    }
}

/// The byte length of the whitespace character at `i`, or 0.
fn space_len_at(s: &[u8], i: usize) -> (k: usize)
    requires
        i <= s.len(),
    ensures
        k == space_len(s@, i as int),
        i + k <= s@.len(),
{
    if i >= s.len() {
        return 0;
    }
    let b0 = s[i];
    if is_space_byte(b0) {
        return 1;
    }
    if i + 1 < s.len() {
        let b1 = s[i + 1];
        if b0 == 0xC2 && (b1 == 0x85 || b1 == 0xA0) {
            return 2;
        }
        if i + 2 < s.len() {
            if three_byte_space(b0, b1, s[i + 2]) {
                return 3;
            }
        }
    }
    0
}

/// ASCII lowercase folding of one byte; bytes outside A..=Z are unchanged.
pub open spec fn lower(b: u8) -> u8 {
    if 65 <= b && b <= 90 {
        (b + 32) as u8
    } else {
        b
    }
}

/// ASCII lowercase folding of one byte.
pub fn lower_byte(b: u8) -> (r: u8)
    ensures
        r == lower(b),
{
    if 65 <= b && b <= 90 {
        b + 32
    } else {
        b
    }
}

/// The index just past the token that starts at `i`: the first position at
/// or after `i` that is past the end or begins a whitespace character.
pub open spec fn token_end(s: Seq<u8>, i: int) -> int
    decreases s.len() - i when 0 <= i <= s.len()
{
    if i >= s.len() || space_len(s, i) > 0 {
        i
    } else {
        token_end(s, i + 1)
    }
}

/// `token_end` stays within the line, and moves strictly forward when it
/// starts on a non-whitespace position.
pub proof fn lemma_token_end_bounds(s: Seq<u8>, i: int)
    requires
        0 <= i <= s.len(),
    ensures
        i <= token_end(s, i) <= s.len(),
        i < s.len() && space_len(s, i) == 0 ==> i < token_end(s, i),
    decreases s.len() - i,
{
    if i < s.len() && space_len(s, i) == 0 {
        lemma_token_end_bounds(s, i + 1);
    }
}

/// The whitespace-separated tokens of `s` from position `i` on: maximal runs
/// of non-whitespace bytes, in order.
pub open spec fn tokens_from(s: Seq<u8>, i: int) -> Seq<Seq<u8>>
    decreases s.len() - i when 0 <= i <= s.len()
    via tokens_from_decreases
{
    if i >= s.len() {
        seq![]
    } else if space_len(s, i) > 0 {
        tokens_from(s, i + space_len(s, i))
    } else {
        seq![s.subrange(i, token_end(s, i))] + tokens_from(s, token_end(s, i))
    }
}

#[via_fn]
proof fn tokens_from_decreases(s: Seq<u8>, i: int) {
    if 0 <= i < s.len() && space_len(s, i) == 0 {
        lemma_token_end_bounds(s, i);
    }
}

/// The whitespace-separated tokens of a whole line.
pub open spec fn tokens_of(s: Seq<u8>) -> Seq<Seq<u8>> {
    tokens_from(s, 0)
}

fn token_end_at(s: &[u8], i: usize) -> (j: usize)
    requires
        i <= s.len(),
    ensures
        j == token_end(s@, i as int),
        i <= j <= s@.len(),
    decreases s@.len() - i,
{
    if i < s.len() && space_len_at(s, i) == 0 {
        token_end_at(s, i + 1)
    } else {
        i
    }
}

fn copy_range(s: &[u8], i: usize, j: usize) -> (t: Vec<u8>)
    requires
        i <= j <= s.len(),
    ensures
        t@ == s@.subrange(i as int, j as int),
{
    let mut t: Vec<u8> = Vec::new();
    let mut k: usize = i;
    while k < j
        invariant
            i <= k <= j <= s@.len(),
            t@ == s@.subrange(i as int, k as int),
        decreases j - k,
    {
        t.push(s[k]);
        k = k + 1;
        proof {
            assert(s@.subrange(i as int, k as int) =~= s@.subrange(i as int, k - 1).push(
                s@[k - 1],
            ));
        }
    }
    t
}

fn tokens_at(s: &[u8], i: usize) -> (ts: Vec<Vec<u8>>)
    requires
        i <= s.len(),
    ensures
        ts.deep_view() == tokens_from(s@, i as int),
    decreases s@.len() - i,
{
    if i >= s.len() {
        let ts: Vec<Vec<u8>> = Vec::new();
        proof {
            assert(ts.deep_view() =~= tokens_from(s@, i as int));
        }
        return ts;
    }
    let k = space_len_at(s, i);
    if k > 0 {
        tokens_at(s, i + k)
    } else {
        let j = token_end_at(s, i);
        proof {
            lemma_token_end_bounds(s@, i as int);
        }
        let tok = copy_range(s, i, j);
        let mut rest = tokens_at(s, j);
        rest.insert(0, tok);
        proof {
            assert(rest.deep_view() =~~= tokens_from(s@, i as int));
        }
        rest
    }
}

/// The line's whitespace-separated tokens, as owned byte vectors.
pub fn split_tokens(s: &[u8]) -> (ts: Vec<Vec<u8>>)
    ensures
        ts.deep_view() == tokens_of(s@),
{
    tokens_at(s, 0)
}

/// An ASCII decimal digit.
pub open spec fn is_digit(b: u8) -> bool {
    48 <= b && b <= 57
}

/// The value of one decimal digit byte.
pub open spec fn digit_val(b: u8) -> nat {
    (b - 48) as nat
}

/// The value of the digit string `s[i..]`, read left to right onto the
/// accumulator `acc`.
pub open spec fn dec_val_from(s: Seq<u8>, i: int, acc: nat) -> nat
    decreases s.len() - i when 0 <= i <= s.len()
{
    if i >= s.len() {
        acc
    } else {
        dec_val_from(s, i + 1, acc * 10 + digit_val(s[i]))
    }
}

/// Reading further digits never shrinks the accumulated value.
pub proof fn lemma_dec_val_grows(s: Seq<u8>, i: int, acc: nat)
    requires
        0 <= i <= s.len(),
    ensures
        dec_val_from(s, i, acc) >= acc,
    decreases s.len() - i,
{
    if i < s.len() {
        lemma_dec_val_grows(s, i + 1, acc * 10 + digit_val(s[i]));
    }
}

/// Every byte of `s` is a decimal digit.
pub open spec fn all_digits(s: Seq<u8>) -> bool {
    forall|k: int| 0 <= k < s.len() ==> is_digit(#[trigger] s[k])
}

/// The digit part of an unsigned decimal numeral: the text after an optional
/// leading '+' sign.
pub open spec fn digits_of(s: Seq<u8>) -> Seq<u8> {
    if s.len() >= 1 && s[0] == 43 {
        s.subrange(1, s.len() as int)
    } else {
        s
    }
}

/// The texts accepted as a `u8`: an optional '+', then one or more decimal
/// digits whose value is at most 255.
pub open spec fn is_u8_numeral(s: Seq<u8>) -> bool {
    let d = digits_of(s);
    d.len() >= 1 && all_digits(d) && dec_val_from(d, 0, 0) <= 255
}

/// The value of a `u8` numeral.
pub open spec fn u8_numeral_val(s: Seq<u8>) -> nat {
    dec_val_from(digits_of(s), 0, 0)
}

/// Parses an unsigned decimal numeral into a `u8`: succeeds exactly on the
/// texts `is_u8_numeral` accepts, and then returns their value.
pub fn parse_u8(t: &[u8]) -> (r: Option<u8>)
    ensures
        r is Some <==> is_u8_numeral(t@),
        r matches Some(n) ==> n as nat == u8_numeral_val(t@),
{
    let ghost d = digits_of(t@);
    let start: usize = if t.len() >= 1 && t[0] == 43 {
        1
    } else {
        0
    };
    proof {
        assert(d =~= t@.subrange(start as int, t@.len() as int));
    }
    if t.len() == start {
        return None;
    }
    let mut i: usize = start;
    let mut acc: u32 = 0;
    while i < t.len()
        invariant
            start <= i <= t@.len(),
            start < t@.len(),
            d == digits_of(t@),
            d == t@.subrange(start as int, t@.len() as int),
            acc <= 255,
            forall|k: int| 0 <= k < i - start ==> is_digit(#[trigger] d[k]),
            dec_val_from(d, i - start, acc as nat) == dec_val_from(d, 0, 0),
        decreases t@.len() - i,
    {
        let b = t[i];
        if b < 48 || b > 57 {
            // A non-digit byte: the text is not a numeral.
            proof {
                assert(d[i - start] == t@[i as int]);
                assert(!is_digit(d[i - start]));
                assert(!all_digits(d));
            }
            return None;
        }
        let next: u32 = acc * 10 + (b - 48) as u32;
        proof {
            assert(d[i - start] == t@[i as int]);
            assert(dec_val_from(d, i - start, acc as nat) == dec_val_from(
                d,
                i + 1 - start,
                acc as nat * 10 + digit_val(t@[i as int]),
            ));
        }
        if next > 255 {
            // The digits already exceed 255, and more digits cannot lower
            // the value.
            proof {
                assert(next as nat == acc as nat * 10 + digit_val(t@[i as int]));
                lemma_dec_val_grows(d, i + 1 - start, next as nat);
                assert(dec_val_from(d, 0, 0) == dec_val_from(d, i + 1 - start, next as nat));
                assert(dec_val_from(d, 0, 0) > 255);
            }
            return None;
        }
        acc = next;
        i = i + 1;
    }
    proof {
        assert(i - start == d.len());
        assert(dec_val_from(d, d.len() as int, acc as nat) == acc as nat);
    }
    Some(acc as u8)
}

/// The UTF-8 bytes of the Russian quit keyword.
pub open spec fn quit_word_ru() -> Seq<u8> {
    seq![208u8, 178u8, 209u8, 139u8, 209u8, 133u8, 208u8, 190u8, 208u8, 180u8]
}

/// The bytes of the English quit keyword, in lowercase.
pub open spec fn quit_word_en() -> Seq<u8> {
    seq![101u8, 120u8, 105u8, 116u8]
}

/// The UTF-8 bytes of the Russian affirmative keyword.
pub open spec fn yes_word_ru() -> Seq<u8> {
    seq![208u8, 180u8, 208u8, 176u8]
}

/// The bytes of the English affirmative keyword, in lowercase.
pub open spec fn yes_word_en() -> Seq<u8> {
    seq![121u8, 101u8, 115u8]
}

fn quit_word_ru_bytes() -> (v: Vec<u8>)
    ensures
        v@ == quit_word_ru(),
{
    let mut v: Vec<u8> = Vec::new();
    v.push(208);
    v.push(178);
    v.push(209);
    v.push(139);
    v.push(209);
    v.push(133);
    v.push(208);
    v.push(190);
    v.push(208);
    v.push(180);
    proof {
        assert(v@ =~= quit_word_ru());
    }
    v
}

fn quit_word_en_bytes() -> (v: Vec<u8>)
    ensures
        v@ == quit_word_en(),
{
    let mut v: Vec<u8> = Vec::new();
    v.push(101);
    v.push(120);
    v.push(105);
    v.push(116);
    proof {
        assert(v@ =~= quit_word_en());
    }
    v
}

fn yes_word_ru_bytes() -> (v: Vec<u8>)
    ensures
        v@ == yes_word_ru(),
{
    let mut v: Vec<u8> = Vec::new();
    v.push(208);
    v.push(180);
    v.push(208);
    v.push(176);
    proof {
        assert(v@ =~= yes_word_ru());
    }
    v
}

fn yes_word_en_bytes() -> (v: Vec<u8>)
    ensures
        v@ == yes_word_en(),
{
    let mut v: Vec<u8> = Vec::new();
    v.push(121);
    v.push(101);
    v.push(115);
    proof {
        assert(v@ =~= yes_word_en());
    }
    v
}

/// Whether two bytes are the UTF-8 encoding of an uppercase Cyrillic letter
/// in А..Я.
pub open spec fn is_upper_cyrillic(a: u8, b: u8) -> bool {
    a == 0xD0 && 0x90 <= b && b <= 0xAF
}

/// The first byte of the lowercase form of the uppercase Cyrillic letter
/// whose second byte is `b`: а..п stay in the 0xD0 row, р..я move to 0xD1.
pub open spec fn cyrillic_lower_first(b: u8) -> u8 {
    if b <= 0x9F {
        0xD0
    } else {
        0xD1
    }
}

/// The second byte of the lowercase form of the uppercase Cyrillic letter
/// whose second byte is `b`.
pub open spec fn cyrillic_lower_second(b: u8) -> u8 {
    if b <= 0x9F {
        (b + 0x20) as u8
    } else {
        (b - 0x20) as u8
    }
}

/// The case fold of `s` from position `i` on: ASCII uppercase letters and
/// uppercase Cyrillic letters А..Я are folded to their lowercase forms;
/// every other byte is unchanged.
pub open spec fn fold_from(s: Seq<u8>, i: int) -> Seq<u8>
    decreases s.len() - i when 0 <= i <= s.len()
{
    if i >= s.len() {
        seq![]
    } else if i + 2 <= s.len() && is_upper_cyrillic(s[i], s[i + 1]) {
        seq![cyrillic_lower_first(s[i + 1]), cyrillic_lower_second(s[i + 1])] + fold_from(s, i + 2)
    } else {
        seq![lower(s[i])] + fold_from(s, i + 1)
    }
}

/// A byte sequence with the ASCII letters and the Cyrillic letters А..Я
/// folded to lowercase, so both keywords' alphabets match
/// case-insensitively.
pub open spec fn fold_case(s: Seq<u8>) -> Seq<u8> {
    fold_from(s, 0)
}

/// The case fold of a token.
fn fold_case_bytes(t: &[u8]) -> (v: Vec<u8>)
    ensures
        v@ == fold_case(t@),
{
    let mut v: Vec<u8> = Vec::new();
    let mut i: usize = 0;
    while i < t.len()
        invariant
            i <= t@.len(),
            fold_case(t@) == v@ + fold_from(t@, i as int),
        decreases t@.len() - i,
    {
        let b0 = t[i];
        if i + 1 < t.len() && b0 == 0xD0 && 0x90 <= t[i + 1] && t[i + 1] <= 0xAF {
            let b1 = t[i + 1];
            if b1 <= 0x9F {
                v.push(0xD0);
                v.push(b1 + 0x20);
            } else {
                v.push(0xD1);
                v.push(b1 - 0x20);
            }
            proof {
                assert(fold_case(t@) =~= v@ + fold_from(t@, i + 2));
            }
            i = i + 2;
        } else {
            v.push(lower_byte(b0));
            proof {
                assert(fold_case(t@) =~= v@ + fold_from(t@, i + 1));
            }
            i = i + 1;
        }
    }
    proof {
        assert(fold_case(t@) =~= v@);
    }
    v
}

/// Whether two byte vectors hold the same bytes.
fn bytes_match(a: &Vec<u8>, b: &Vec<u8>) -> (r: bool)
    ensures
        r == (a@ == b@),
{
    if a.len() != b.len() {
        return false;
    }
    let n = a.len();
    let mut i: usize = 0;
    while i < n
        invariant
            0 <= i <= n,
            n == a@.len() == b@.len(),
            forall|k: int| 0 <= k < i ==> a@[k] == b@[k],
        decreases n - i,
    {
        if a[i] != b[i] {
            return false;
        }
        i = i + 1;
    }
    proof {
        assert(a@ =~= b@);
    }
    true
}

/// A token that requests to quit: the quit keyword in either language,
/// matched with case folded.
pub open spec fn is_quit_token(t: Seq<u8>) -> bool {
    fold_case(t) == quit_word_ru() || fold_case(t) == quit_word_en()
}

/// Whether a token is the quit keyword.
pub fn quit_token(t: &[u8]) -> (r: bool)
    ensures
        r == is_quit_token(t@),
{
    let f = fold_case_bytes(t);
    let ru = quit_word_ru_bytes();
    if bytes_match(&f, &ru) {
        return true;
    }
    let en = quit_word_en_bytes();
    bytes_match(&f, &en)
}

/// A token that affirms continuing: one of the affirmative keywords, matched
/// with case folded.
pub open spec fn is_yes_token(t: Seq<u8>) -> bool {
    fold_case(t) == yes_word_ru() || fold_case(t) == yes_word_en()
}

/// Whether a token is an affirmative keyword.
pub fn yes_token(t: &[u8]) -> (r: bool)
    ensures
        r == is_yes_token(t@),
{
    let f = fold_case_bytes(t);
    let ru = yes_word_ru_bytes();
    if bytes_match(&f, &ru) {
        return true;
    }
    let en = yes_word_en_bytes();
    bytes_match(&f, &en)
}

/// A line that consists of exactly the quit keyword, surrounded by any
/// amount of whitespace.
pub open spec fn line_quits(s: Seq<u8>) -> bool {
    tokens_of(s).len() == 1 && is_quit_token(tokens_of(s)[0])
}

/// A line that consists of exactly one affirmative keyword, surrounded by
/// any amount of whitespace.
pub open spec fn line_affirms(s: Seq<u8>) -> bool {
    tokens_of(s).len() == 1 && is_yes_token(tokens_of(s)[0])
}

} // verus!
