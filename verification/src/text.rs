//! String building blocks: equality, ordering and number rendering.

use vstd::prelude::*;

verus! {

/// The upper-case hexadecimal digit for `d`.
pub open spec fn hex_digit(d: nat) -> char {
    if d < 10 {
        (('0' as nat) + d) as char
    } else {
        (('A' as nat) + (d - 10) as nat) as char
    }
}

/// `n` in upper-case hexadecimal, without leading zeros.
pub open spec fn hex_upper(n: nat) -> Seq<char>
    decreases n,
{
    if n < 16 {
        seq![hex_digit(n)]
    } else {
        hex_upper(n / 16) + seq![hex_digit(n % 16)]
    }
}

/// `n` in upper-case hexadecimal, padded with zeros to at least two digits.
pub open spec fn hex_upper_padded(n: nat) -> Seq<char> {
    if n < 16 {
        seq!['0'] + hex_upper(n)
    } else {
        hex_upper(n)
    }
}

/// `n` in decimal, without leading zeros.
pub open spec fn decimal(n: nat) -> Seq<char>
    decreases n,
{
    if n < 10 {
        seq![hex_digit(n)]
    } else {
        decimal(n / 10) + seq![hex_digit(n % 10)]
    }
}

/// Different numbers differ in decimal.
pub proof fn lemma_decimal_injective(a: nat, b: nat)
    requires
        decimal(a) == decimal(b),
    ensures
        a == b,
    decreases a,
{
    lemma_decimal_not_empty(a / 10);
    lemma_decimal_not_empty(b / 10);
    assert(decimal(a).last() == hex_digit(a % 10));
    assert(decimal(b).last() == hex_digit(b % 10));
    if a >= 10 && b >= 10 {
        assert(decimal(a).drop_last() =~= decimal(a / 10));
        assert(decimal(b).drop_last() =~= decimal(b / 10));
        lemma_decimal_injective(a / 10, b / 10);
    }
}

/// A number has at least one digit.
proof fn lemma_decimal_not_empty(n: nat)
    ensures
        decimal(n).len() > 0,
    decreases n,
{
    if n >= 10 {
        lemma_decimal_not_empty(n / 10);
    }
}

/// The one-character string for a hexadecimal digit.
pub fn hex_digit_str(d: u8) -> (s: &'static str)
    requires
        d < 16,
    ensures
        s@ == seq![hex_digit(d as nat)],
{
    proof {
        reveal_strlit("0");
        reveal_strlit("1");
        reveal_strlit("2");
        reveal_strlit("3");
        reveal_strlit("4");
        reveal_strlit("5");
        reveal_strlit("6");
        reveal_strlit("7");
        reveal_strlit("8");
        reveal_strlit("9");
        reveal_strlit("A");
        reveal_strlit("B");
        reveal_strlit("C");
        reveal_strlit("D");
        reveal_strlit("E");
        reveal_strlit("F");
    }
    match d {
        0 => "0",
        1 => "1",
        2 => "2",
        3 => "3",
        4 => "4",
        5 => "5",
        6 => "6",
        7 => "7",
        8 => "8",
        9 => "9",
        10 => "A",
        11 => "B",
        12 => "C",
        13 => "D",
        14 => "E",
        _ => "F",
    }
}

/// Append `n` in upper-case hexadecimal to `out`.
pub fn push_hex_upper(out: &mut String, n: u32)
    ensures
        final(out)@ == old(out)@ + hex_upper(n as nat),
    decreases n,
{
    if n >= 16 {
        push_hex_upper(out, n / 16);
    }
    out.append(hex_digit_str((n % 16) as u8));
}

/// Append `n` in upper-case hexadecimal to `out`, at least two digits wide.
pub fn push_hex_upper_padded(out: &mut String, n: u32)
    ensures
        final(out)@ == old(out)@ + hex_upper_padded(n as nat),
{
    if n < 16 {
        out.append(hex_digit_str(0));
    }
    push_hex_upper(out, n);
}

/// Append `n` in decimal to `out`.
pub fn push_decimal(out: &mut String, n: u64)
    ensures
        final(out)@ == old(out)@ + decimal(n as nat),
    decreases n,
{
    if n >= 10 {
        push_decimal(out, n / 10);
    }
    out.append(hex_digit_str((n % 10) as u8));
}

/// The text of an optional string.
pub open spec fn opt_view(text: Option<&str>) -> Option<Seq<char>> {
    match text {
        Some(found) => Some(found@),
        None => None,
    }
}

/// UTF-8 encoding loses nothing: equal bytes come from equal text.
pub proof fn lemma_same_bytes_same_text(a: Seq<char>, b: Seq<char>)
    requires
        vstd::utf8::encode_utf8(a) == vstd::utf8::encode_utf8(b),
    ensures
        a == b,
{
    vstd::utf8::encode_utf8_decode_utf8(a);
    vstd::utf8::encode_utf8_decode_utf8(b);
}

/// Whether two strings hold the same text.
pub fn str_eq(a: &str, b: &str) -> (same: bool)
    ensures
        same == (a@ == b@),
{
    let left = a.as_bytes();
    let right = b.as_bytes();
    if left.len() != right.len() {
        return false;
    }
    let mut i: usize = 0;
    while i < left.len()
        invariant
            left@ == vstd::utf8::encode_utf8(a@),
            right@ == vstd::utf8::encode_utf8(b@),
            left@.len() == right@.len(),
            i <= left@.len(),
            forall|j: int| 0 <= j < i ==> left@[j] == right@[j],
        decreases left@.len() - i,
    {
        if left[i] != right[i] {
            return false;
        }
        i += 1;
    }
    proof {
        assert(left@ =~= right@);
        lemma_same_bytes_same_text(a@, b@);
    }
    true
}

/// Byte-wise lexicographic order: at the first difference the smaller byte
/// comes first, and a proper prefix comes before what extends it.
pub open spec fn bytes_less(a: Seq<u8>, b: Seq<u8>) -> bool
    decreases a.len(),
{
    if b.len() == 0 {
        false
    } else if a.len() == 0 {
        true
    } else if a[0] != b[0] {
        a[0] < b[0]
    } else {
        bytes_less(a.skip(1), b.skip(1))
    }
}

/// The order of two texts by their UTF-8 bytes.
pub open spec fn text_less(a: Seq<char>, b: Seq<char>) -> bool {
    bytes_less(vstd::utf8::encode_utf8(a), vstd::utf8::encode_utf8(b))
}

/// The byte order is irreflexive.
pub proof fn lemma_bytes_less_irreflexive(a: Seq<u8>)
    ensures
        !bytes_less(a, a),
    decreases a.len(),
{
    if a.len() > 0 {
        lemma_bytes_less_irreflexive(a.skip(1));
    }
}

/// The byte order is transitive.
pub proof fn lemma_bytes_less_transitive(a: Seq<u8>, b: Seq<u8>, c: Seq<u8>)
    requires
        bytes_less(a, b),
        bytes_less(b, c),
    ensures
        bytes_less(a, c),
    decreases a.len(),
{
    if a.len() > 0 && b.len() > 0 && c.len() > 0 && a[0] == b[0] && b[0] == c[0] {
        lemma_bytes_less_transitive(a.skip(1), b.skip(1), c.skip(1));
    }
}

/// Two byte strings of which neither comes first are equal.
pub proof fn lemma_bytes_less_total(a: Seq<u8>, b: Seq<u8>)
    requires
        !bytes_less(a, b),
        !bytes_less(b, a),
    ensures
        a == b,
    decreases a.len(),
{
    if a.len() > 0 && b.len() > 0 {
        lemma_bytes_less_total(a.skip(1), b.skip(1));
        assert(a =~= seq![a[0]] + a.skip(1));
        assert(b =~= seq![b[0]] + b.skip(1));
    } else {
        assert(a =~= b);
    }
}

/// Cutting an equal prefix off both sides keeps the byte order.
proof fn lemma_bytes_less_skip(a: Seq<u8>, b: Seq<u8>, n: nat)
    requires
        n <= a.len(),
        n <= b.len(),
        forall|j: int| 0 <= j < n ==> a[j] == b[j],
    ensures
        bytes_less(a, b) == bytes_less(a.skip(n as int), b.skip(n as int)),
    decreases n,
{
    if n > 0 {
        assert forall|j: int| 0 <= j < n - 1 implies a.skip(1)[j] == b.skip(1)[j] by {
            assert(a[j + 1] == b[j + 1]);
        }
        lemma_bytes_less_skip(a.skip(1), b.skip(1), (n - 1) as nat);
        assert(a.skip(1).skip(n - 1) =~= a.skip(n as int));
        assert(b.skip(1).skip(n - 1) =~= b.skip(n as int));
        assert(a[0] == b[0]);
    } else {
        assert(a.skip(0) =~= a);
        assert(b.skip(0) =~= b);
    }
}

/// Of two texts exactly one holds: the first comes first, they are equal, or the
/// second comes first.
pub proof fn lemma_text_order(a: Seq<char>, b: Seq<char>)
    ensures
        text_less(a, b) || a == b || text_less(b, a),
        !(text_less(a, b) && text_less(b, a)),
        !text_less(a, a),
{
    let x = vstd::utf8::encode_utf8(a);
    let y = vstd::utf8::encode_utf8(b);
    lemma_bytes_less_irreflexive(x);
    if !text_less(a, b) && !text_less(b, a) {
        lemma_bytes_less_total(x, y);
        lemma_same_bytes_same_text(a, b);
    }
    if text_less(a, b) && text_less(b, a) {
        lemma_bytes_less_transitive(x, y, x);
    }
}

/// The order of texts is transitive.
pub proof fn lemma_text_transitive(a: Seq<char>, b: Seq<char>, c: Seq<char>)
    requires
        text_less(a, b),
        text_less(b, c),
    ensures
        text_less(a, c),
{
    lemma_bytes_less_transitive(
        vstd::utf8::encode_utf8(a),
        vstd::utf8::encode_utf8(b),
        vstd::utf8::encode_utf8(c),
    );
}

/// Whether `a` comes before `b` in byte order.
pub fn str_less(a: &str, b: &str) -> (less: bool)
    ensures
        less == text_less(a@, b@),
{
    let left = a.as_bytes();
    let right = b.as_bytes();
    let mut i: usize = 0;
    while i < left.len() && i < right.len() && left[i] == right[i]
        invariant
            left@ == vstd::utf8::encode_utf8(a@),
            right@ == vstd::utf8::encode_utf8(b@),
            i <= left@.len(),
            i <= right@.len(),
            forall|j: int| 0 <= j < i ==> left@[j] == right@[j],
        decreases left@.len() - i,
    {
        i += 1;
    }
    proof {
        lemma_bytes_less_skip(left@, right@, i as nat);
    }
    if i >= right.len() {
        false
    } else if i >= left.len() {
        true
    } else {
        left[i] < right[i]
    }
}

/// [`String::push`] appends one character.
pub assume_specification[ std::string::String::push ](s: &mut std::string::String, c: char)
    ensures
        final(s)@ == old(s)@.push(c),
;

/// An ASCII capital letter in lower case; any other character as it is.
pub open spec fn lower_char(c: char) -> char {
    if 'A' <= c <= 'Z' {
        (c as u32 + 32) as char
    } else {
        c
    }
}

/// The text with its ASCII capital letters in lower case.
pub open spec fn lower(text: Seq<char>) -> Seq<char> {
    text.map_values(|c: char| lower_char(c))
}

/// Append a text with its ASCII capital letters in lower case to `out`.
pub fn push_lower(out: &mut String, text: &str)
    ensures
        final(out)@ == old(out)@ + lower(text@),
{
    let n = text.unicode_len();
    let mut i: usize = 0;
    while i < n
        invariant
            n == text@.len(),
            i <= n,
            out@ == old(out)@ + lower(text@.take(i as int)),
        decreases n - i,
    {
        let c = text.get_char(i);
        let ghost before = out@;
        if 'A' <= c && c <= 'Z' {
            out.push((c as u8 + 32) as char);
        } else {
            out.push(c);
        }
        i += 1;
        assert(text@.take(i as int) =~= text@.take(i - 1).push(c));
        assert(lower(text@.take(i as int)) =~= lower(text@.take(i - 1)).push(lower_char(c)));
        assert(out@ =~= old(out)@ + lower(text@.take(i as int)));
    }
    assert(text@.take(n as int) =~= text@);
}

/// The lower-case hexadecimal digit for `d`.
pub open spec fn hex_digit_lower(d: nat) -> char {
    if d < 10 {
        (('0' as nat) + d) as char
    } else {
        (('a' as nat) + (d - 10) as nat) as char
    }
}

/// A byte as two lower-case hexadecimal digits.
pub open spec fn hex_byte(b: u8) -> Seq<char> {
    seq![hex_digit_lower((b / 16) as nat), hex_digit_lower((b % 16) as nat)]
}

/// A 16-bit number as four lower-case hexadecimal digits.
pub open spec fn hex_u16(n: u16) -> Seq<char> {
    hex_byte((n / 256) as u8) + hex_byte((n % 256) as u8)
}

/// The lower-case hexadecimal digit for `d`.
fn hex_lower(d: u8) -> (c: char)
    requires
        d < 16,
    ensures
        c == hex_digit_lower(d as nat),
{
    if d < 10 {
        (48 + d) as char
    } else {
        (87 + d) as char
    }
}

/// The value of a hexadecimal digit.
pub open spec fn digit_of(c: char) -> Option<nat> {
    let code = c as u32;
    if 0x30 <= code <= 0x39 {
        Some((code - 0x30) as nat)
    } else if 0x41 <= code <= 0x46 {
        Some((code - 0x41 + 10) as nat)
    } else if 0x61 <= code <= 0x66 {
        Some((code - 0x61 + 10) as nat)
    } else {
        None
    }
}

/// The value of a hexadecimal digit.
pub fn read_digit(c: char) -> (digit: Option<u8>)
    ensures
        match digit {
            Some(digit) => digit_of(c) == Some(digit as nat) && digit < 16,
            None => digit_of(c) is None,
        },
{
    let code = c as u32;
    if 0x30 <= code && code <= 0x39 {
        Some((code - 0x30) as u8)
    } else if 0x41 <= code && code <= 0x46 {
        Some((code - 0x41 + 10) as u8)
    } else if 0x61 <= code && code <= 0x66 {
        Some((code - 0x61 + 10) as u8)
    } else {
        None
    }
}

/// Append a byte as two lower-case hexadecimal digits to `out`.
pub fn push_hex_byte(out: &mut String, b: u8)
    ensures
        final(out)@ == old(out)@ + hex_byte(b),
{
    out.push(hex_lower(b / 16));
    out.push(hex_lower(b % 16));
    assert(out@ =~= old(out)@ + hex_byte(b));
}

/// Append a 16-bit number as four lower-case hexadecimal digits to `out`.
pub fn push_hex_u16(out: &mut String, n: u16)
    ensures
        final(out)@ == old(out)@ + hex_u16(n),
{
    push_hex_byte(out, (n / 256) as u8);
    push_hex_byte(out, (n % 256) as u8);
    assert(out@ =~= old(out)@ + hex_u16(n));
}

/// Whether a text begins with a prefix.
pub open spec fn begins(text: Seq<char>, prefix: Seq<char>) -> bool {
    prefix.len() <= text.len() && text.take(prefix.len() as int) == prefix
}

/// Whether a text ends with a suffix.
pub open spec fn ends(text: Seq<char>, suffix: Seq<char>) -> bool {
    suffix.len() <= text.len() && text.skip(text.len() - suffix.len()) == suffix
}

/// Whether the characters of `part` stand in `text` from a position on.
fn stands_at(text: &str, part: &str, at: usize) -> (found: bool)
    requires
        at + part@.len() <= text@.len(),
    ensures
        found == (text@.subrange(at as int, at + part@.len()) == part@),
{
    let whole = text.unicode_len();
    let n = part.unicode_len();
    let mut i: usize = 0;
    while i < n
        invariant
            whole == text@.len(),
            n == part@.len(),
            i <= n,
            at + n <= whole,
            forall|j: int| 0 <= j < i ==> text@[at + j] == #[trigger] part@[j],
        decreases n - i,
    {
        if text.get_char(at + i) != part.get_char(i) {
            assert(text@.subrange(at as int, at + part@.len())[i as int] != part@[i as int]);
            return false;
        }
        i += 1;
    }
    assert(text@.subrange(at as int, at + part@.len()) =~= part@);
    true
}

/// Whether a text begins with a prefix.
pub fn starts_with(text: &str, prefix: &str) -> (found: bool)
    ensures
        found == begins(text@, prefix@),
{
    if text.unicode_len() < prefix.unicode_len() {
        return false;
    }
    assert(text@.take(prefix@.len() as int) =~= text@.subrange(0, prefix@.len() as int));
    stands_at(text, prefix, 0)
}

/// Whether a text ends with a suffix.
pub fn ends_with(text: &str, suffix: &str) -> (found: bool)
    ensures
        found == ends(text@, suffix@),
{
    let whole = text.unicode_len();
    let part = suffix.unicode_len();
    if whole < part {
        return false;
    }
    assert(text@.skip(text@.len() - suffix@.len()) =~= text@.subrange(
        text@.len() - suffix@.len(),
        text@.len() as int,
    ));
    stands_at(text, suffix, whole - part)
}

/// The first `n` characters of a text.
pub fn prefix_of(text: &str, n: usize) -> (prefix: String)
    requires
        n <= text@.len(),
    ensures
        prefix@ == text@.take(n as int),
{
    let mut prefix = String::new();
    let mut i: usize = 0;
    while i < n
        invariant
            i <= n <= text@.len(),
            prefix@ == text@.take(i as int),
        decreases n - i,
    {
        prefix.push(text.get_char(i));
        i += 1;
        assert(text@.take(i as int) =~= text@.take(i - 1).push(text@[i - 1]));
    }
    prefix
}

/// Which characters are digits and what they stand for.
pub proof fn law_digits_stand_for_their_values(c: char)
    ensures
        digit_of(c) is Some <==> '0' <= c <= '9' || 'A' <= c <= 'F' || 'a' <= c <= 'f',
        '0' <= c <= '9' ==> digit_of(c) == Some((c as nat - '0' as nat) as nat),
        'A' <= c <= 'F' ==> digit_of(c) == Some((c as nat - 'A' as nat + 10) as nat),
        'a' <= c <= 'f' ==> digit_of(c) == Some((c as nat - 'a' as nat + 10) as nat),
{
}

/// The digit written for a value reads as that value; capitals are written by the one and
/// small letters by the other.
pub proof fn law_digits_are_written(d: nat)
    requires
        d < 16,
    ensures
        digit_of(hex_digit(d)) == Some(d),
        digit_of(hex_digit_lower(d)) == Some(d),
        '0' <= hex_digit(d) <= '9' || 'A' <= hex_digit(d) <= 'F',
        '0' <= hex_digit_lower(d) <= '9' || 'a' <= hex_digit_lower(d) <= 'f',
{
}

/// A byte is written with its higher digit first, and two bytes with the higher byte
/// first.
pub proof fn law_bytes_are_written_by_place(b: u8, n: u16)
    ensures
        hex_byte(b).len() == 2,
        hex_byte(b)[0] == hex_digit_lower((b / 16) as nat),
        hex_byte(b)[1] == hex_digit_lower((b % 16) as nat),
        hex_u16(n).len() == 4,
        hex_u16(n)[0] == hex_digit_lower((n / 4096) as nat),
        hex_u16(n)[1] == hex_digit_lower((n / 256 % 16) as nat),
        hex_u16(n)[2] == hex_digit_lower((n / 16 % 16) as nat),
        hex_u16(n)[3] == hex_digit_lower((n % 16) as nat),
{
    assert((n / 256) / 16 == n / 4096 && (n % 256) / 16 == (n / 16) % 16 && (n % 256) % 16 == n
        % 16) by (bit_vector);
}

/// What digits read as, in a base: the last is the ones, and those before it count by the
/// base.
pub open spec fn read_as(digits: Seq<char>, base: nat) -> nat
    decreases digits.len(),
{
    if digits.len() == 0 {
        0
    } else {
        read_as(digits.drop_last(), base) * base + digit_of(digits.last())->0
    }
}

/// A number that is written in hexadecimal or in decimal reads back as that number, and
/// has no leading zero but for zero itself.
pub proof fn law_numbers_read_back(n: nat)
    ensures
        read_as(hex_upper(n), 16) == n,
        read_as(decimal(n), 10) == n,
        read_as(hex_upper_padded(n), 16) == n,
        n > 0 ==> hex_upper(n)[0] != '0' && decimal(n)[0] != '0',
        hex_upper(n).len() > 0,
        decimal(n).len() > 0,
        n < 256 ==> hex_upper_padded(n).len() == 2,
    decreases n,
{
    law_digits_are_written(n % 16);
    law_digits_are_written(n % 10);
    reveal_with_fuel(read_as, 3);
    reveal_with_fuel(hex_upper, 2);
    if n < 16 {
        law_digits_are_written(n);
        assert(hex_upper(n).drop_last() =~= Seq::<char>::empty());
        assert(hex_upper_padded(n).drop_last() =~= seq!['0']);
        assert(seq!['0'].drop_last() =~= Seq::<char>::empty());
    } else {
        law_numbers_read_back(n / 16);
        assert(hex_upper(n).drop_last() =~= hex_upper(n / 16));
    }
    if n < 10 {
        assert(decimal(n).drop_last() =~= Seq::<char>::empty());
    } else {
        law_numbers_read_back(n / 10);
        assert(decimal(n).drop_last() =~= decimal(n / 10));
    }
}

/// Lowering changes the capital letters alone, each to its small letter, in place.
pub proof fn law_capitals_are_lowered(text: Seq<char>, i: int)
    requires
        0 <= i < text.len(),
    ensures
        lower(text).len() == text.len(),
        'A' <= text[i] <= 'Z' ==> 'a' <= lower(text)[i] <= 'z' && lower(text)[i] as nat - 'a' as nat
            == text[i] as nat - 'A' as nat,
        !('A' <= text[i] <= 'Z') ==> lower(text)[i] == text[i],
{
}

/// Bytes go by the first place in which they differ, and a beginning comes before the
/// longer text.
pub proof fn law_first_difference_decides(a: Seq<u8>, b: Seq<u8>, i: int)
    requires
        0 <= i <= a.len(),
        i <= b.len(),
        forall|j: int| 0 <= j < i ==> a[j] == b[j],
    ensures
        i < a.len() && i < b.len() && a[i] != b[i] ==> (bytes_less(a, b) <==> a[i] < b[i]),
        i == a.len() && i < b.len() ==> bytes_less(a, b) && !bytes_less(b, a),
        i == a.len() && i == b.len() ==> !bytes_less(a, b),
    decreases i,
{
    if i > 0 {
        let (x, y) = (a.skip(1), b.skip(1));
        assert forall|j: int| 0 <= j < i - 1 implies x[j] == y[j] by {
            assert(x[j] == a[j + 1] && y[j] == b[j + 1]);
        }
        law_first_difference_decides(x, y, i - 1);
    }
}

/// A text begins with another when the other stands at its front, and ends with it when
/// it stands at its end.
pub proof fn law_beginnings_and_ends(text: Seq<char>, part: Seq<char>)
    ensures
        begins(part + text, part),
        ends(text + part, part),
        begins(text, part) <==> part.len() <= text.len() && forall|i: int|
            0 <= i < part.len() ==> text[i] == part[i],
        ends(text, part) <==> part.len() <= text.len() && forall|i: int|
            0 <= i < part.len() ==> #[trigger] text[text.len() - part.len() + i] == part[i],
{
    assert((part + text).take(part.len() as int) =~= part);
    assert((text + part).skip((text + part).len() - part.len()) =~= part);
    if part.len() <= text.len() {
        let front = text.take(part.len() as int);
        let back = text.skip(text.len() - part.len());
        if forall|i: int| 0 <= i < part.len() ==> text[i] == part[i] {
            assert(front =~= part);
        }
        if begins(text, part) {
            assert(forall|i: int| 0 <= i < part.len() ==> front[i] == text[i]);
        }
        if forall|i: int|
            0 <= i < part.len() ==> #[trigger] text[text.len() - part.len() + i] == part[i] {
            assert forall|i: int| 0 <= i < part.len() implies back[i] == part[i] by {
                assert(back[i] == text[text.len() - part.len() + i]);
            }
            assert(back =~= part);
        }
        if ends(text, part) {
            assert forall|i: int| 0 <= i < part.len() implies #[trigger] text[text.len()
                - part.len() + i] == part[i] by {
                assert(back[i] == text[text.len() - part.len() + i]);
            }
        }
    }
}

} // verus!
