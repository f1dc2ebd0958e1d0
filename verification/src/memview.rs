//! The memory viewer's text: parsing typed hex bytes and the hex dump.

use vstd::prelude::*;

use crate::text::chars_of;
use crate::text::digit_char;
use crate::text::is_whitespace;
use crate::text::is_ws;
use crate::text::hex_text;
use crate::text::hex_upper;
use crate::text::push_char;
use crate::text::push_chars;

verus! {

// ---------------------------------------------------------------------------
// Parsing typed bytes
// ---------------------------------------------------------------------------

/// Number of bytes that `c` takes in UTF-8.
pub open spec fn char_width(c: char) -> nat {
    let u = c as u32;
    if u < 0x80 {
        1
    } else if u < 0x800 {
        2
    } else if u < 0x10000 {
        3
    } else {
        4
    }
}

/// Number of bytes that `s` takes in UTF-8 (`str::len`).
pub open spec fn utf8_len(s: Seq<char>) -> nat
    decreases s.len(),
{
    if s.len() == 0 {
        0
    } else {
        char_width(s[0]) + utf8_len(s.drop_first())
    }
}

/// `s` without its white-space characters.
pub open spec fn compact(s: Seq<char>) -> Seq<char> {
    s.filter(|c: char| !is_ws(c))
}

/// Value of a hex digit (either case).
pub open spec fn hex_digit(c: char) -> Option<u8> {
    let u = c as u32;
    if 0x30 <= u <= 0x39 {
        Some((u - 0x30) as u8)
    } else if 0x41 <= u <= 0x46 {
        Some((u - 0x41 + 10) as u8)
    } else if 0x61 <= u <= 0x66 {
        Some((u - 0x61 + 10) as u8)
    } else {
        None
    }
}

/// The byte that the two-character text `a b` denotes in base 16, as
/// `u8::from_str_radix` reads it: two hex digits, or a `+` sign and one.
pub open spec fn pair_value(a: char, b: char) -> Option<u8> {
    if a == '+' {
        hex_digit(b)
    } else {
        match (hex_digit(a), hex_digit(b)) {
            (Some(x), Some(y)) => Some((16 * x + y) as u8),
            _ => None,
        }
    }
}

/// Reading `c` two bytes at a time from the start stops at the first pair
/// that is not a byte, or at a multi-byte character, before any cut falls
/// inside a character (a cut inside a character is a panic of `str`
/// slicing).
pub open spec fn splits_cleanly(c: Seq<char>) -> bool
    decreases c.len(),
{
    if c.len() == 0 {
        true
    } else if char_width(c[0]) == 2 {
        true
    } else if char_width(c[0]) == 1 && c.len() >= 2 && char_width(c[1]) == 1 {
        pair_value(c[0], c[1]) is None || splits_cleanly(c.skip(2))
    } else {
        false
    }
}

/// The bytes that the characters `c` (of even UTF-8 length, read as above)
/// denote, if every pair is a byte.
pub open spec fn pairs_value(c: Seq<char>) -> Option<Seq<u8>>
    decreases c.len(),
{
    if c.len() == 0 {
        Some(seq![])
    } else if c.len() >= 2 && char_width(c[0]) == 1 && char_width(c[1]) == 1 {
        match pair_value(c[0], c[1]) {
            Some(b) => match pairs_value(c.skip(2)) {
                Some(rest) => Some(seq![b] + rest),
                None => None,
            },
            None => None,
        }
    } else {
        None
    }
}

/// The inputs on which parsing does not panic.
pub open spec fn hex_input_ok(s: Seq<char>) -> bool {
    let c = compact(s);
    utf8_len(c) == 0 || utf8_len(c) % 2 == 1 || splits_cleanly(c)
}

/// What parsing typed hex bytes gives: `None` for empty input or an odd
/// number of bytes, else the bytes of the pairs.
pub open spec fn parsed_hex(s: Seq<char>) -> Option<Seq<u8>> {
    let c = compact(s);
    if utf8_len(c) == 0 || utf8_len(c) % 2 == 1 {
        None
    } else {
        pairs_value(c)
    }
}

pub(crate) fn width_of(c: char) -> (w: usize)
    ensures
        w == char_width(c),
{
    let u = c as u32;
    if u < 0x80 {
        1
    } else if u < 0x800 {
        2
    } else if u < 0x10000 {
        3
    } else {
        4
    }
}

fn digit_value(c: char) -> (r: Option<u8>)
    ensures
        r == hex_digit(c),
{
    let u = c as u32;
    if 0x30 <= u && u <= 0x39 {
        Some((u - 0x30) as u8)
    } else if 0x41 <= u && u <= 0x46 {
        Some((u - 0x41 + 10) as u8)
    } else if 0x61 <= u && u <= 0x66 {
        Some((u - 0x61 + 10) as u8)
    } else {
        None
    }
}

fn pair_byte(a: char, b: char) -> (r: Option<u8>)
    ensures
        r == pair_value(a, b),
{
    if a == '+' {
        digit_value(b)
    } else {
        match (digit_value(a), digit_value(b)) {
            (Some(x), Some(y)) => {
                assert(16 * x + y < 256) by (nonlinear_arith)
                    requires
                        x < 16,
                        y < 16,
                ;
                Some(16 * x + y)
            },
            _ => None,
        }
    }
}

fn compact_chars(s: &str) -> (c: Vec<char>)
    ensures
        c@ == compact(s@),
{
    let v = chars_of(s);
    let mut c: Vec<char> = Vec::new();
    let mut i: usize = 0;
    while i < v.len()
        invariant
            i <= v.len(),
            c@ == v@.take(i as int).filter(|c: char| !is_ws(c)),
        decreases v.len() - i,
    {
        let ch = v[i];
        if !is_whitespace(ch) {
            c.push(ch);
        }
        proof {
            assert(v@.take(i + 1).drop_last() =~= v@.take(i as int));
            assert(v@.take(i + 1).last() == ch);
            reveal_with_fuel(Seq::<_>::filter, 1);
        }
        i = i + 1;
        assert(v@.take(i as int) =~= v@.take(i - 1 as int).push(ch));
    }
    assert(v@.take(v@.len() as int) =~= v@);
    c
}

pub(crate) proof fn lemma_utf8_len_push(s: Seq<char>, c: char)
    ensures
        utf8_len(s.push(c)) == utf8_len(s) + char_width(c),
    decreases s.len(),
{
    if s.len() > 0 {
        assert(s.push(c)[0] == s[0]);
        assert(s.push(c).drop_first() =~= s.drop_first().push(c));
        lemma_utf8_len_push(s.drop_first(), c);
        assert(utf8_len(s.push(c)) == char_width(s[0]) + utf8_len(s.drop_first().push(c)));
    } else {
        assert(s.push(c).drop_first() =~= s);
        assert(utf8_len(s.push(c)) == char_width(c) + utf8_len(s));
    }
}

/// Whether parsing `s` would panic (see [`hex_input_ok`]).
pub fn hex_input_panics(s: &str) -> (r: bool)
    ensures
        r == !hex_input_ok(s@),
{
    let c = compact_chars(s);
    let total = utf8_length(&c);
    if total == 0 || total % 2 == 1 {
        return false;
    }
    let mut i: usize = 0;
    assert(c@.skip(0) =~= c@);
    while i < c.len()
        invariant
            i <= c.len(),
            c@ == compact(s@),
            utf8_len(c@) != 0 && utf8_len(c@) % 2 == 0,
            splits_cleanly(c@) == splits_cleanly(c@.skip(i as int)),
        decreases c.len() - i,
    {
        let ghost rest = c@.skip(i as int);
        assert(rest[0] == c@[i as int]);
        if i + 1 < c.len() {
            assert(rest[1] == c@[i + 1]);
        }
        let w = width_of(c[i]);
        if w == 2 {
            return false;
        }
        if w == 1 && i + 1 < c.len() && width_of(c[i + 1]) == 1 {
            if pair_byte(c[i], c[i + 1]).is_none() {
                return false;
            }
            proof {
                assert(c@.skip(i as int).skip(2) =~= c@.skip(i + 2));
            }
            i = i + 2;
        } else {
            return true;
        }
    }
    proof {
        assert(c@.skip(i as int).len() == 0);
    }
    false
}

pub(crate) fn utf8_length(c: &Vec<char>) -> (n: u128)
    ensures
        n == utf8_len(c@),
        n <= 4 * c@.len(),
{
    let mut n: u128 = 0;
    let mut i: usize = 0;
    proof {
        assert(c@.take(0) =~= seq![]);
    }
    while i < c.len()
        invariant
            i <= c.len(),
            n == utf8_len(c@.take(i as int)),
            n <= 4 * i,
        decreases c.len() - i,
    {
        proof {
            assert(c@.take(i + 1) =~= c@.take(i as int).push(c@[i as int]));
            lemma_utf8_len_push(c@.take(i as int), c@[i as int]);
        }
        n = n + width_of(c[i]) as u128;
        i = i + 1;
    }
    assert(c@.take(c@.len() as int) =~= c@);
    n
}

/// Parses hex bytes typed as "DE AD BE EF" or "DEADBEEF" (white space is
/// ignored); `None` when the text is empty, has an odd number of bytes or
/// holds a pair that is not a byte.
pub fn parse_hex_bytes(s: &str) -> (r: Option<Vec<u8>>)
    requires
        hex_input_ok(s@),
    ensures
        match r {
            Some(v) => parsed_hex(s@) == Some(v@),
            None => parsed_hex(s@) is None,
        },
{
    let c = compact_chars(s);
    let total = utf8_length(&c);
    if total == 0 || total % 2 == 1 {
        return None;
    }
    let mut out: Vec<u8> = Vec::new();
    let mut i: usize = 0;
    proof {
        assert(c@.skip(0) =~= c@);
    }
    while i < c.len()
        invariant
            i <= c.len(),
            c@ == compact(s@),
            utf8_len(c@) != 0 && utf8_len(c@) % 2 == 0,
            splits_cleanly(c@.skip(i as int)),
            pairs_value(c@) == match pairs_value(c@.skip(i as int)) {
                Some(rest) => Some(out@ + rest),
                None => None::<Seq<u8>>,
            },
        decreases c.len() - i,
    {
        let ghost rest = c@.skip(i as int);
        assert(rest[0] == c@[i as int]);
        if i + 1 < c.len() {
            assert(rest[1] == c@[i + 1]);
        }
        if width_of(c[i]) == 1 && i + 1 < c.len() && width_of(c[i + 1]) == 1 {
            match pair_byte(c[i], c[i + 1]) {
                Some(b) => {
                    proof {
                        assert(rest.skip(2) =~= c@.skip(i + 2));
                        if let Some(tail) = pairs_value(c@.skip(i + 2)) {
                            assert(out@ + (seq![b] + tail) =~= out@.push(b) + tail);
                        }
                    }
                    out.push(b);
                    i = i + 2;
                },
                None => {
                    return None;
                },
            }
        } else {
            return None;
        }
    }
    proof {
        assert(c@.skip(i as int) =~= seq![]);
        assert(out@ + seq![] =~= out@);
    }
    Some(out)
}

// ---------------------------------------------------------------------------
// The dump
// ---------------------------------------------------------------------------

/// `n` in upper-case hex, padded with zeros to `width` digits (`{:0width$X}`
/// for values that fit).
pub open spec fn hex_padded(n: nat, width: nat) -> Seq<char>
    decreases width,
{
    if width == 0 {
        seq![]
    } else {
        hex_padded(n / 16, (width - 1) as nat).push(digit_char(n % 16))
    }
}

/// The hex column of a dump row: each byte as two upper-case digits and a
/// space (`{b:02X} `).
pub open spec fn hex_column(bytes: Seq<u8>) -> Seq<char>
    decreases bytes.len(),
{
    if bytes.len() == 0 {
        seq![]
    } else {
        hex_column(bytes.drop_last()) + hex_padded(bytes.last() as nat, 2) + seq![' ']
    }
}

/// The character column of a dump row: printable ASCII as it is, every
/// other byte as `.`.
pub open spec fn ascii_column(bytes: Seq<u8>) -> Seq<char> {
    bytes.map_values(|b: u8| if 0x20 <= b <= 0x7e { b as char } else { '.' })
}

/// `s` padded with spaces on the right to at least `width` characters.
pub open spec fn pad_right(s: Seq<char>, width: nat) -> Seq<char> {
    if s.len() >= width {
        s
    } else {
        s + Seq::new((width - s.len()) as nat, |i: int| ' ')
    }
}

/// `n` in upper-case hex with at least eight digits (`{:08X}`).
pub open spec fn hex8(n: nat) -> Seq<char> {
    if n < 0x1_0000_0000 {
        hex_padded(n, 8)
    } else {
        hex_upper(n)
    }
}

/// One dump row (`{:08X}  {:<48}  {}`): the address in at least eight hex
/// digits, the hex column padded to 48 characters, and the character
/// column.
pub open spec fn dump_row(addr: nat, bytes: Seq<u8>) -> Seq<char> {
    hex8(addr) + seq![' ', ' '] + pad_right(hex_column(bytes), 48) + seq![' ', ' ']
        + ascii_column(bytes)
}

fn push_hex_padded(s: &mut String, n: u64, width: u64)
    requires
        width <= 16,
    ensures
        final(s)@ == old(s)@ + hex_padded(n as nat, width as nat),
    decreases width,
{
    if width > 0 {
        push_hex_padded(s, n / 16, width - 1);
        let d = n % 16;
        let c = if d < 10 {
            ((('0' as u32) + (d as u32)) as u8) as char
        } else {
            ((('A' as u32) + (d as u32 - 10)) as u8) as char
        };
        push_char(s, c);
        proof {
            assert(c == digit_char((n % 16) as nat));
            assert((n / 16) as nat == (n as nat) / 16);
        }
    }
}

/// The hex column of `bytes` (see [`hex_column`]).
pub fn hex_column_text(bytes: &[u8]) -> (s: String)
    ensures
        s@ == hex_column(bytes@),
{
    let mut s = String::new();
    let mut i: usize = 0;
    while i < bytes.len()
        invariant
            i <= bytes.len(),
            s@ == hex_column(bytes@.take(i as int)),
        decreases bytes.len() - i,
    {
        proof {
            assert(bytes@.take(i + 1).drop_last() =~= bytes@.take(i as int));
        }
        push_hex_padded(&mut s, bytes[i] as u64, 2);
        push_char(&mut s, ' ');
        i = i + 1;
        assert(s@ =~= hex_column(bytes@.take(i as int)));
    }
    assert(bytes@.take(bytes@.len() as int) =~= bytes@);
    s
}

/// One row of the dump (see [`dump_row`]).
pub fn dump_row_text(addr: u64, bytes: &[u8]) -> (s: String)
    ensures
        s@ == dump_row(addr as nat, bytes@),
{
    let mut s = String::new();
    if addr < 0x1_0000_0000 {
        push_hex_padded(&mut s, addr, 8);
    } else {
        let h = chars_of(hex_text(addr).as_str());
        push_chars(&mut s, &h, 0, h.len());
        assert(h@.subrange(0, h@.len() as int) =~= h@);
    }
    assert(s@ == hex8(addr as nat));
    push_char(&mut s, ' ');
    push_char(&mut s, ' ');
    let hex = chars_of(hex_column_text(bytes).as_str());
    let mut i: usize = 0;
    let ghost start = s@;
    while i < hex.len()
        invariant
            i <= hex.len(),
            s@ == start + hex@.take(i as int),
        decreases hex.len() - i,
    {
        push_char(&mut s, hex[i]);
        i = i + 1;
        assert(s@ =~= start + hex@.take(i as int));
    }
    assert(hex@.take(hex@.len() as int) =~= hex@);
    let mut k: usize = hex.len();
    while k < 48
        invariant
            hex.len() <= k <= 48 || (k == hex.len() && k > 48),
            s@ == start + hex@ + Seq::new((k - hex.len()) as nat, |j: int| ' '),
        decreases 48 - k,
    {
        push_char(&mut s, ' ');
        k = k + 1;
        assert(s@ =~= start + hex@ + Seq::new((k - hex.len()) as nat, |j: int| ' '));
    }
    proof {
        if hex@.len() >= 48 {
            assert(Seq::new((k - hex.len()) as nat, |j: int| ' ') =~= seq![]);
            assert(s@ =~= start + pad_right(hex@, 48));
        } else {
            assert(s@ =~= start + pad_right(hex@, 48));
        }
    }
    push_char(&mut s, ' ');
    push_char(&mut s, ' ');
    let ghost mid = s@;
    let mut j: usize = 0;
    while j < bytes.len()
        invariant
            j <= bytes.len(),
            s@ == mid + ascii_column(bytes@.take(j as int)),
        decreases bytes.len() - j,
    {
        let b = bytes[j];
        push_char(
            &mut s,
            if 0x20 <= b && b <= 0x7e {
                b as char
            } else {
                '.'
            },
        );
        j = j + 1;
        assert(s@ =~= mid + ascii_column(bytes@.take(j as int)));
    }
    assert(bytes@.take(bytes@.len() as int) =~= bytes@);
    s
}


// ---------------------------------------------------------------------------
// Reading back the dump
// ---------------------------------------------------------------------------

/// The hex digits of a dump's hex column, without the spaces.
pub open spec fn hex_pairs(bytes: Seq<u8>) -> Seq<char>
    decreases bytes.len(),
{
    if bytes.len() == 0 {
        seq![]
    } else {
        hex_pairs(bytes.drop_last()) + hex_padded(bytes.last() as nat, 2)
    }
}

proof fn lemma_digit(d: nat)
    requires
        d < 16,
    ensures
        hex_digit(digit_char(d)) == Some(d as u8),
        digit_char(d) != '+',
        !is_ws(digit_char(d)),
        char_width(digit_char(d)) == 1,
{
}

proof fn lemma_byte_pair(b: u8)
    ensures
        hex_padded(b as nat, 2) == seq![digit_char((b / 16) as nat), digit_char((b % 16) as nat)],
        pair_value(digit_char((b / 16) as nat), digit_char((b % 16) as nat)) == Some(b),
{
    let n = b as nat;
    assert(hex_padded(n / 16 / 16, 0) == Seq::<char>::empty());
    assert((n / 16) % 16 == n / 16);
    assert(hex_padded(n / 16, 1) == seq![digit_char(n / 16)]);
    lemma_digit(n / 16);
    lemma_digit(n % 16);
    assert(16 * (b / 16) + b % 16 == b);
}

proof fn lemma_pairs_append(p: Seq<char>, q: Seq<char>)
    requires
        pairs_value(p) is Some,
    ensures
        pairs_value(p + q) == match pairs_value(q) {
            Some(w) => Some(pairs_value(p)->0 + w),
            None => None::<Seq<u8>>,
        },
    decreases p.len(),
{
    if p.len() == 0 {
        assert(p + q =~= q);
        if let Some(w) = pairs_value(q) {
            assert(seq![] + w =~= w);
        }
    } else {
        assert((p + q)[0] == p[0]);
        assert((p + q)[1] == p[1]);
        assert((p + q).skip(2) =~= p.skip(2) + q);
        lemma_pairs_append(p.skip(2), q);
        if let Some(w) = pairs_value(q) {
            let b = pair_value(p[0], p[1])->0;
            let rest = pairs_value(p.skip(2))->0;
            assert(seq![b] + (rest + w) =~= (seq![b] + rest) + w);
        }
    }
}

proof fn lemma_ascii_len(p: Seq<char>)
    requires
        forall|i: int| 0 <= i < p.len() ==> char_width(#[trigger] p[i]) == 1,
    ensures
        utf8_len(p) == p.len(),
    decreases p.len(),
{
    if p.len() > 0 {
        assert forall|i: int| 0 <= i < p.drop_first().len() implies char_width(
            #[trigger] p.drop_first()[i],
        ) == 1 by {
            assert(p.drop_first()[i] == p[i + 1]);
        }
        lemma_ascii_len(p.drop_first());
    }
}

proof fn lemma_pairs_split_cleanly(p: Seq<char>)
    requires
        pairs_value(p) is Some,
    ensures
        splits_cleanly(p),
    decreases p.len(),
{
    if p.len() > 0 {
        lemma_pairs_split_cleanly(p.skip(2));
    }
}

proof fn lemma_hex_pairs(bytes: Seq<u8>)
    ensures
        compact(hex_column(bytes)) == hex_pairs(bytes),
        pairs_value(hex_pairs(bytes)) == Some(bytes),
        hex_pairs(bytes).len() == 2 * bytes.len(),
        forall|i: int| 0 <= i < hex_pairs(bytes).len() ==> char_width(#[trigger] hex_pairs(bytes)[i]) == 1,
    decreases bytes.len(),
{
    if bytes.len() == 0 {
        reveal_with_fuel(Seq::<_>::filter, 1);
        assert(compact(seq![]) =~= seq![]);
    } else {
        let init = bytes.drop_last();
        let b = bytes.last();
        lemma_hex_pairs(init);
        lemma_byte_pair(b);
        let d1 = digit_char((b / 16) as nat);
        let d2 = digit_char((b % 16) as nat);
        lemma_digit((b / 16) as nat);
        lemma_digit((b % 16) as nat);
        let pair = seq![d1, d2];
        // the column grows by the pair and a space; the space is dropped
        let col = hex_column(init);
        assert(hex_column(bytes) == col + pair + seq![' ']);
        assert(compact(col + pair + seq![' ']) == compact(col + pair) + compact(seq![' '])) by {
            Seq::filter_distributes_over_add(col + pair, seq![' '], |c: char| !is_ws(c));
        }
        assert(compact(col + pair) == compact(col) + compact(pair)) by {
            Seq::filter_distributes_over_add(col, pair, |c: char| !is_ws(c));
        }
        assert(compact(pair) =~= pair) by {
            reveal_with_fuel(Seq::<_>::filter, 3);
            assert(pair.drop_last() =~= seq![d1]);
            assert(seq![d1].drop_last() =~= Seq::<char>::empty());
        }
        assert(compact(seq![' ']) =~= Seq::<char>::empty()) by {
            reveal_with_fuel(Seq::<_>::filter, 2);
            assert(seq![' '].drop_last() =~= Seq::<char>::empty());
        }
        assert(compact(hex_column(bytes)) =~= hex_pairs(bytes));
        // reading the pairs back
        assert(pairs_value(pair) == Some(seq![b])) by {
            assert(pair.skip(2) =~= Seq::<char>::empty());
            assert(pairs_value(pair.skip(2)) == Some(Seq::<u8>::empty()));
            assert(pair[0] == d1 && pair[1] == d2);
            assert(pair_value(pair[0], pair[1]) == Some(b));
            assert(seq![b] + Seq::<u8>::empty() =~= seq![b]);
        }
        lemma_pairs_append(hex_pairs(init), pair);
        assert(init + seq![b] =~= bytes);
        assert forall|i: int| 0 <= i < hex_pairs(bytes).len() implies char_width(
            #[trigger] hex_pairs(bytes)[i],
        ) == 1 by {
            if i < hex_pairs(init).len() {
                assert(hex_pairs(bytes)[i] == hex_pairs(init)[i]);
            } else if i == hex_pairs(init).len() {
                assert(hex_pairs(bytes)[i] == d1);
            } else {
                assert(hex_pairs(bytes)[i] == d2);
            }
        }
    }
}

/// Typing a dump's hex column back in gives the dumped bytes: parsing
/// inverts the hex formatting of the memory viewer.
pub proof fn lemma_parse_inverts_dump(bytes: Seq<u8>)
    requires
        bytes.len() > 0,
    ensures
        hex_input_ok(hex_column(bytes)),
        parsed_hex(hex_column(bytes)) == Some(bytes),
{
    lemma_hex_pairs(bytes);
    lemma_ascii_len(hex_pairs(bytes));
    lemma_pairs_split_cleanly(hex_pairs(bytes));
}


/// `a` and `b` are the same character, or the same ASCII letter in two
/// cases.
pub open spec fn same_ignoring_case(a: char, b: char) -> bool {
    ||| a == b
    ||| 0x61 <= a as u32 <= 0x7a && b as u32 == a as u32 - 32
    ||| 0x41 <= a as u32 <= 0x5a && b as u32 == a as u32 + 32
}

/// `s` and `t` agree character by character up to the case of ASCII
/// letters.
pub open spec fn equal_ignoring_case(s: Seq<char>, t: Seq<char>) -> bool {
    &&& s.len() == t.len()
    &&& forall|i: int| 0 <= i < s.len() ==> same_ignoring_case(#[trigger] s[i], t[i])
}

proof fn lemma_case_char(a: char, b: char)
    requires
        same_ignoring_case(a, b),
    ensures
        char_width(a) == char_width(b),
        hex_digit(a) == hex_digit(b),
        a == '+' <==> b == '+',
{
}

proof fn lemma_case_tail(s: Seq<char>, t: Seq<char>, k: int)
    requires
        equal_ignoring_case(s, t),
        0 <= k <= s.len(),
    ensures
        equal_ignoring_case(s.skip(k), t.skip(k)),
{
    assert forall|i: int| 0 <= i < s.skip(k).len() implies same_ignoring_case(
        #[trigger] s.skip(k)[i],
        t.skip(k)[i],
    ) by {
        assert(s.skip(k)[i] == s[k + i]);
        assert(t.skip(k)[i] == t[k + i]);
    }
}

proof fn lemma_case_parse(s: Seq<char>, t: Seq<char>)
    requires
        equal_ignoring_case(s, t),
    ensures
        utf8_len(s) == utf8_len(t),
        pairs_value(s) == pairs_value(t),
        splits_cleanly(s) == splits_cleanly(t),
    decreases s.len(),
{
    if s.len() > 0 {
        lemma_case_char(s[0], t[0]);
        lemma_case_tail(s, t, 1);
        assert(s.skip(1) =~= s.drop_first());
        assert(t.skip(1) =~= t.drop_first());
        lemma_case_parse(s.drop_first(), t.drop_first());
        if s.len() >= 2 {
            lemma_case_char(s[1], t[1]);
            lemma_case_tail(s, t, 2);
            lemma_case_parse(s.skip(2), t.skip(2));
        }
    }
}

/// [`parse_hex_bytes`] ignores white space and the case of letters: two
/// inputs whose non-white-space characters agree up to letter case (such as
/// "de ad" and "DEAD") give the same result, [`parsed_hex`] of either, and
/// either both can be parsed without a panic or neither.
pub proof fn lemma_parse_hex_bytes_ignores_space_and_case(s: Seq<char>, t: Seq<char>)
    requires
        equal_ignoring_case(compact(s), compact(t)),
    ensures
        parsed_hex(s) == parsed_hex(t),
        hex_input_ok(s) == hex_input_ok(t),
{
    lemma_case_parse(compact(s), compact(t));
}

/// The character column of a dump row: the row ends with one character
/// per byte, in order, after two spaces; a printable ASCII byte (0x20, the
/// space, to 0x7E) is shown as the character with that code, and every
/// other byte as `.`.
pub proof fn lemma_dump_row_shows_printable_bytes(addr: nat, bytes: Seq<u8>)
    ensures
        ({
            let row = dump_row(addr, bytes);
            let start = row.len() - bytes.len();
            &&& start >= 2
            &&& row[start - 2] == ' ' && row[start - 1] == ' '
            &&& forall|i: int|
                0 <= i < bytes.len() ==> {
                    let c = #[trigger] row[start + i];
                    &&& 0x20 <= bytes[i] <= 0x7e ==> c as u32 == bytes[i] as u32
                    &&& !(0x20 <= bytes[i] <= 0x7e) ==> c == '.'
                }
        }),
{
    let head = hex8(addr) + seq![' ', ' '] + pad_right(hex_column(bytes), 48) + seq![' ', ' '];
    let row = dump_row(addr, bytes);
    assert(row == head + ascii_column(bytes));
    assert(row.len() - bytes.len() == head.len());
    assert forall|i: int| 0 <= i < bytes.len() implies {
        let c = #[trigger] row[head.len() + i];
        &&& 0x20 <= bytes[i] <= 0x7e ==> c as u32 == bytes[i] as u32
        &&& !(0x20 <= bytes[i] <= 0x7e) ==> c == '.'
    } by {
        assert(row[head.len() + i] == ascii_column(bytes)[i]);
        let b = bytes[i];
        if 0x20 <= b <= 0x7e {
            assert((b as char) as u32 == b as u32);
        }
    }
}

} // verus!
