//! Properties of decoding that hold for every input.

use vstd::prelude::*;
use crate::entities::{Entities, Entry, lookup_from, lookup_in, is_entity_name, lemma_max_name_len};
use crate::number::{number_value, is_scalar, digit_of};
use crate::decode::{
    Failure, SemiScan, scan_semi, decode, decode_at, prepend, numeric_entity, radix_entity,
    named_entity, is_hex_mark, char_of, lemma_scan_found, MAX_NUMBER_LENGTH,
};

verus! {

/// A scan that meets its first `;` at `j`, within the cap, finds it there.
pub proof fn lemma_scan_reaches(s: Seq<char>, p: int, cap: nat, j: int)
    requires
        0 <= p <= j < s.len(),
        j - p < cap,
        s[j] == ';',
        forall|q: int| p <= q < j ==> s[q] != ';',
    ensures
        scan_semi(s, p, cap) == SemiScan::Found(j),
    decreases j - p,
{
    if p < j {
        lemma_scan_reaches(s, p + 1, (cap - 1) as nat, j);
    }
}

/// A scan over characters none of which is `;` stops at the cap, or else at
/// the end of the input.
pub proof fn lemma_scan_no_semi(s: Seq<char>, p: int, cap: nat)
    requires
        0 <= p <= s.len(),
        forall|q: int| p <= q < s.len() && q < p + cap ==> s[q] != ';',
    ensures
        s.len() - p >= cap ==> scan_semi(s, p, cap) == SemiScan::TooLong,
        s.len() - p < cap ==> scan_semi(s, p, cap) == SemiScan::End,
    decreases cap,
{
    if cap > 0 && p < s.len() {
        lemma_scan_no_semi(s, p + 1, (cap - 1) as nat);
    }
}

/// Text without `&` decodes to itself, from any index and position.
pub proof fn lemma_plain_from(t: Seq<Entry>, max: nat, s: Seq<char>, i: int, line: int, col: int)
    requires
        0 <= i <= s.len(),
        forall|k: int| 0 <= k < s.len() ==> s[k] != '&',
    ensures
        decode_at(t, max, s, i, line, col) == Ok::<Seq<char>, Failure>(s.subrange(i, s.len() as int)),
    decreases s.len() - i,
{
    if i < s.len() {
        let line2 = if s[i] == '\n' { line + 1 } else { line };
        let col2 = if s[i] == '\n' { 1 } else { col + 1 };
        lemma_plain_from(t, max, s, i + 1, line2, col2);
        assert(seq![s[i]] + s.subrange(i + 1, s.len() as int) =~= s.subrange(i, s.len() as int));
    } else {
        assert(s.subrange(i, s.len() as int) =~= Seq::<char>::empty());
    }
}

/// Text that holds no `&` decodes to itself.
pub proof fn lemma_plain_text_unchanged(t: Seq<Entry>, max: nat, s: Seq<char>)
    requires
        forall|k: int| 0 <= k < s.len() ==> s[k] != '&',
    ensures
        decode(t, max, s) == Ok::<Seq<char>, Failure>(s),
{
    lemma_plain_from(t, max, s, 0, 1, 1);
    assert(s.subrange(0, s.len() as int) =~= s);
}

/// Decoding text that holds no `&` a second time changes nothing: such text
/// is a fixed point of decoding.
pub proof fn lemma_decode_twice_plain(t: Seq<Entry>, max: nat, s: Seq<char>)
    requires
        forall|k: int| 0 <= k < s.len() ==> s[k] != '&',
    ensures
        decode(t, max, s) is Ok,
        decode(t, max, decode(t, max, s)->Ok_0) == decode(t, max, s),
{
    lemma_plain_text_unchanged(t, max, s);
}

/// A name present at index `k` of the table is found by a lookup.
pub proof fn lemma_lookup_present(t: Seq<Entry>, name: Seq<char>, q: int, k: int)
    requires
        0 <= q <= k < t.len(),
        t[k].0 == name,
    ensures
        lookup_from(t, name, q) is Some,
    decreases k - q,
{
    if t[q].0 != name {
        lemma_lookup_present(t, name, q + 1, k);
    }
}

/// Each name of a well-formed table, when it holds no `;` but its last
/// character and does not begin with `&#`, decodes to what the table gives
/// for it.
pub proof fn lemma_named_entity_decodes(e: Entities, k: int)
    requires
        e.wf(),
        0 <= k < e@.len(),
        e@[k].0.len() < 2 || e@[k].0[1] != '#',
        forall|q: int| 0 <= q < e@[k].0.len() - 1 ==> e@[k].0[q] != ';',
    ensures
        e.lookup_spec(e@[k].0) is Some,
        decode(e@, e.max_len(), e@[k].0) == Ok::<Seq<char>, Failure>(e.lookup_spec(e@[k].0)->0),
{
    let t = e@;
    let s = t[k].0;
    let m = e.max_len();
    assert(is_entity_name(s));
    lemma_max_name_len(t);
    lemma_lookup_present(t, s, 0, k);
    let j = s.len() - 1;
    lemma_scan_reaches(s, 1, m, j);
    assert(seq!['&'] + s.subrange(1, j + 1) =~= s);
    let text = lookup_in(t, s)->0;
    assert(named_entity(m, s, 1, 1, 2) == Ok::<(Seq<char>, int, int), Failure>((s, j + 1, j + 2)));
    assert(decode_at(t, m, s, j + 1, 1, j + 2) == Ok::<Seq<char>, Failure>(Seq::empty()));
    assert(text + Seq::<char>::empty() =~= text);
}

/// The text `&#` (with an `x` where `hex`), the characters `d`, and `;`.
pub open spec fn numeric_text(d: Seq<char>, hex: bool) -> Seq<char> {
    if hex {
        seq!['&', '#', 'x'] + d + seq![';']
    } else {
        seq!['&', '#'] + d + seq![';']
    }
}

/// The base of the number in `numeric_text(d, hex)`.
pub open spec fn radix_of(hex: bool) -> nat {
    if hex {
        16
    } else {
        10
    }
}

/// A number holds no `;`, and a decimal one no `x` or `X`.
pub proof fn lemma_number_chars(d: Seq<char>, radix: nat)
    requires
        number_value(d, radix) is Some,
        radix == 10 || radix == 16,
    ensures
        forall|q: int| 0 <= q < d.len() ==> d[q] != ';',
        radix == 10 ==> forall|q: int| 0 <= q < d.len() ==> !is_hex_mark(#[trigger] d[q]),
{
    let body = if d.len() > 0 && d[0] == '+' { d.drop_first() } else { d };
    assert forall|q: int| 0 <= q < d.len() implies d[q] != ';' && (radix == 10 ==> !is_hex_mark(d[q])) by {
        if !(d[0] == '+' && q == 0) {
            let b = if d[0] == '+' { q - 1 } else { q };
            assert(body[b] == d[q]);
            assert(digit_of(body[b], radix) is Some);
        }
    }
}

/// A numeric entity alone in the input decodes to the character of its
/// number where that is a Unicode scalar value, and is ill-formed otherwise.
pub proof fn lemma_numeric_text_decodes(t: Seq<Entry>, max: nat, d: Seq<char>, hex: bool)
    requires
        d.len() < MAX_NUMBER_LENGTH,
        forall|q: int| 0 <= q < d.len() ==> d[q] != ';',
        !hex ==> (d.len() == 0 || !is_hex_mark(d[0])),
    ensures
        decode(t, max, numeric_text(d, hex)) == match number_value(d, radix_of(hex)) {
            Some(v) => if is_scalar(v as int) {
                Ok(seq![char_of(v as int)])
            } else {
                Err(Failure::IllFormedEntity(1, (numeric_text(d, hex).len() + 1) as int))
            },
            None => Err(Failure::IllFormedEntity(1, (numeric_text(d, hex).len() + 1) as int)),
        },
{
    let s = numeric_text(d, hex);
    let start: int = if hex { 3 } else { 2 };
    let j = start + d.len();
    assert forall|q: int| 0 <= q < d.len() implies s[start + q] == d[q] by {}
    assert forall|q: int| start <= q < j implies s[q] != ';' by {
        assert(s[q] == d[q - start]);
    }
    lemma_scan_reaches(s, start, MAX_NUMBER_LENGTH as nat, j);
    assert(s.subrange(start, j) =~= d);
    assert(decode_at(t, max, s, j + 1, 1, (s.len() + 1) as int) == Ok::<Seq<char>, Failure>(Seq::empty()));
    if hex {
        assert(is_hex_mark(s[2]));
    } else if d.len() > 0 {
        assert(s[2] == d[0]);
    }
    assert(numeric_entity(s, 2, 1, 3) == radix_entity(s, start, radix_of(hex), 1, start + 1));
    if number_value(d, radix_of(hex)) is Some {
        let v = number_value(d, radix_of(hex))->0;
        assert(seq![char_of(v as int)] + Seq::<char>::empty() =~= seq![char_of(v as int)]);
    }
}

/// The decimal and the hexadecimal form of one number decode alike: to its
/// character where it is a Unicode scalar value; both are ill-formed on the
/// first line otherwise.
pub proof fn lemma_decimal_hex_agree(t: Seq<Entry>, max: nat, d: Seq<char>, h: Seq<char>, v: nat)
    requires
        number_value(d, 10) == Some(v),
        number_value(h, 16) == Some(v),
        d.len() < MAX_NUMBER_LENGTH,
        h.len() < MAX_NUMBER_LENGTH,
    ensures
        is_scalar(v as int) ==> decode(t, max, numeric_text(d, false)) == Ok::<Seq<char>, Failure>(seq![char_of(v as int)]),
        is_scalar(v as int) ==> decode(t, max, numeric_text(h, true)) == decode(t, max, numeric_text(d, false)),
        !is_scalar(v as int) ==> decode(t, max, numeric_text(d, false)) is Err
            && decode(t, max, numeric_text(d, false))->Err_0 is IllFormedEntity
            && decode(t, max, numeric_text(d, false))->Err_0->IllFormedEntity_0 == 1,
        !is_scalar(v as int) ==> decode(t, max, numeric_text(h, true)) is Err
            && decode(t, max, numeric_text(h, true))->Err_0 is IllFormedEntity
            && decode(t, max, numeric_text(h, true))->Err_0->IllFormedEntity_0 == 1,
{
    lemma_number_chars(d, 10);
    lemma_number_chars(h, 16);
    lemma_numeric_text_decodes(t, max, d, false);
    lemma_numeric_text_decodes(t, max, h, true);
}

/// A number that is no Unicode scalar value (a surrogate, or past the last
/// code point) makes its entity ill-formed, at the column after its `;`:
/// every character of the entity is counted.
pub proof fn lemma_non_scalar_rejected(t: Seq<Entry>, max: nat, d: Seq<char>, hex: bool, v: nat)
    requires
        number_value(d, radix_of(hex)) == Some(v),
        !is_scalar(v as int),
        d.len() < MAX_NUMBER_LENGTH,
    ensures
        decode(t, max, numeric_text(d, hex)) == Err::<Seq<char>, Failure>(Failure::IllFormedEntity(1, (numeric_text(d, hex).len() + 1) as int)),
{
    lemma_number_chars(d, radix_of(hex));
    lemma_numeric_text_decodes(t, max, d, hex);
}

/// Where a numeric entity holds no `;` among the sixteen characters after
/// `&#` (or `&#x`), it is ill-formed, at the column after the sixteenth of
/// them, counting the `&`, `#` and `x` too.
pub proof fn lemma_long_number_rejected(t: Seq<Entry>, max: nat, s: Seq<char>)
    requires
        s.len() >= 2,
        s[0] == '&',
        s[1] == '#',
        ({
            let start: int = if s.len() > 2 && is_hex_mark(s[2]) { 3 } else { 2 };
            &&& s.len() >= start + MAX_NUMBER_LENGTH
            &&& forall|q: int| start <= q < start + MAX_NUMBER_LENGTH ==> s[q] != ';'
        }),
    ensures
        decode(t, max, s) == Err::<Seq<char>, Failure>(Failure::IllFormedEntity(
            1,
            (if s.len() > 2 && is_hex_mark(s[2]) { 4int } else { 3int }) + MAX_NUMBER_LENGTH,
        )),
{
    let start: int = if s.len() > 2 && is_hex_mark(s[2]) { 3 } else { 2 };
    lemma_scan_no_semi(s, start, MAX_NUMBER_LENGTH as nat);
}

/// A named entity with no `;` among the `max` characters after its `&` is
/// ill-formed, at the column after the `&` and those `max` characters; one
/// whose input ends sooner, with no `;`, meets the end of the input.
pub proof fn lemma_name_cap(t: Seq<Entry>, max: nat, s: Seq<char>)
    requires
        s.len() >= 1,
        s[0] == '&',
        !(s.len() >= 2 && s[1] == '#'),
        forall|q: int| 1 <= q < s.len() && q <= max ==> s[q] != ';',
    ensures
        s.len() > max ==> decode(t, max, s) == Err::<Seq<char>, Failure>(Failure::IllFormedEntity(1, 2 + max as int)),
        s.len() <= max ==> decode(t, max, s) == Err::<Seq<char>, Failure>(Failure::EndOfInput),
{
    lemma_scan_no_semi(s, 1, max);
}

/// `r` with the line of a positioned error moved on by `d`.
pub open spec fn shift_lines(r: Result<Seq<char>, Failure>, d: int) -> Result<Seq<char>, Failure> {
    match r {
        Err(Failure::IllFormedEntity(l, c)) => Err(Failure::IllFormedEntity(l + d, c)),
        Err(Failure::UnknownEntity(l, c, n)) => Err(Failure::UnknownEntity(l + d, c, n)),
        _ => r,
    }
}

/// Starting `d` lines further down moves the line of any positioned error by
/// `d`, and changes nothing else.
pub proof fn lemma_line_shift(t: Seq<Entry>, max: nat, s: Seq<char>, i: int, line: int, col: int, d: int)
    ensures
        decode_at(t, max, s, i, line + d, col) == shift_lines(decode_at(t, max, s, i, line, col), d),
    decreases s.len() - i,
{
    if 0 <= i < s.len() {
        if s[i] != '&' {
            let line2 = if s[i] == '\n' { line + 1 } else { line };
            let col2 = if s[i] == '\n' { 1 } else { col + 1 };
            lemma_line_shift(t, max, s, i + 1, line2, col2, d);
            assert(line2 + d == if s[i] == '\n' { line + d + 1 } else { line + d });
        } else if i + 1 < s.len() && s[i + 1] == '#' {
            lemma_scan_found(s, i + 2, MAX_NUMBER_LENGTH as nat);
            lemma_scan_found(s, i + 3, MAX_NUMBER_LENGTH as nat);
            match numeric_entity(s, i + 2, line, col + 2) {
                Ok((c, j, col2)) => {
                    lemma_line_shift(t, max, s, j, line, col2, d);
                },
                Err(e) => {},
            }
        } else {
            lemma_scan_found(s, i + 1, max);
            match named_entity(max, s, i + 1, line, col + 1) {
                Ok((name, j, col2)) => {
                    lemma_line_shift(t, max, s, j, line, col2, d);
                },
                Err(e) => {},
            }
        }
    }
}

/// After a newline, decoding goes on as it would from the start of the
/// input, at column 1, one line further down: each error after it is
/// reported on the next line or below, with its column counted from that
/// line's start.
pub proof fn lemma_newline_position(t: Seq<Entry>, max: nat, s: Seq<char>, i: int, line: int, col: int)
    requires
        0 <= i < s.len(),
        s[i] == '\n',
    ensures
        decode_at(t, max, s, i, line, col) == prepend(seq!['\n'], shift_lines(decode_at(t, max, s, i + 1, 1, 1), line)),
{
    lemma_line_shift(t, max, s, i + 1, 1, 1, line);
    assert(1 + line == line + 1);
}

} // verus!
