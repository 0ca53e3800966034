//! The decoding scanner and its model.

use vstd::prelude::*;
use vstd::std_specs::iter::IteratorSpec;
use vstd::string::StringExecFns;
use crate::entities::{Entities, Entry, lookup_in, standard_entities, max_name_len};
use crate::number::{number_value, is_scalar, parse_digits};

verus! {

/// Why a decode failed, with positions as mathematical integers.
pub enum Failure {
    IllFormedEntity(int, int),
    UnknownEntity(int, int, Seq<char>),
    EndOfInput,
}

/// Why a decode failed. Lines and columns start at 1; the column is the one
/// after the last character read, every character of an entity counted.
#[derive(Clone, Debug)]
pub enum DecodeError {
    /// A malformed entity, at this line and column.
    IllFormedEntity(usize, usize),
    /// A well-formed named entity that the table lacks, at this line and
    /// column, with the name as written.
    UnknownEntity(usize, usize, String),
    /// The input ended before an entity's terminating `;`.
    EOF,
}

impl View for DecodeError {
    type V = Failure;

    open spec fn view(&self) -> Failure {
        match self {
            DecodeError::IllFormedEntity(l, c) => Failure::IllFormedEntity(*l as int, *c as int),
            DecodeError::UnknownEntity(l, c, s) => Failure::UnknownEntity(*l as int, *c as int, s@),
            DecodeError::EOF => Failure::EndOfInput,
        }
    }
}

/// The model of a decode result.
pub open spec fn result_view(r: Result<String, DecodeError>) -> Result<Seq<char>, Failure> {
    match r {
        Ok(s) => Ok(s@),
        Err(e) => Err(e@),
    }
}

/// Where the scan for a terminating `;` ends.
pub enum SemiScan {
    /// The first `;`, at this index.
    Found(int),
    /// The cap was reached before any `;`.
    TooLong,
    /// The input ended before any `;`.
    End,
}

/// Scans `s` from index `p` for a `;`, reading at most `cap` characters.
pub open spec fn scan_semi(s: Seq<char>, p: int, cap: nat) -> SemiScan
    decreases cap,
{
    if cap == 0 {
        SemiScan::TooLong
    } else if !(0 <= p < s.len()) {
        SemiScan::End
    } else if s[p] == ';' {
        SemiScan::Found(p)
    } else {
        scan_semi(s, p + 1, (cap - 1) as nat)
    }
}

/// The index after the last character that the scan from `p` reads: past
/// the `;` it finds, `cap` characters on where it meets none, or the end of
/// the input.
pub open spec fn scan_end(s: Seq<char>, p: int, cap: nat) -> int {
    match scan_semi(s, p, cap) {
        SemiScan::Found(j) => j + 1,
        SemiScan::TooLong => p + cap,
        SemiScan::End => s.len() as int,
    }
}

/// The most characters that a numeric entity may hold before its `;`, the
/// `;` included.
pub const MAX_NUMBER_LENGTH: usize = 16;

/// The scalar value of `c`.
pub open spec fn scalar_value(c: char) -> int {
    (c as u32) as int
}

/// The character whose scalar value is `v`.
pub open spec fn char_of(v: int) -> char {
    choose|c: char| #[trigger] scalar_value(c) == v
}

/// Each character is the one of its own scalar value.
pub proof fn lemma_char_of(c: char)
    ensures
        char_of(scalar_value(c)) == c,
{
    let d = char_of(scalar_value(c));
    assert(scalar_value(d) == scalar_value(c));
    assert(d as u32 == c as u32);
}

/// A number in base `radix` whose digits start at index `start`, on line
/// `line` with the column at `col`: the character, the index after the `;`,
/// and the column after it.
pub open spec fn radix_entity(s: Seq<char>, start: int, radix: nat, line: int, col: int) -> Result<(char, int, int), Failure> {
    match scan_semi(s, start, MAX_NUMBER_LENGTH as nat) {
        SemiScan::End => Err(Failure::EndOfInput),
        SemiScan::TooLong => Err(Failure::IllFormedEntity(line, col + MAX_NUMBER_LENGTH)),
        SemiScan::Found(j) => {
            let col2 = col + (j - start) + 1;
            match number_value(s.subrange(start, j), radix) {
                Some(v) => if is_scalar(v as int) {
                    Ok((char_of(v as int), j + 1, col2))
                } else {
                    Err(Failure::IllFormedEntity(line, col2))
                },
                None => Err(Failure::IllFormedEntity(line, col2)),
            }
        },
    }
}

/// `c` opens a hexadecimal number after `&#`.
pub open spec fn is_hex_mark(c: char) -> bool {
    c == 'x' || c == 'X'
}

/// A numeric entity whose `&#` ends just before index `p`, on line `line`
/// with the column at `col`: decimal, or hexadecimal after an `x` or `X`,
/// which is counted in the column.
pub open spec fn numeric_entity(s: Seq<char>, p: int, line: int, col: int) -> Result<(char, int, int), Failure> {
    if 0 <= p < s.len() && is_hex_mark(s[p]) {
        radix_entity(s, p + 1, 16, line, col + 1)
    } else {
        radix_entity(s, p, 10, line, col)
    }
}

/// The index after the last character that the reading of a numeric entity
/// whose `&#` ends just before index `p` reaches.
pub open spec fn numeric_end(s: Seq<char>, p: int) -> int {
    if 0 <= p < s.len() && is_hex_mark(s[p]) {
        scan_end(s, p + 1, MAX_NUMBER_LENGTH as nat)
    } else {
        scan_end(s, p, MAX_NUMBER_LENGTH as nat)
    }
}

/// A named entity whose `&` ends just before index `p`, read with at most
/// `max` characters after the `&`: the name with its `&` and `;`, the index
/// after the `;`, and the column after it.
pub open spec fn named_entity(max: nat, s: Seq<char>, p: int, line: int, col: int) -> Result<(Seq<char>, int, int), Failure> {
    match scan_semi(s, p, max) {
        SemiScan::End => Err(Failure::EndOfInput),
        SemiScan::TooLong => Err(Failure::IllFormedEntity(line, col + max)),
        SemiScan::Found(j) => Ok((seq!['&'] + s.subrange(p, j + 1), j + 1, col + (j - p) + 1)),
    }
}

/// `head` before the text of `r`.
pub open spec fn prepend(head: Seq<char>, r: Result<Seq<char>, Failure>) -> Result<Seq<char>, Failure> {
    match r {
        Ok(t) => Ok(head + t),
        Err(e) => Err(e),
    }
}

/// Decodes `s` from index `i` on, at line `line` and column `col`, with the
/// table `t` whose longest name has `max` characters. Each character read
/// moves the column on by one, the `&`, `#`, `x` and `;` of an entity
/// included; a newline moves to the next line and back to column 1. An
/// error is reported at the column after the last character read.
pub open spec fn decode_at(t: Seq<Entry>, max: nat, s: Seq<char>, i: int, line: int, col: int) -> Result<Seq<char>, Failure>
    decreases s.len() - i,
    via decode_at_decreases
{
    if !(0 <= i < s.len()) {
        Ok(Seq::empty())
    } else if s[i] != '&' {
        let line2 = if s[i] == '\n' { line + 1 } else { line };
        let col2 = if s[i] == '\n' { 1 } else { col + 1 };
        prepend(seq![s[i]], decode_at(t, max, s, i + 1, line2, col2))
    } else if i + 1 < s.len() && s[i + 1] == '#' {
        match numeric_entity(s, i + 2, line, col + 2) {
            Ok((c, j, col2)) => prepend(seq![c], decode_at(t, max, s, j, line, col2)),
            Err(e) => Err(e),
        }
    } else {
        match named_entity(max, s, i + 1, line, col + 1) {
            Ok((name, j, col2)) => match lookup_in(t, name) {
                Some(text) => prepend(text, decode_at(t, max, s, j, line, col2)),
                None => Err(Failure::UnknownEntity(line, col2, name)),
            },
            Err(e) => Err(e),
        }
    }
}

/// Text put before text already put before `r` lands in one piece.
pub proof fn lemma_prepend_twice(a: Seq<char>, b: Seq<char>, r: Result<Seq<char>, Failure>)
    ensures
        prepend(a, prepend(b, r)) == prepend(a + b, r),
{
    if r is Ok {
        assert(a + (b + r->Ok_0) =~= (a + b) + r->Ok_0);
    }
}

/// Decodes all of `s`, from line 1, column 1.
pub open spec fn decode(t: Seq<Entry>, max: nat, s: Seq<char>) -> Result<Seq<char>, Failure> {
    decode_at(t, max, s, 0, 1, 1)
}

/// A `;` that the scan finds lies at or after where it began, within `s`.
pub proof fn lemma_scan_found(s: Seq<char>, p: int, cap: nat)
    ensures
        scan_semi(s, p, cap) is Found ==> {
            let j = scan_semi(s, p, cap)->Found_0;
            &&& p <= j < s.len()
            &&& j < p + cap
            &&& s[j] == ';'
            &&& forall|k: int| p <= k < j ==> s[k] != ';'
        },
    decreases cap,
{
    if cap > 0 && 0 <= p < s.len() && s[p] != ';' {
        lemma_scan_found(s, p + 1, (cap - 1) as nat);
    }
}

#[via_fn]
proof fn decode_at_decreases(t: Seq<Entry>, max: nat, s: Seq<char>, i: int, line: int, col: int) {
    if 0 <= i < s.len() && s[i] == '&' {
        lemma_scan_found(s, i + 2, MAX_NUMBER_LENGTH as nat);
        lemma_scan_found(s, i + 3, MAX_NUMBER_LENGTH as nat);
        lemma_scan_found(s, i + 1, max);
    }
}

/// Scans for the `;` that ends a numeric entity, from `*pos` on, moving the
/// column along with each character read.
fn parse_number(chars: &Vec<char>, pos: &mut usize, line: usize, col: &mut usize) -> (r: Result<usize, DecodeError>)
    requires
        *old(pos) <= chars@.len() < usize::MAX,
        *old(col) <= *old(pos) + 1,
    ensures
        *final(pos) == scan_end(chars@, *old(pos) as int, MAX_NUMBER_LENGTH as nat),
        *final(col) == *old(col) + (*final(pos) - *old(pos)),
        match scan_semi(chars@, *old(pos) as int, MAX_NUMBER_LENGTH as nat) {
            SemiScan::Found(j) => r is Ok && r->Ok_0 == j && *final(pos) == j + 1
                && *final(col) == *old(col) + (j - *old(pos)) + 1,
            SemiScan::TooLong => r is Err && r->Err_0@ == Failure::IllFormedEntity(
                line as int,
                *old(col) + MAX_NUMBER_LENGTH,
            ),
            SemiScan::End => r is Err && r->Err_0@ == Failure::EndOfInput,
        },
{
    let ghost p0 = *pos as int;
    let ghost c0 = *col as int;
    let mut l: usize = 0;
    loop
        invariant
            l < MAX_NUMBER_LENGTH,
            p0 == *old(pos),
            c0 == *old(col),
            *pos == p0 + l,
            *pos <= chars@.len(),
            *col == c0 + l,
            p0 <= chars@.len() < usize::MAX,
            c0 <= p0 + 1,
            scan_semi(chars@, p0, MAX_NUMBER_LENGTH as nat) == scan_semi(
                chars@,
                *pos as int,
                (MAX_NUMBER_LENGTH - l) as nat,
            ),
        decreases MAX_NUMBER_LENGTH - l,
    {
        if *pos < chars.len() {
            let ghost here = *pos as int;
            let ghost cap = (MAX_NUMBER_LENGTH - l) as nat;
            let c = chars[*pos];
            assert(scan_semi(chars@, here, cap) == if c == ';' {
                SemiScan::Found(here)
            } else {
                scan_semi(chars@, here + 1, (cap - 1) as nat)
            });
            *pos = *pos + 1;
            *col = *col + 1;
            if c == ';' {
                return Ok(*pos - 1);
            }
            l = l + 1;
            if l >= MAX_NUMBER_LENGTH {
                assert(scan_semi(chars@, *pos as int, 0) == SemiScan::TooLong);
                return Err(DecodeError::IllFormedEntity(line, *col));
            }
        } else {
            assert(scan_semi(chars@, *pos as int, (MAX_NUMBER_LENGTH - l) as nat) == SemiScan::End);
            assert(scan_end(chars@, p0, MAX_NUMBER_LENGTH as nat) == chars@.len());
            return Err(DecodeError::EOF);
        }
    }
}

/// Relies on char::from_u32: a character exactly for a Unicode scalar value,
/// the one with that value.
#[verifier::external_body]
fn char_from_u32(v: u32) -> (r: Option<char>)
    ensures
        r is Some <==> is_scalar(v as int),
        r is Some ==> r->0 as u32 == v,
{
    char::from_u32(v)
}

/// Relies on String::push: appends `c`.
#[verifier::external_body]
fn push_char(s: &mut String, c: char)
    ensures
        final(s)@ == old(s)@.push(c),
{
    s.push(c)
}

/// Reads a number in base `radix` up to its `;`, as a character.
fn parse_entity_radix(chars: &Vec<char>, pos: &mut usize, line: usize, col: &mut usize, radix: u32) -> (r: Result<char, DecodeError>)
    requires
        *old(pos) <= chars@.len() < usize::MAX,
        *old(col) <= *old(pos) + 1,
        radix == 10 || radix == 16,
    ensures
        *final(pos) == scan_end(chars@, *old(pos) as int, MAX_NUMBER_LENGTH as nat),
        *final(col) == *old(col) + (*final(pos) - *old(pos)),
        match radix_entity(chars@, *old(pos) as int, radix as nat, line as int, *old(col) as int) {
            Ok((c, j, col2)) => r is Ok && r->Ok_0 == c && *final(pos) == j && *final(col) == col2,
            Err(e) => r is Err && r->Err_0@ == e,
        },
{
    let start = *pos;
    proof {
        lemma_scan_found(chars@, start as int, MAX_NUMBER_LENGTH as nat);
    }
    let end = match parse_number(chars, pos, line, col) {
        Ok(end) => end,
        Err(e) => return Err(e),
    };
    let ghost v = number_value(chars@.subrange(start as int, end as int), radix as nat);
    match parse_digits(chars, start, end, radix) {
        Some(x) => match char_from_u32(x) {
            Some(c) => {
                assert(x as int == v->0);
                assert(scalar_value(c) == v->0);
                proof {
                    lemma_char_of(c);
                }
                Ok(c)
            },
            None => Err(DecodeError::IllFormedEntity(line, *col)),
        },
        None => Err(DecodeError::IllFormedEntity(line, *col)),
    }
}

/// Reads a decimal number up to its `;`, as a character.
fn parse_entity_dec(chars: &Vec<char>, pos: &mut usize, line: usize, col: &mut usize) -> (r: Result<char, DecodeError>)
    requires
        *old(pos) <= chars@.len() < usize::MAX,
        *old(col) <= *old(pos) + 1,
    ensures
        *final(pos) == scan_end(chars@, *old(pos) as int, MAX_NUMBER_LENGTH as nat),
        *final(col) == *old(col) + (*final(pos) - *old(pos)),
        match radix_entity(chars@, *old(pos) as int, 10, line as int, *old(col) as int) {
            Ok((c, j, col2)) => r is Ok && r->Ok_0 == c && *final(pos) == j && *final(col) == col2,
            Err(e) => r is Err && r->Err_0@ == e,
        },
{
    parse_entity_radix(chars, pos, line, col, 10)
}

/// Reads a hexadecimal number up to its `;`, as a character.
fn parse_entity_hex(chars: &Vec<char>, pos: &mut usize, line: usize, col: &mut usize) -> (r: Result<char, DecodeError>)
    requires
        *old(pos) <= chars@.len() < usize::MAX,
        *old(col) <= *old(pos) + 1,
    ensures
        *final(pos) == scan_end(chars@, *old(pos) as int, MAX_NUMBER_LENGTH as nat),
        *final(col) == *old(col) + (*final(pos) - *old(pos)),
        match radix_entity(chars@, *old(pos) as int, 16, line as int, *old(col) as int) {
            Ok((c, j, col2)) => r is Ok && r->Ok_0 == c && *final(pos) == j && *final(col) == col2,
            Err(e) => r is Err && r->Err_0@ == e,
        },
{
    parse_entity_radix(chars, pos, line, col, 16)
}

/// Reads a numeric entity whose `&#` has been consumed.
fn parse_entity_numeric(chars: &Vec<char>, pos: &mut usize, line: usize, col: &mut usize) -> (r: Result<char, DecodeError>)
    requires
        *old(pos) <= chars@.len() < usize::MAX,
        *old(col) <= *old(pos) + 1,
    ensures
        *final(pos) == numeric_end(chars@, *old(pos) as int),
        *final(col) == *old(col) + (*final(pos) - *old(pos)),
        match numeric_entity(chars@, *old(pos) as int, line as int, *old(col) as int) {
            Ok((c, j, col2)) => r is Ok && r->Ok_0 == c && *final(pos) == j && *final(col) == col2,
            Err(e) => r is Err && r->Err_0@ == e,
        },
{
    if *pos < chars.len() && (chars[*pos] == 'x' || chars[*pos] == 'X') {
        *pos = *pos + 1;
        *col = *col + 1;
        parse_entity_hex(chars, pos, line, col)
    } else {
        parse_entity_dec(chars, pos, line, col)
    }
}

/// Reads a named entity whose `&` has been consumed, up to and including its
/// `;`, reading at most `max` characters.
fn parse_entity_name(chars: &Vec<char>, pos: &mut usize, line: usize, col: &mut usize, max: usize) -> (r: Result<String, DecodeError>)
    requires
        *old(pos) <= chars@.len() < usize::MAX,
        *old(col) <= *old(pos) + 1,
    ensures
        *final(pos) == scan_end(chars@, *old(pos) as int, max as nat),
        *final(col) == *old(col) + (*final(pos) - *old(pos)),
        match named_entity(max as nat, chars@, *old(pos) as int, line as int, *old(col) as int) {
            Ok((name, j, col2)) => r is Ok && r->Ok_0@ == name && *final(pos) == j && *final(col) == col2,
            Err(e) => r is Err && r->Err_0@ == e,
        },
{
    let ghost p0 = *pos as int;
    let ghost c0 = *col as int;
    let mut entity = String::new();
    push_char(&mut entity, '&');
    let mut l: usize = 0;
    while l < max
        invariant
            l <= max,
            p0 == *old(pos),
            c0 == *old(col),
            *pos == p0 + l,
            *pos <= chars@.len(),
            *col == c0 + l,
            p0 <= chars@.len() < usize::MAX,
            c0 <= p0 + 1,
            entity@ == seq!['&'] + chars@.subrange(p0, *pos as int),
            scan_semi(chars@, p0, max as nat) == scan_semi(chars@, *pos as int, (max - l) as nat),
        decreases max - l,
    {
        if *pos < chars.len() {
            let ghost here = *pos as int;
            let ghost cap = (max - l) as nat;
            let c = chars[*pos];
            assert(scan_semi(chars@, here, cap) == if c == ';' {
                SemiScan::Found(here)
            } else {
                scan_semi(chars@, here + 1, (cap - 1) as nat)
            });
            *pos = *pos + 1;
            push_char(&mut entity, c);
            assert(chars@.subrange(p0, here + 1) =~= chars@.subrange(p0, here).push(c));
            if c == ';' {
                *col = *col + 1;
                return Ok(entity);
            }
            l = l + 1;
            *col = *col + 1;
        } else {
            assert(scan_semi(chars@, *pos as int, (max - l) as nat) == SemiScan::End);
            assert(scan_end(chars@, p0, max as nat) == chars@.len());
            return Err(DecodeError::EOF);
        }
    }
    assert(scan_semi(chars@, *pos as int, 0) == SemiScan::TooLong);
    Err(DecodeError::IllFormedEntity(line, *col))
}


/// The characters of `html`, in order.
fn chars_of(html: &str) -> (r: Vec<char>)
    ensures
        r@ == html@,
{
    let mut it = html.chars();
    let mut v: Vec<char> = Vec::new();
    loop
        invariant
            it.obeys_prophetic_iter_laws(),
            v@ + it.remaining() == html@,
        decreases html@.len() - v@.len(),
    {
        match it.next() {
            Some(c) => {
                v.push(c);
            },
            None => {
                assert(v@ =~= html@);
                return v;
            },
        }
    }
}

/// Decodes the numeric entity whose `&` stands at `*i`, appending its
/// character to `decoded`.
fn decode_numeric_step(chars: &Vec<char>, i: &mut usize, line: usize, col: &mut usize, decoded: &mut String, Ghost(t): Ghost<Seq<Entry>>, Ghost(m): Ghost<nat>) -> (r: Result<(), DecodeError>)
    requires
        chars@.len() < usize::MAX,
        *old(i) + 1 < chars@.len(),
        chars@[*old(i) as int] == '&',
        chars@[*old(i) + 1] == '#',
        1 <= *old(col) <= *old(i) + 1,
    ensures
        r is Ok ==> *old(i) < *final(i) <= chars@.len(),
        r is Ok ==> 1 <= *final(col) <= *final(i) + 1,
        r is Ok ==> prepend(old(decoded)@, decode_at(t, m, chars@, *old(i) as int, line as int, *old(col) as int))
            == prepend(final(decoded)@, decode_at(t, m, chars@, *final(i) as int, line as int, *final(col) as int)),
        r is Err ==> decode_at(t, m, chars@, *old(i) as int, line as int, *old(col) as int) == Err::<Seq<char>, Failure>(r->Err_0@),
{
    let ghost s = chars@;
    let ghost i0 = *i as int;
    let ghost d0 = decoded@;
    *i = *i + 2;
    *col = *col + 2;
    proof {
        lemma_scan_found(s, i0 + 2, MAX_NUMBER_LENGTH as nat);
        lemma_scan_found(s, i0 + 3, MAX_NUMBER_LENGTH as nat);
    }
    match parse_entity_numeric(chars, i, line, col) {
        Ok(ch) => {
            push_char(decoded, ch);
            assert(decoded@ =~= d0 + seq![ch]);
            proof {
                lemma_prepend_twice(d0, seq![ch], decode_at(t, m, s, *i as int, line as int, *col as int));
            }
            Ok(())
        },
        Err(e) => Err(e),
    }
}

/// Decodes the named entity whose `&` stands at `*i`, appending its
/// replacement to `decoded`.
fn decode_named_step(entities: &Entities, chars: &Vec<char>, i: &mut usize, line: usize, col: &mut usize, decoded: &mut String) -> (r: Result<(), DecodeError>)
    requires
        chars@.len() < usize::MAX,
        *old(i) < chars@.len(),
        chars@[*old(i) as int] == '&',
        !(*old(i) + 1 < chars@.len() && chars@[*old(i) + 1] == '#'),
        1 <= *old(col) <= *old(i) + 1,
    ensures
        match r {
            Ok(()) => {
                &&& *old(i) < *final(i) <= chars@.len()
                &&& 1 <= *final(col) <= *final(i) + 1
                &&& prepend(old(decoded)@, decode_at(entities@, entities.max_len(), chars@, *old(i) as int, line as int, *old(col) as int))
                    == prepend(final(decoded)@, decode_at(entities@, entities.max_len(), chars@, *final(i) as int, line as int, *final(col) as int))
            },
            Err(e) => decode_at(entities@, entities.max_len(), chars@, *old(i) as int, line as int, *old(col) as int)
                == Err::<Seq<char>, Failure>(e@),
        },
{
    let ghost s = chars@;
    let ghost t = entities@;
    let ghost i0 = *i as int;
    let ghost d0 = decoded@;
    let max = entities.max_name_length();
    let ghost m = max as nat;
    *i = *i + 1;
    *col = *col + 1;
    proof {
        lemma_scan_found(s, i0 + 1, m);
    }
    match parse_entity_name(chars, i, line, col, max) {
        Ok(name) => match entities.lookup(&name) {
            Some(text) => {
                decoded.append(text.as_str());
                proof {
                    lemma_prepend_twice(d0, text@, decode_at(t, m, s, *i as int, line as int, *col as int));
                }
                Ok(())
            },
            None => Err(DecodeError::UnknownEntity(line, *col, name)),
        },
        Err(e) => Err(e),
    }
}

/// Decodes every character reference of `html` with the table `entities`:
/// the text with each entity replaced, or the first error met.
pub fn decode_with(entities: &Entities, html: &str) -> (r: Result<String, DecodeError>)
    requires
        html@.len() < usize::MAX,
    ensures
        result_view(r) == decode(entities@, entities.max_len(), html@),
{
    let chars = chars_of(html);
    let ghost t = entities@;
    let ghost m = entities.max_len();
    let ghost s = chars@;
    let mut decoded = String::new();
    let mut line: usize = 1;
    let mut col: usize = 1;
    let mut i: usize = 0;
    while i < chars.len()
        invariant
            s == chars@,
            s == html@,
            t == entities@,
            m == entities.max_len(),
            chars@.len() < usize::MAX,
            i <= chars@.len(),
            1 <= col <= i + 1,
            line <= i + 1,
            decode(t, m, s) == prepend(decoded@, decode_at(t, m, s, i as int, line as int, col as int)),
        decreases chars@.len() - i,
    {
        let c = chars[i];
        if c == '&' {
            let step = if i + 1 < chars.len() && chars[i + 1] == '#' {
                decode_numeric_step(&chars, &mut i, line, &mut col, &mut decoded, Ghost(t), Ghost(m))
            } else {
                decode_named_step(entities, &chars, &mut i, line, &mut col, &mut decoded)
            };
            match step {
                Ok(()) => {},
                Err(e) => {
                    return Err(e);
                },
            }
        } else {
            let ghost d0 = decoded@;
            i = i + 1;
            col = col + 1;
            if c == '\n' {
                line = line + 1;
                col = 1;
            }
            push_char(&mut decoded, c);
            assert(decoded@ =~= d0 + seq![c]);
            proof {
                lemma_prepend_twice(d0, seq![c], decode_at(t, m, s, i as int, line as int, col as int));
            }
        }
    }
    assert(decoded@ + Seq::<char>::empty() =~= decoded@);
    Ok(decoded)
}

/// Decodes every character reference of `html` with the built-in table: the
/// text with each entity replaced, or the first error met.
pub fn decode_html_entities(html: &str) -> (r: Result<String, DecodeError>)
    requires
        html@.len() < usize::MAX,
    ensures
        result_view(r) == decode(standard_entities(), max_name_len(standard_entities()), html@),
{
    let entities = Entities::new();
    decode_with(&entities, html)
}

} // verus!
