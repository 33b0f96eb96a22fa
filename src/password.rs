//! Random passwords drawn from chosen character classes.
use vstd::prelude::*;

use rand::seq::SliceRandom;

use crate::opts::GenPassOpts;
use crate::utf8::{ascii_chars, lemma_ascii_bytes_decode, string_from_utf8};

verus! {

/// Capital letters, without `O`, which reads like zero.
pub open spec fn is_upper_byte(b: u8) -> bool {
    0x41 <= b <= 0x5A && b != 0x4F
}

/// Small letters, without `l`, which reads like one.
pub open spec fn is_lower_byte(b: u8) -> bool {
    0x61 <= b <= 0x7A && b != 0x6C
}

/// Digits one to nine.
pub open spec fn is_number_byte(b: u8) -> bool {
    0x31 <= b <= 0x39
}

/// The symbols `!@#$%^&*_`.
pub open spec fn is_symbol_byte(b: u8) -> bool {
    b == 0x21 || b == 0x40 || b == 0x23 || b == 0x24 || b == 0x25 || b == 0x5E || b == 0x26
        || b == 0x2A || b == 0x5F
}

/// A byte of one of the classes chosen.
pub open spec fn is_allowed_byte(b: u8, upper: bool, lower: bool, number: bool, symbol: bool) -> bool {
    ||| upper && is_upper_byte(b)
    ||| lower && is_lower_byte(b)
    ||| number && is_number_byte(b)
    ||| symbol && is_symbol_byte(b)
}

/// How many classes are chosen.
pub open spec fn class_count(upper: bool, lower: bool, number: bool, symbol: bool) -> nat {
    (if upper { 1nat } else { 0nat }) + (if lower { 1nat } else { 0nat }) + (if number { 1nat } else { 0nat }) + (
    if symbol { 1nat } else { 0nat })
}

/// Some character of `p` is the byte that `class` accepts.
pub open spec fn has_class(p: Seq<char>, class: spec_fn(u8) -> bool) -> bool {
    exists|i: int| 0 <= i < p.len() && class(#[trigger] p[i] as u8)
}

/// `p` is a password of `length` ASCII characters of the classes chosen,
/// with at least one of each.
pub open spec fn is_password_for(
    p: Seq<char>,
    length: u8,
    upper: bool,
    lower: bool,
    number: bool,
    symbol: bool,
) -> bool {
    &&& p.len() == length
    &&& forall|i: int|
        0 <= i < p.len() ==> is_allowed_byte(#[trigger] p[i] as u8, upper, lower, number, symbol)
            && p[i] == (p[i] as u8) as char
    &&& upper ==> has_class(p, |b: u8| is_upper_byte(b))
    &&& lower ==> has_class(p, |b: u8| is_lower_byte(b))
    &&& number ==> has_class(p, |b: u8| is_number_byte(b))
    &&& symbol ==> has_class(p, |b: u8| is_symbol_byte(b))
}

/// Relies on `zxcvbn::zxcvbn` with no user inputs, read out with
/// `u8::from(Entropy::score())`; its `Score` runs from 0 to 4. The score
/// also depends on the current year, which zxcvbn reads from the clock to
/// judge dates in the password, so nothing more is promised of it.
#[verifier::external_body]
fn password_score(p: &str) -> (r: u8)
    ensures
        r <= 4,
{
    u8::from(zxcvbn::zxcvbn(p, &[]).score())
}

impl GenPassOpts {
    /// A password as the options ask for, with the strength, from 0 to 4, that
    /// zxcvbn gives it.
    pub fn execute(&self) -> (r: Result<(String, u8), PasswordError>)
        ensures
            r is Ok <==> (class_count(self.upper_case, self.lower_case, self.number, self.symbol)
                <= self.length && (class_count(
                self.upper_case,
                self.lower_case,
                self.number,
                self.symbol,
            ) > 0 || self.length == 0)),
            r matches Err(e) ==> e == (if class_count(
                self.upper_case,
                self.lower_case,
                self.number,
                self.symbol,
            ) > self.length {
                PasswordError::TooShort
            } else {
                PasswordError::NoCharacterClass
            }),
            r matches Ok((p, score)) ==> {
                &&& is_password_for(
                    p@,
                    self.length,
                    self.upper_case,
                    self.lower_case,
                    self.number,
                    self.symbol,
                )
                &&& score <= 4
            },
    {
        let p = gen_pass(self.length, self.upper_case, self.lower_case, self.number, self.symbol)?;
        let score = password_score(p.as_str());
        Ok((p, score))
    }
}

/// Some byte of `s` is of `class`.
pub open spec fn has_class_byte(s: Seq<u8>, class: spec_fn(u8) -> bool) -> bool {
    exists|i: int| 0 <= i < s.len() && class(#[trigger] s[i])
}

/// Why no password could be made.
#[derive(Clone, Copy, PartialEq, Eq, Debug, Structural)]
pub enum PasswordError {
    /// Characters were asked for, but no class to draw them from.
    NoCharacterClass,
    /// The length leaves no room for one character of each chosen class.
    TooShort,
}

/// Relies on rand's `SliceRandom::choose` with the thread-local generator:
/// one element of the pool, or nothing when the pool is empty.
#[verifier::external_body]
fn choose_from(pool: &Vec<u8>) -> (r: Option<u8>)
    ensures
        r is Some <==> pool@.len() > 0,
        r matches Some(b) ==> pool@.contains(b),
{
    pool.choose(&mut rand::thread_rng()).copied()
}

/// Relies on rand's `SliceRandom::shuffle` with the thread-local generator:
/// the same bytes in some order.
#[verifier::external_body]
fn shuffle_bytes(v: &mut Vec<u8>)
    ensures
        final(v)@.to_multiset() == old(v)@.to_multiset(),
{
    v.shuffle(&mut rand::thread_rng());
}

/// The bytes from `lo` to `hi`, both included, but `skip`.
fn byte_range(lo: u8, hi: u8, skip: u8) -> (r: Vec<u8>)
    ensures
        forall|b: u8| r@.contains(b) <==> (lo <= b <= hi && b != skip),
{
    let mut r: Vec<u8> = Vec::new();
    let mut c: u16 = lo as u16;
    while c <= hi as u16
        invariant
            lo <= c <= 256,
            c <= hi + 1 || c == lo,
            forall|b: u8| r@.contains(b) <==> (lo <= b < c && b != skip),
        decreases 256 - c,
    {
        let ghost prev = r@;
        if c != skip as u16 {
            r.push(c as u8);
        }
        assert forall|b: u8| r@.contains(b) <==> (lo <= b < c + 1 && b != skip) by {
            if c != skip as u16 && b == c {
                assert(r@[prev.len() as int] == b);
            }
            if prev.contains(b) {
                let k = choose|k: int| 0 <= k < prev.len() && prev[k] == b;
                assert(r@[k] == b);
            }
            if r@.contains(b) && b != c {
                let k = choose|k: int| 0 <= k < r@.len() && r@[k] == b;
                assert(prev[k] == b);
            }
        }
        c = c + 1;
    }
    r
}

fn symbol_pool() -> (r: Vec<u8>)
    ensures
        forall|b: u8| r@.contains(b) <==> is_symbol_byte(b),
        r@.len() > 0,
{
    let r: Vec<u8> = vec![0x21u8, 0x40u8, 0x23u8, 0x24u8, 0x25u8, 0x5Eu8, 0x26u8, 0x2Au8, 0x5Fu8];
    assert forall|b: u8| r@.contains(b) <==> is_symbol_byte(b) by {
        if is_symbol_byte(b) {
            if b == 0x21 { assert(r@[0] == b); }
            if b == 0x40 { assert(r@[1] == b); }
            if b == 0x23 { assert(r@[2] == b); }
            if b == 0x24 { assert(r@[3] == b); }
            if b == 0x25 { assert(r@[4] == b); }
            if b == 0x5E { assert(r@[5] == b); }
            if b == 0x26 { assert(r@[6] == b); }
            if b == 0x2A { assert(r@[7] == b); }
            if b == 0x5F { assert(r@[8] == b); }
        }
    }
    r
}

/// Adds the class whose bytes `pool` holds: its bytes join `chars` and one of
/// them joins `pass`.
fn add_class(pass: &mut Vec<u8>, chars: &mut Vec<u8>, pool: Vec<u8>, Ghost(class): Ghost<
    spec_fn(u8) -> bool,
>)
    requires
        forall|b: u8| pool@.contains(b) <==> class(b),
        pool@.len() > 0,
    ensures
        final(pass)@.len() == old(pass)@.len() + 1,
        final(pass)@.subrange(0, old(pass)@.len() as int) == old(pass)@,
        class(final(pass)@[old(pass)@.len() as int]),
        forall|b: u8| final(chars)@.contains(b) <==> (old(chars)@.contains(b) || class(b)),
{
    let ghost before = chars@;
    let picked = choose_from(&pool);
    let ghost pool_view = pool@;
    let mut more = pool;
    chars.append(&mut more);
    assert(chars@ == before + pool_view);
    assert forall|b: u8| chars@.contains(b) <==> (before.contains(b) || class(b)) by {
        if chars@.contains(b) {
            let k = choose|k: int| 0 <= k < chars@.len() && chars@[k] == b;
            if k >= before.len() {
                assert(pool_view[k - before.len()] == b);
                assert(pool_view.contains(b));
            } else {
                assert(before[k] == b);
                assert(before.contains(b));
            }
        }
        if before.contains(b) {
            let k = choose|k: int| 0 <= k < before.len() && before[k] == b;
            assert(chars@[k] == b);
            assert(chars@.contains(b));
        }
        if class(b) {
            assert(pool_view.contains(b));
            let k = choose|k: int| 0 <= k < pool_view.len() && pool_view[k] == b;
            assert(chars@[before.len() + k] == b);
            assert(chars@.contains(b));
        }
    }
    match picked {
        Some(c) => {
            pass.push(c);
            assert(pass@.subrange(0, old(pass)@.len() as int) =~= old(pass)@);
        },
        None => {},
    }
}

fn count_classes(upper: bool, lower: bool, number: bool, symbol: bool) -> (r: u8)
    ensures
        r == class_count(upper, lower, number, symbol),
{
    let mut r: u8 = 0;
    if upper {
        r = r + 1;
    }
    if lower {
        r = r + 1;
    }
    if number {
        r = r + 1;
    }
    if symbol {
        r = r + 1;
    }
    r
}

/// Some byte at a place below `n` in `s` is of `class`.
spec fn has_class_below(s: Seq<u8>, n: int, class: spec_fn(u8) -> bool) -> bool {
    exists|i: int| 0 <= i < n && i < s.len() && class(#[trigger] s[i])
}

/// A password of `length` characters drawn at random from the classes
/// chosen, holding at least one character of each. It fails where no class is
/// chosen but characters are asked for, and where the length is below the
/// number of classes chosen.
pub fn gen_pass(length: u8, upper_case: bool, lower_case: bool, number: bool, symbol: bool) -> (r:
    Result<String, PasswordError>)
    ensures
        r == Err::<String, PasswordError>(PasswordError::NoCharacterClass) <==> (class_count(
            upper_case,
            lower_case,
            number,
            symbol,
        ) == 0 && length > 0),
        r == Err::<String, PasswordError>(PasswordError::TooShort) <==> class_count(
            upper_case,
            lower_case,
            number,
            symbol,
        ) > length,
        r is Ok <==> (class_count(upper_case, lower_case, number, symbol) <= length && (class_count(
            upper_case,
            lower_case,
            number,
            symbol,
        ) > 0 || length == 0)),
        r matches Ok(p) ==> is_password_for(p@, length, upper_case, lower_case, number, symbol),
{
    if count_classes(upper_case, lower_case, number, symbol) > length {
        return Err(PasswordError::TooShort);
    }
    if count_classes(upper_case, lower_case, number, symbol) == 0 && length > 0 {
        return Err(PasswordError::NoCharacterClass);
    }
    let ghost allowed = |b: u8| is_allowed_byte(b, upper_case, lower_case, number, symbol);
    let ghost up = |b: u8| is_upper_byte(b);
    let ghost low = |b: u8| is_lower_byte(b);
    let ghost num = |b: u8| is_number_byte(b);
    let ghost sym = |b: u8| is_symbol_byte(b);
    let mut pass: Vec<u8> = Vec::new();
    let mut chars: Vec<u8> = Vec::new();
    if upper_case {
        let pool = byte_range(0x41, 0x5A, 0x4F);
        assert(pool@.contains(0x41u8));
        add_class(&mut pass, &mut chars, pool, Ghost(up));
        assert(has_class_below(pass@, pass@.len() as int, up));
    }
    if lower_case {
        let ghost before = pass@;
        let pool = byte_range(0x61, 0x7A, 0x6C);
        assert(pool@.contains(0x61u8));
        add_class(&mut pass, &mut chars, pool, Ghost(low));
        proof { lemma_keeps_classes(before, pass@, up); }
        assert(has_class_below(pass@, pass@.len() as int, low));
    }
    if number {
        let ghost before = pass@;
        let pool = byte_range(0x31, 0x39, 0);
        assert(pool@.contains(0x31u8));
        add_class(&mut pass, &mut chars, pool, Ghost(num));
        proof { lemma_keeps_classes(before, pass@, up); }
        proof { lemma_keeps_classes(before, pass@, low); }
        assert(has_class_below(pass@, pass@.len() as int, num));
    }
    if symbol {
        let ghost before = pass@;
        add_class(&mut pass, &mut chars, symbol_pool(), Ghost(sym));
        proof { lemma_keeps_classes(before, pass@, up); }
        proof { lemma_keeps_classes(before, pass@, low); }
        proof { lemma_keeps_classes(before, pass@, num); }
        assert(has_class_below(pass@, pass@.len() as int, sym));
    }
    let ghost count = pass@.len();
    assert(count == class_count(upper_case, lower_case, number, symbol));
    assert(forall|i: int| 0 <= i < pass@.len() ==> allowed(#[trigger] pass@[i]));
    let ghost classes = pass@;
    while pass.len() < length as usize
        invariant
            count <= pass@.len() <= length,
            classes.len() == count <= length,
            count == class_count(upper_case, lower_case, number, symbol),
            pass@.subrange(0, count as int) == classes,
            forall|b: u8| chars@.contains(b) <==> allowed(b),
            forall|i: int| 0 <= i < pass@.len() ==> allowed(#[trigger] pass@[i]),
            count == 0 ==> length == 0,
        decreases length - pass@.len(),
    {
        assert(classes[0] == pass@[0]);
        assert(chars@.contains(classes[0]));
        match choose_from(&chars) {
            Some(c) => {
                pass.push(c);
                assert(pass@.subrange(0, count as int) =~= classes);
            },
            None => {},
        }
    }
    proof {
        if upper_case { lemma_keeps_classes(classes, pass@, up); }
        if lower_case { lemma_keeps_classes(classes, pass@, low); }
        if number { lemma_keeps_classes(classes, pass@, num); }
        if symbol { lemma_keeps_classes(classes, pass@, sym); }
    }
    let ghost filled = pass@;
    shuffle_bytes(&mut pass);
    proof {
        broadcast use vstd::seq_lib::group_to_multiset_ensures;

        filled.to_multiset_ensures();
        pass@.to_multiset_ensures();
        assert(pass@.len() == filled.len());
        assert forall|i: int| 0 <= i < pass@.len() implies allowed(#[trigger] pass@[i]) by {
            assert(pass@.to_multiset().count(pass@[i]) > 0);
            assert(filled.contains(pass@[i]));
        }
        assert forall|i: int| 0 <= i < pass@.len() implies pass@[i] < 128 by {
            assert(allowed(pass@[i]));
        }
        lemma_ascii_bytes_decode(pass@);
        lemma_shuffle_keeps_class(filled, pass@, up);
        lemma_shuffle_keeps_class(filled, pass@, low);
        lemma_shuffle_keeps_class(filled, pass@, num);
        lemma_shuffle_keeps_class(filled, pass@, sym);
    }
    let ghost bytes = pass@;
    match string_from_utf8(pass) {
        Some(p) => {
            proof {
                assert(p@ == ascii_chars(bytes));
                assert forall|i: int| 0 <= i < p@.len() implies #[trigger] p@[i] as u8 == bytes[i]
                    && p@[i] == (p@[i] as u8) as char by {
                    assert(p@[i] == bytes[i] as char);
                }
                lemma_class_in_text(bytes, p@, up);
                lemma_class_in_text(bytes, p@, low);
                lemma_class_in_text(bytes, p@, num);
                lemma_class_in_text(bytes, p@, sym);
            }
            Ok(p)
        },
        None => Err(PasswordError::NoCharacterClass),
    }
}

proof fn lemma_keeps_classes(before: Seq<u8>, after: Seq<u8>, class: spec_fn(u8) -> bool)
    requires
        before.len() <= after.len(),
        after.subrange(0, before.len() as int) == before,
    ensures
        has_class_below(before, before.len() as int, class) ==> has_class_below(
            after,
            after.len() as int,
            class,
        ),
{
    if has_class_below(before, before.len() as int, class) {
        let i = choose|i: int| 0 <= i < before.len() && i < before.len() && class(#[trigger] before[i]);
        assert(after[i] == after.subrange(0, before.len() as int)[i]);
    }
}

proof fn lemma_shuffle_keeps_class(before: Seq<u8>, after: Seq<u8>, class: spec_fn(u8) -> bool)
    requires
        after.to_multiset() == before.to_multiset(),
    ensures
        has_class_below(before, before.len() as int, class) ==> has_class_below(
            after,
            after.len() as int,
            class,
        ),
{
    broadcast use vstd::seq_lib::group_to_multiset_ensures;

    if has_class_below(before, before.len() as int, class) {
        let i = choose|i: int| 0 <= i < before.len() && i < before.len() && class(#[trigger] before[i]);
        assert(before.contains(before[i]));
        assert(before.to_multiset().count(before[i]) > 0);
        assert(after.to_multiset().count(before[i]) > 0);
        assert(after.contains(before[i]));
        let j = choose|j: int| 0 <= j < after.len() && after[j] == before[i];
        assert(class(after[j]));
    }
}

proof fn lemma_class_in_text(bytes: Seq<u8>, text: Seq<char>, class: spec_fn(u8) -> bool)
    requires
        text.len() == bytes.len(),
        forall|i: int| 0 <= i < text.len() ==> #[trigger] text[i] as u8 == bytes[i],
    ensures
        has_class_below(bytes, bytes.len() as int, class) ==> has_class(text, class),
{
    if has_class_below(bytes, bytes.len() as int, class) {
        let i = choose|i: int| 0 <= i < bytes.len() && i < bytes.len() && class(#[trigger] bytes[i]);
        assert(text[i] as u8 == bytes[i]);
    }
}

} // verus!
