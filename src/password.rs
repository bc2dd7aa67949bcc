use vstd::prelude::*;

use rand::seq::SliceRandom;

use crate::error::TextError;

verus! {

broadcast use vstd::seq_lib::group_to_multiset_ensures;

/// The four character classes of a password.
#[derive(Debug, Clone, Copy, PartialEq, Eq, Structural)]
pub enum CharClass {
    Upper,
    Lower,
    Number,
    Symbol,
}

/// Membership of a byte in a class. Glyphs that are easy to confuse are left
/// out: `I`, `O`, `l` and `0`.
pub open spec fn in_class(c: CharClass, b: u8) -> bool {
    match c {
        CharClass::Upper => 65 <= b <= 90 && b != 73 && b != 79,
        CharClass::Lower => 97 <= b <= 122 && b != 108,
        CharClass::Number => 49 <= b <= 57,
        CharClass::Symbol => b == 64 || b == 35 || b == 36 || b == 37 || b == 94 || b == 38 || b
            == 42 || b == 95 || b == 43 || b == 61 || b == 46,
    }
}

/// Whether class `c` is excluded by the four flags.
pub open spec fn excluded(
    c: CharClass,
    no_upper: bool,
    no_lower: bool,
    no_number: bool,
    no_symbol: bool,
) -> bool {
    match c {
        CharClass::Upper => no_upper,
        CharClass::Lower => no_lower,
        CharClass::Number => no_number,
        CharClass::Symbol => no_symbol,
    }
}

/// Whether `b` lies in a class that the flags leave in.
pub open spec fn allowed(b: u8, no_upper: bool, no_lower: bool, no_number: bool, no_symbol: bool) -> bool {
    (!no_upper && in_class(CharClass::Upper, b)) || (!no_lower && in_class(CharClass::Lower, b)) || (
    !no_number && in_class(CharClass::Number, b)) || (!no_symbol && in_class(CharClass::Symbol, b))
}

/// Whether some byte of `s` lies in class `c`.
pub open spec fn has_class(s: Seq<u8>, c: CharClass) -> bool {
    exists|i: int| 0 <= i < s.len() && in_class(c, #[trigger] s[i])
}

/// What a password of `length` bytes under the four flags is: every byte in
/// an included class, and every included class present.
pub open spec fn password_ok(
    p: Seq<u8>,
    length: u8,
    no_upper: bool,
    no_lower: bool,
    no_number: bool,
    no_symbol: bool,
) -> bool {
    &&& p.len() == length
    &&& forall|i: int|
        0 <= i < p.len() ==> allowed(#[trigger] p[i], no_upper, no_lower, no_number, no_symbol)
    &&& forall|c: CharClass|
        !excluded(c, no_upper, no_lower, no_number, no_symbol) ==> #[trigger] has_class(p, c)
}

/// When the generator refuses: too short to hold one byte of each class, or
/// nothing left to draw from.
pub open spec fn password_refused(
    length: u8,
    no_upper: bool,
    no_lower: bool,
    no_number: bool,
    no_symbol: bool,
) -> bool {
    length < 4 || (no_upper && no_lower && no_number && no_symbol)
}

/// The characters of a byte string, one per byte.
pub open spec fn chars_of(p: Seq<u8>) -> Seq<char> {
    p.map_values(|b: u8| b as char)
}

/// Relies on `rand::seq::SliceRandom::choose`: `None` on an empty slice, else
/// one of its items.
#[verifier::external_body]
fn pick_byte(pool: &[u8]) -> (r: Option<u8>)
    ensures
        pool@.len() == 0 <==> r is None,
        r matches Some(b) ==> pool@.contains(b),
{
    pool.choose(&mut rand::thread_rng()).copied()
}

/// Relies on `rand::seq::SliceRandom::shuffle`: it only reorders the items.
#[verifier::external_body]
fn shuffle_bytes(v: &mut Vec<u8>)
    ensures
        final(v)@.to_multiset() == old(v)@.to_multiset(),
{
    v.shuffle(&mut rand::thread_rng());
}

/// Relies on `String::from_utf8_lossy`: ASCII bytes are valid UTF-8, each
/// byte one character.
#[verifier::external_body]
fn ascii_string(bytes: &[u8]) -> (r: String)
    requires
        forall|i: int| 0 <= i < bytes@.len() ==> bytes@[i] < 128,
    ensures
        r@ == chars_of(bytes@),
{
    String::from_utf8_lossy(bytes).into_owned()
}

/// Whether `b` lies in class `c`.
pub fn is_in_class(c: CharClass, b: u8) -> (r: bool)
    ensures
        r == in_class(c, b),
{
    match c {
        CharClass::Upper => 65 <= b && b <= 90 && b != 73 && b != 79,
        CharClass::Lower => 97 <= b && b <= 122 && b != 108,
        CharClass::Number => 49 <= b && b <= 57,
        CharClass::Symbol => b == 64 || b == 35 || b == 36 || b == 37 || b == 94 || b == 38 || b
            == 42 || b == 95 || b == 43 || b == 61 || b == 46,
    }
}

/// Every byte of class `c`, in ascending order.
pub fn class_pool(c: CharClass) -> (r: Vec<u8>)
    ensures
        r@.len() > 0,
        forall|i: int| 0 <= i < r@.len() ==> in_class(c, #[trigger] r@[i]),
        forall|b: u8| in_class(c, b) ==> r@.contains(b),
{
    let (lo, hi): (u8, u8) = match c {
        CharClass::Upper => (65, 90),
        CharClass::Lower => (97, 122),
        CharClass::Number => (49, 57),
        CharClass::Symbol => (35, 95),
    };
    let mut r: Vec<u8> = Vec::new();
    let mut b: u8 = lo;
    while b <= hi
        invariant
            lo <= b <= hi + 1,
            hi <= 122,
            in_class(c, lo),
            forall|x: u8| in_class(c, x) ==> lo <= x <= hi,
            b > lo ==> r@.len() > 0,
            forall|i: int| 0 <= i < r@.len() ==> in_class(c, #[trigger] r@[i]),
            forall|x: u8| lo <= x < b && in_class(c, x) ==> r@.contains(x),
        decreases hi + 1 - b,
    {
        if is_in_class(c, b) {
            let ghost before = r@;
            r.push(b);
            assert(r@[r@.len() - 1] == b);
            assert forall|x: u8| lo <= x < b && in_class(c, x) implies r@.contains(x) by {
                let j = choose|j: int| 0 <= j < before.len() && before[j] == x;
                assert(r@[j] == x);
            }
        }
        b = b + 1;
    }
    r
}

proof fn lemma_class_allowed(
    c: CharClass,
    b: u8,
    no_upper: bool,
    no_lower: bool,
    no_number: bool,
    no_symbol: bool,
)
    requires
        in_class(c, b),
        !excluded(c, no_upper, no_lower, no_number, no_symbol),
    ensures
        allowed(b, no_upper, no_lower, no_number, no_symbol),
{
}

proof fn lemma_push_keeps_class(s: Seq<u8>, b: u8, c: CharClass)
    requires
        has_class(s, c),
    ensures
        has_class(s.push(b), c),
{
    let i = choose|i: int| 0 <= i < s.len() && in_class(c, #[trigger] s[i]);
    assert(s.push(b)[i] == s[i]);
}

proof fn lemma_reorder_keeps_class(s: Seq<u8>, t: Seq<u8>, c: CharClass)
    requires
        has_class(s, c),
        s.to_multiset() == t.to_multiset(),
    ensures
        has_class(t, c),
{
    let i = choose|i: int| 0 <= i < s.len() && in_class(c, #[trigger] s[i]);
    assert(s.to_multiset().count(s[i]) > 0);
    assert(t.to_multiset().count(s[i]) > 0);
    assert(t.contains(s[i]));
    let j = choose|j: int| 0 <= j < t.len() && t[j] == s[i];
    assert(in_class(c, t[j]));
}

proof fn lemma_reorder_keeps_all(
    s: Seq<u8>,
    t: Seq<u8>,
    no_upper: bool,
    no_lower: bool,
    no_number: bool,
    no_symbol: bool,
)
    requires
        forall|i: int|
            0 <= i < s.len() ==> allowed(#[trigger] s[i], no_upper, no_lower, no_number, no_symbol),
        s.to_multiset() == t.to_multiset(),
    ensures
        forall|j: int|
            0 <= j < t.len() ==> allowed(#[trigger] t[j], no_upper, no_lower, no_number, no_symbol),
{
    assert forall|j: int| 0 <= j < t.len() implies allowed(
        #[trigger] t[j],
        no_upper,
        no_lower,
        no_number,
        no_symbol,
    ) by {
        assert(t.contains(t[j]));
        assert(t.to_multiset().count(t[j]) > 0);
        assert(s.to_multiset().count(t[j]) > 0);
        assert(s.contains(t[j]));
    }
}

/// A password of `length` bytes drawn from the classes that the flags leave
/// in: one byte of each included class first, the rest drawn from all of them
/// together, then the whole shuffled.
pub fn generate_password(
    length: u8,
    no_upper: bool,
    no_lower: bool,
    no_number: bool,
    no_symbol: bool,
) -> (r: Result<Vec<u8>, TextError>)
    ensures
        password_refused(length, no_upper, no_lower, no_number, no_symbol) <==> r is Err,
        r is Err ==> r == Err::<Vec<u8>, TextError>(TextError::InvalidPasswordLength),
        r matches Ok(p) ==> password_ok(p@, length, no_upper, no_lower, no_number, no_symbol),
{
    if length < 4 || (no_upper && no_lower && no_number && no_symbol) {
        return Err(TextError::InvalidPasswordLength);
    }
    let mut pool: Vec<u8> = Vec::new();
    let mut pass: Vec<u8> = Vec::new();
    let classes: [CharClass; 4] = [CharClass::Upper, CharClass::Lower, CharClass::Number, CharClass::Symbol];
    let flags: [bool; 4] = [no_upper, no_lower, no_number, no_symbol];
    let mut k: usize = 0;
    while k < 4
        invariant
            0 <= k <= 4,
            classes@ == seq![CharClass::Upper, CharClass::Lower, CharClass::Number, CharClass::Symbol],
            flags@ == seq![no_upper, no_lower, no_number, no_symbol],
            pass@.len() <= k,
            forall|j: int| 0 <= j < 4 ==> excluded(#[trigger] classes@[j], no_upper, no_lower, no_number, no_symbol) == flags@[j],
            forall|i: int| 0 <= i < pool@.len() ==> allowed(#[trigger] pool@[i], no_upper, no_lower, no_number, no_symbol),
            forall|i: int| 0 <= i < pass@.len() ==> allowed(#[trigger] pass@[i], no_upper, no_lower, no_number, no_symbol),
            forall|j: int|
                0 <= j < k && !flags@[j] ==> #[trigger] has_class(pass@, classes@[j]),
            pool@.len() == 0 ==> forall|j: int| 0 <= j < k ==> flags@[j],
        decreases 4 - k,
    {
        let c = classes[k];
        if !flags[k] {
            assert(!excluded(c, no_upper, no_lower, no_number, no_symbol));
            let members = class_pool(c);
            match pick_byte(members.as_slice()) {
                Some(b) => {
                    proof {
                        let t = choose|t: int| 0 <= t < members@.len() && members@[t] == b;
                        assert(in_class(c, members@[t]));
                        lemma_class_allowed(c, b, no_upper, no_lower, no_number, no_symbol);
                        assert forall|j: int| 0 <= j < k && !flags@[j] implies #[trigger] has_class(
                            pass@.push(b),
                            classes@[j],
                        ) by {
                            lemma_push_keeps_class(pass@, b, classes@[j]);
                        }
                    }
                    pass.push(b);
                    assert(pass@[pass@.len() - 1] == b);
                    assert(has_class(pass@, c));
                },
                None => {},
            }
            let ghost before = pool@;
            let mut t: usize = 0;
            while t < members.len()
                invariant
                    0 <= t <= members@.len(),
                    pool@.len() == before.len() + t,
                    pool@.len() > 0 || t == 0,
                    forall|i: int| 0 <= i < before.len() ==> pool@[i] == before[i],
                    forall|i: int| 0 <= i < before.len() ==> allowed(#[trigger] before[i], no_upper, no_lower, no_number, no_symbol),
                    forall|i: int| 0 <= i < members@.len() ==> in_class(c, #[trigger] members@[i]),
                    forall|i: int| 0 <= i < pool@.len() ==> allowed(#[trigger] pool@[i], no_upper, no_lower, no_number, no_symbol),
                    !excluded(c, no_upper, no_lower, no_number, no_symbol),
                decreases members@.len() - t,
            {
                proof {
                    lemma_class_allowed(c, members@[t as int], no_upper, no_lower, no_number, no_symbol);
                }
                pool.push(members[t]);
                t = t + 1;
            }
        }
        k = k + 1;
    }
    assert(pool@.len() > 0);
    while pass.len() < length as usize
        invariant
            pool@.len() > 0,
            pass@.len() <= length,
            forall|i: int| 0 <= i < pool@.len() ==> allowed(#[trigger] pool@[i], no_upper, no_lower, no_number, no_symbol),
            forall|i: int| 0 <= i < pass@.len() ==> allowed(#[trigger] pass@[i], no_upper, no_lower, no_number, no_symbol),
            forall|j: int| 0 <= j < 4 && !flags@[j] ==> #[trigger] has_class(pass@, classes@[j]),
        decreases length - pass@.len(),
    {
        match pick_byte(pool.as_slice()) {
            Some(b) => {
                proof {
                    assert forall|j: int| 0 <= j < 4 && !flags@[j] implies #[trigger] has_class(
                        pass@.push(b),
                        classes@[j],
                    ) by {
                        lemma_push_keeps_class(pass@, b, classes@[j]);
                    }
                }
                pass.push(b);
            },
            None => {},
        }
    }
    let ghost seeded = pass@;
    shuffle_bytes(&mut pass);
    proof {
        lemma_reorder_keeps_all(seeded, pass@, no_upper, no_lower, no_number, no_symbol);
        assert forall|j: int| 0 <= j < 4 && !flags@[j] implies #[trigger] has_class(
            pass@,
            classes@[j],
        ) by {
            lemma_reorder_keeps_class(seeded, pass@, classes@[j]);
        }
        assert forall|c: CharClass|
            !excluded(c, no_upper, no_lower, no_number, no_symbol) implies #[trigger] has_class(
            pass@,
            c,
        ) by {
            match c {
                CharClass::Upper => assert(classes@[0] == c),
                CharClass::Lower => assert(classes@[1] == c),
                CharClass::Number => assert(classes@[2] == c),
                CharClass::Symbol => assert(classes@[3] == c),
            }
        }
        assert(seeded.len() == length);
        assert(pass@.to_multiset().len() == seeded.to_multiset().len());
        assert(pass@.len() == length);
    }
    Ok(pass)
}

/// A password as text: the bytes of [`generate_password`], which are all
/// ASCII, one character each.
pub fn process_genpass(
    length: u8,
    no_upper: bool,
    no_lower: bool,
    no_number: bool,
    no_symbol: bool,
) -> (r: Result<String, TextError>)
    ensures
        password_refused(length, no_upper, no_lower, no_number, no_symbol) <==> r is Err,
        r is Err ==> r == Err::<String, TextError>(TextError::InvalidPasswordLength),
        r matches Ok(s) ==> exists|p: Seq<u8>|
            password_ok(p, length, no_upper, no_lower, no_number, no_symbol) && s@ == chars_of(p),
{
    match generate_password(length, no_upper, no_lower, no_number, no_symbol) {
        Ok(p) => {
            assert forall|i: int| 0 <= i < p@.len() implies p@[i] < 128 by {
                assert(allowed(p@[i], no_upper, no_lower, no_number, no_symbol));
            }
            Ok(ascii_string(p.as_slice()))
        },
        Err(e) => Err(e),
    }
}

/// A token secret of `len` characters, every class included.
pub fn process_generate(len: u8) -> (r: Result<String, TextError>)
    ensures
        len < 4 <==> r is Err,
        r is Err ==> r == Err::<String, TextError>(TextError::InvalidPasswordLength),
        r matches Ok(s) ==> exists|p: Seq<u8>| password_ok(p, len, false, false, false, false) && s@ == chars_of(p),
{
    process_genpass(len, false, false, false, false)
}

} // verus!
