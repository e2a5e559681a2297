//! Random password generation from chosen character classes.
use vstd::prelude::*;
use vstd::utf8::{encode_utf8, valid_utf8, is_ascii_chars};
use rand::seq::SliceRandom;
use rand::rngs::ThreadRng;

verus! {

broadcast use vstd::seq_lib::group_to_multiset_ensures;

/// Which character classes a generated password draws from, and its length.
#[derive(Debug, Clone, Copy)]
pub struct PasswordOptions {
    pub length: usize,
    pub lowercase: bool,
    pub uppercase: bool,
    pub digits: bool,
    pub symbols: bool,
}

impl Default for PasswordOptions {
    /// Twenty characters from every class.
    fn default() -> (o: Self)
        ensures
            o.length == 20,
            o.lowercase && o.uppercase && o.digits && o.symbols,
    {
        Self { length: 20, lowercase: true, uppercase: true, digits: true, symbols: true }
    }
}

/// `a` to `z`.
pub open spec fn lower_class() -> Seq<u8> {
    Seq::new(26, |i: int| (97 + i) as u8)
}

/// `A` to `Z`.
pub open spec fn upper_class() -> Seq<u8> {
    Seq::new(26, |i: int| (65 + i) as u8)
}

/// `0` to `9`.
pub open spec fn digit_class() -> Seq<u8> {
    Seq::new(10, |i: int| (48 + i) as u8)
}

/// The symbols `!@#$%^&*()-_=+[]{}<>?`.
pub open spec fn symbol_class() -> Seq<u8> {
    seq![33u8, 64, 35, 36, 37, 94, 38, 42, 40, 41, 45, 95, 61, 43, 91, 93, 123, 125, 60, 62, 63]
}

/// The classes a password is drawn from: the enabled ones in the order
/// lowercase, uppercase, digits, symbols, or lowercase alone when none is.
pub open spec fn enabled_classes(opts: PasswordOptions) -> Seq<Seq<u8>> {
    let chosen = (if opts.lowercase {
        seq![lower_class()]
    } else {
        Seq::empty()
    }) + (if opts.uppercase {
        seq![upper_class()]
    } else {
        Seq::empty()
    }) + (if opts.digits {
        seq![digit_class()]
    } else {
        Seq::empty()
    }) + (if opts.symbols {
        seq![symbol_class()]
    } else {
        Seq::empty()
    });
    if chosen.len() == 0 {
        seq![lower_class()]
    } else {
        chosen
    }
}

/// The length of a generated password: as requested, but at least one
/// character per class.
pub open spec fn generated_length(opts: PasswordOptions) -> nat {
    if opts.length >= enabled_classes(opts).len() {
        opts.length as nat
    } else {
        enabled_classes(opts).len()
    }
}

/// Some class holds the byte.
pub open spec fn in_some_class(classes: Seq<Seq<u8>>, b: u8) -> bool {
    exists|k: int| 0 <= k < classes.len() && #[trigger] classes[k].contains(b)
}

fn byte_range(first: u8, count: u8) -> (v: Vec<u8>)
    requires
        first + count <= 255,
    ensures
        v@ == Seq::new(count as nat, |i: int| (first + i) as u8),
{
    let mut v: Vec<u8> = Vec::new();
    let mut i: u8 = 0;
    while i < count
        invariant
            i <= count,
            first + count <= 255,
            v@ == Seq::new(i as nat, |j: int| (first + j) as u8),
        decreases count - i,
    {
        v.push(first + i);
        i += 1;
        assert(v@ =~= Seq::new(i as nat, |j: int| (first + j) as u8));
    }
    v
}

fn symbol_bytes() -> (v: Vec<u8>)
    ensures
        v@ == symbol_class(),
{
    let v: Vec<u8> = vec![33u8, 64, 35, 36, 37, 94, 38, 42, 40, 41, 45, 95, 61, 43, 91, 93, 123, 125, 60, 62, 63];
    assert(v@ =~= symbol_class());
    v
}

#[verifier::external_type_specification]
#[verifier::external_body]
pub struct ExThreadRng(ThreadRng);

#[verifier::external_type_specification]
#[verifier::external_body]
pub struct ExFromUtf8Error(std::string::FromUtf8Error);

/// `rand::thread_rng`: the thread-local random generator.
#[verifier::external_body]
fn thread_rng() -> ThreadRng {
    rand::thread_rng()
}

/// `SliceRandom::choose` on a byte slice: documented to return one random
/// element, or `None` exactly when the slice is empty. Which element comes
/// out is random, so only membership is claimed.
#[verifier::external_body]
fn choose_byte(pool: &[u8], rng: &mut ThreadRng) -> (r: Option<u8>)
    ensures
        r is None <==> pool@.len() == 0,
        r matches Some(b) ==> pool@.contains(b),
{
    pool.choose(rng).copied()
}

/// `SliceRandom::shuffle`: the source only swaps elements, so the result is a
/// permutation of the input; which one is random.
#[verifier::external_body]
fn shuffle_bytes(v: &mut Vec<u8>, rng: &mut ThreadRng)
    ensures
        final(v)@.len() == old(v)@.len(),
        final(v)@.to_multiset() == old(v)@.to_multiset(),
{
    v.shuffle(rng)
}

/// `String::from_utf8`: documented to succeed exactly on valid UTF-8, keeping
/// the bytes as the string's encoding.
#[verifier::external_body]
fn string_from_utf8(bytes: Vec<u8>) -> (r: Result<String, std::string::FromUtf8Error>)
    ensures
        r is Ok <==> valid_utf8(bytes@),
        r matches Ok(s) ==> encode_utf8(s@) == bytes@,
{
    String::from_utf8(bytes)
}

/// Some character of the text belongs to the class.
pub open spec fn class_used(class: Seq<u8>, text: Seq<char>) -> bool {
    exists|i: int| 0 <= i < text.len() && #[trigger] class.contains(text[i] as u8)
}

/// Some byte belongs to the class.
pub open spec fn byte_class_used(class: Seq<u8>, bytes: Seq<u8>) -> bool {
    exists|i: int| 0 <= i < bytes.len() && #[trigger] class.contains(bytes[i])
}

/// Every class has a character in the text.
pub open spec fn covers_classes(classes: Seq<Seq<u8>>, text: Seq<char>) -> bool {
    forall|k: int| 0 <= k < classes.len() ==> #[trigger] class_used(classes[k], text)
}

/// Coverage carries over from bytes to the characters they stand for.
proof fn lemma_cover_text(classes: Seq<Seq<u8>>, bytes: Seq<u8>, text: Seq<char>)
    requires
        text.len() == bytes.len(),
        forall|i: int| 0 <= i < text.len() ==> #[trigger] (text[i] as u8) == bytes[i],
        forall|k: int| 0 <= k < classes.len() ==> #[trigger] byte_class_used(classes[k], bytes),
    ensures
        covers_classes(classes, text),
{
    assert forall|k: int| 0 <= k < classes.len() implies #[trigger] class_used(classes[k], text) by {
        assert(byte_class_used(classes[k], bytes));
        let i = choose|i: int| 0 <= i < bytes.len() && #[trigger] classes[k].contains(bytes[i]);
        assert(classes[k].contains(text[i] as u8));
    }
}

/// ASCII bytes read as characters.
pub open spec fn ascii_text(bytes: Seq<u8>) -> Seq<char> {
    Seq::new(bytes.len(), |i: int| bytes[i] as char)
}

fn ascii_string(bytes: Vec<u8>) -> (s: String)
    requires
        forall|i: int| 0 <= i < bytes@.len() ==> bytes@[i] < 128,
    ensures
        s@ == ascii_text(bytes@),
{
    let ghost expected = ascii_text(bytes@);
    proof {
        assert(is_ascii_chars(expected));
        vstd::utf8::is_ascii_chars_encode_utf8(expected);
        assert(encode_utf8(expected) =~= bytes@);
        vstd::utf8::encode_utf8_valid_utf8(expected);
    }
    let ghost b = bytes@;
    match string_from_utf8(bytes) {
        Ok(s) => {
            proof {
                vstd::utf8::encode_utf8_decode_utf8(s@);
                vstd::utf8::encode_utf8_decode_utf8(expected);
            }
            s
        },
        Err(_) => {
            assert(false);
            String::new()
        },
    }
}

/// A random password of `generated_length(opts)` characters from the enabled
/// classes, with at least one character of every enabled class.
pub fn generate_password(opts: PasswordOptions) -> (r: String)
    ensures
        r@.len() == generated_length(opts),
        forall|i: int|
            0 <= i < r@.len() ==> ((#[trigger] r@[i]) as u32) < 128 && in_some_class(
                enabled_classes(opts),
                r@[i] as u8,
            ),
        covers_classes(enabled_classes(opts), r@),
{
    let mut pools: Vec<Vec<u8>> = Vec::new();
    if opts.lowercase {
        pools.push(byte_range(97, 26));
    }
    if opts.uppercase {
        pools.push(byte_range(65, 26));
    }
    if opts.digits {
        pools.push(byte_range(48, 10));
    }
    if opts.symbols {
        pools.push(symbol_bytes());
    }
    if pools.len() == 0 {
        pools.push(byte_range(97, 26));
    }
    let ghost classes = enabled_classes(opts);
    assert(pools@.map_values(|p: Vec<u8>| p@) =~= classes);

    let mut rng = thread_rng();
    let length = if opts.length > pools.len() {
        opts.length
    } else {
        pools.len()
    };

    // One character per enabled class, then the rest from all classes.
    let mut chars: Vec<u8> = Vec::new();
    let mut k: usize = 0;
    while k < pools.len()
        invariant
            k <= pools@.len() == classes.len(),
            forall|j: int| 0 <= j < pools@.len() ==> #[trigger] pools@[j]@ == classes[j],
            forall|j: int| 0 <= j < classes.len() ==> #[trigger] classes[j].len() > 0,
            chars@.len() == k,
            forall|j: int| 0 <= j < k ==> #[trigger] classes[j].contains(chars@[j]),
        decreases pools@.len() - k,
    {
        let b = match choose_byte(pools[k].as_slice(), &mut rng) {
            Some(b) => b,
            None => {
                assert(false);
                0u8
            },
        };
        chars.push(b);
        k += 1;
    }
    let mut all: Vec<u8> = Vec::new();
    let mut k: usize = 0;
    while k < pools.len()
        invariant
            k <= pools@.len() == classes.len(),
            forall|j: int| 0 <= j < pools@.len() ==> #[trigger] pools@[j]@ == classes[j],
            forall|x: int| 0 <= x < all@.len() ==> in_some_class(classes, #[trigger] all@[x]),
            k > 0 ==> all@.len() > 0,
            forall|j: int| 0 <= j < classes.len() ==> #[trigger] classes[j].len() > 0,
        decreases pools@.len() - k,
    {
        let pool = &pools[k];
        let mut j: usize = 0;
        while j < pool.len()
            invariant
                j <= pool@.len(),
                pool@ == classes[k as int],
                0 <= k < classes.len(),
                pool@.len() > 0,
                forall|x: int| 0 <= x < all@.len() ==> in_some_class(classes, #[trigger] all@[x]),
                j > 0 ==> all@.len() > 0,
                k > 0 ==> all@.len() > 0,
            decreases pool@.len() - j,
        {
            assert(classes[k as int].contains(pool@[j as int]));
            all.push(pool[j]);
            j += 1;
        }
        k += 1;
    }
    assert forall|x: int| 0 <= x < chars@.len() implies in_some_class(classes, #[trigger] chars@[x]) by {
        assert(classes[x].contains(chars@[x]));
    }
    while chars.len() < length
        invariant
            classes.len() > 0,
            all@.len() > 0,
            length == generated_length(opts),
            classes.len() <= chars@.len() <= length,
            forall|x: int| 0 <= x < all@.len() ==> in_some_class(classes, #[trigger] all@[x]),
            forall|j: int| 0 <= j < classes.len() ==> #[trigger] classes[j].contains(chars@[j]),
            forall|x: int| 0 <= x < chars@.len() ==> in_some_class(classes, #[trigger] chars@[x]),
        decreases length - chars@.len(),
    {
        let b = match choose_byte(all.as_slice(), &mut rng) {
            Some(b) => b,
            None => {
                assert(false);
                0u8
            },
        };
        proof {
            let x = choose|x: int| 0 <= x < all@.len() && all@[x] == b;
        }
        chars.push(b);
    }
    let ghost before = chars@;
    shuffle_bytes(&mut chars, &mut rng);
    proof {
        assert forall|x: int| 0 <= x < chars@.len() implies in_some_class(classes, #[trigger] chars@[x]) && chars@[x] < 128 by {
            assert(chars@.contains(chars@[x]));
            assert(before.to_multiset().count(chars@[x]) > 0);
            let y = choose|y: int| 0 <= y < before.len() && before[y] == chars@[x];
            let kk = choose|kk: int| 0 <= kk < classes.len() && #[trigger] classes[kk].contains(before[y]);
            assert(classes[kk] == lower_class() || classes[kk] == upper_class() || classes[kk] == digit_class() || classes[kk] == symbol_class());
        }
        assert forall|j: int| 0 <= j < classes.len() implies #[trigger] byte_class_used(classes[j], chars@) by {
            assert(before.contains(before[j]));
            assert(chars@.to_multiset().count(before[j]) > 0);
            let i = choose|i: int| 0 <= i < chars@.len() && chars@[i] == before[j];
            assert(classes[j].contains(chars@[i]));
        }
    }
    let ghost fc = chars@;
    let s = ascii_string(chars);
    proof {
        assert forall|i: int| 0 <= i < s@.len() implies #[trigger] (s@[i] as u8) == fc[i] by {}
        lemma_cover_text(classes, fc, s@);
    }
    s
}

} // verus!
