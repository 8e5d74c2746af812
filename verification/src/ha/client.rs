//! Decisions of the Home Assistant client: the entity registry, how an incoming message is
//! routed to an entity, and how number states are written out.

use vstd::prelude::*;

use crate::parse::{
    all_digits, digits_value, is_digit, is_ws, leading_ws, parse_i32, spec_parse_i32, str_chars,
    str_from_utf8, trailing_ws, trim, trim_bounds,
};
use crate::text::str_eq;

verus! {

/// Errors of Home Assistant operations; `E` is the transport's own error.
#[derive(Clone, Copy, Debug, PartialEq, Eq)]
pub enum HaError<E> {
    /// MQTT communication error
    Mqtt(E),
    /// JSON serialization error
    Serialization,
    /// JSON deserialization error
    Deserialization,
    /// Buffer too small
    BufferTooSmall,
    /// Maximum entities reached
    MaxEntitiesReached,
    /// Entity not found
    EntityNotFound,
}

/// A registry of at most `MAX` entities, kept in the order they were added.
pub struct Registry<T, const MAX: usize> {
    items: Vec<T>,
}

impl<T, const MAX: usize> View for Registry<T, MAX> {
    type V = Seq<T>;

    closed spec fn view(&self) -> Seq<T> {
        self.items@
    }
}

impl<T, const MAX: usize> Registry<T, MAX> {
    /// An empty registry.
    pub fn new() -> (r: Self)
        ensures
            r@ == Seq::<T>::empty(),
    {
        Registry { items: Vec::new() }
    }

    /// The registered entities.
    pub fn items(&self) -> (s: &Vec<T>)
        ensures
            s@ == self@,
    {
        &self.items
    }

    /// Number of registered entities.
    pub fn len(&self) -> (n: usize)
        ensures
            n == self@.len(),
    {
        self.items.len()
    }

    /// Register an entity; a full registry refuses it with `MaxEntitiesReached`.
    pub fn add<E>(&mut self, item: T) -> (r: Result<(), HaError<E>>)
        ensures
            old(self)@.len() < MAX ==> r is Ok && final(self)@ == old(self)@.push(item),
            old(self)@.len() >= MAX ==> r == Err::<(), HaError<E>>(HaError::MaxEntitiesReached)
                && final(self)@ == old(self)@,
    {
        if self.items.len() < MAX {
            self.items.push(item);
            Ok(())
        } else {
            Err(HaError::MaxEntitiesReached)
        }
    }
}

/// Where an incoming message goes.
#[derive(Clone, Copy, Debug, PartialEq, Eq, Structural)]
pub enum Dispatch {
    /// The command of light `index`
    Light(usize),
    /// The value of number `index`
    Number(usize, i32),
    /// Nothing handles the message
    Unhandled,
}

/// Index of the first topic equal to `topic`, if any.
pub open spec fn first_match(topics: Seq<Seq<char>>, topic: Seq<char>) -> Option<int>
    decreases topics.len(),
{
    if topics.len() == 0 {
        None
    } else {
        match first_match(topics.drop_last(), topic) {
            Some(i) => Some(i),
            None => if topics.last() == topic {
                Some(topics.len() - 1)
            } else {
                None
            },
        }
    }
}

/// The number value carried by a payload: UTF-8 text holding a decimal `i32` between
/// optional white space.
pub open spec fn spec_number_payload(payload: Seq<u8>) -> Option<int> {
    if vstd::utf8::valid_utf8(payload) {
        spec_parse_i32(trim(vstd::utf8::decode_utf8(payload)))
    } else {
        None
    }
}

/// The routing of a message to the entities: lights first, by their command topics, when
/// the payload is a light command; then numbers, by their command topics, when the payload
/// is a number.
pub open spec fn spec_dispatch(
    topic: Seq<char>,
    payload: Seq<u8>,
    light_topics: Seq<Seq<char>>,
    number_topics: Seq<Seq<char>>,
    payload_is_light_command: bool,
) -> Dispatch {
    match first_match(light_topics, topic) {
        Some(i) if payload_is_light_command => Dispatch::Light(i as usize),
        _ => match first_match(number_topics, topic) {
            Some(i) => match spec_number_payload(payload) {
                Some(v) => Dispatch::Number(i as usize, v as i32),
                None => Dispatch::Unhandled,
            },
            None => Dispatch::Unhandled,
        },
    }
}

/// Index of the first of `topics` equal to `topic`.
fn find_topic(topics: &Vec<String>, topic: &str) -> (r: Option<usize>)
    ensures
        r == match first_match(topics@.map_values(|t: String| t@), topic@) {
            Some(i) => Some(i as usize),
            None => None,
        },
        r matches Some(i) ==> i < topics@.len(),
{
    let ghost views = topics@.map_values(|t: String| t@);
    let mut i: usize = 0;
    while i < topics.len()
        invariant
            i <= topics@.len(),
            views == topics@.map_values(|t: String| t@),
            first_match(views.take(i as int), topic@) is None,
        decreases topics@.len() - i,
    {
        proof {
            let next = views.take(i + 1);
            assert(next.drop_last() =~= views.take(i as int));
        }
        if str_eq(topics[i].as_str(), topic) {
            proof {
                lemma_first_match_prefix(views, topic@, i + 1);
            }
            return Some(i);
        }
        i += 1;
    }
    assert(views.take(topics@.len() as int) =~= views);
    None
}

/// A match within a prefix is the match of the whole sequence.
proof fn lemma_first_match_prefix(topics: Seq<Seq<char>>, topic: Seq<char>, k: int)
    requires
        0 <= k <= topics.len(),
        first_match(topics.take(k), topic) is Some,
    ensures
        first_match(topics, topic) == first_match(topics.take(k), topic),
    decreases topics.len() - k,
{
    if k < topics.len() {
        let next = topics.take(k + 1);
        assert(next.drop_last() =~= topics.take(k));
        lemma_first_match_prefix(topics, topic, k + 1);
    } else {
        assert(topics.take(k) =~= topics);
    }
}

/// The number carried by a payload, if it is one.
pub fn parse_number_payload(payload: &[u8]) -> (r: Option<i32>)
    ensures
        r == match spec_number_payload(payload@) {
            Some(v) => Some(v as i32),
            None => None,
        },
{
    match str_from_utf8(payload) {
        Some(text) => {
            let chars = str_chars(text);
            let (a, b) = trim_bounds(&chars, 0, chars.len());
            assert(chars@.subrange(0, chars@.len() as int) =~= chars@);
            parse_i32(&chars, a, b)
        },
        None => None,
    }
}

/// Route an incoming message: the first light whose command topic is `topic` takes it if
/// the payload parsed as a light command; otherwise the first number whose command topic is
/// `topic` takes it if the payload holds a number.
pub fn dispatch(
    topic: &str,
    payload: &[u8],
    light_topics: &Vec<String>,
    number_topics: &Vec<String>,
    payload_is_light_command: bool,
) -> (d: Dispatch)
    ensures
        d == spec_dispatch(
            topic@,
            payload@,
            light_topics@.map_values(|t: String| t@),
            number_topics@.map_values(|t: String| t@),
            payload_is_light_command,
        ),
{
    if let Some(i) = find_topic(light_topics, topic) {
        if payload_is_light_command {
            return Dispatch::Light(i);
        }
    }
    match find_topic(number_topics, topic) {
        Some(i) => match parse_number_payload(payload) {
            Some(v) => Dispatch::Number(i, v),
            None => Dispatch::Unhandled,
        },
        None => Dispatch::Unhandled,
    }
}

/// ASCII decimal digits of `n`.
pub open spec fn decimal_digits(n: nat) -> Seq<u8>
    decreases n,
{
    if n < 10 {
        seq![(48 + n) as u8]
    } else {
        decimal_digits(n / 10).push((48 + n % 10) as u8)
    }
}

/// The text `i32` formatting gives: a `-` for negative values, then the decimal digits of
/// the magnitude.
pub open spec fn decimal_i32(v: i32) -> Seq<u8> {
    if v < 0 {
        seq![45u8] + decimal_digits((-v) as nat)
    } else {
        decimal_digits(v as nat)
    }
}

/// How many bytes formatting `v` into a buffer of `cap` bytes writes: the sign and the
/// digits go in as separate writes, and a write that does not fit, with everything after it,
/// is dropped.
pub open spec fn format_i32_len(v: i32, cap: int) -> int {
    let digits = decimal_digits(if v < 0 {
        (-v) as nat
    } else {
        v as nat
    });
    if v < 0 {
        if cap < 1 {
            0
        } else if 1 + digits.len() <= cap {
            1 + digits.len() as int
        } else {
            1
        }
    } else if digits.len() <= cap {
        digits.len() as int
    } else {
        0
    }
}

fn digits_of(n: u32) -> (d: Vec<u8>)
    ensures
        d@ == decimal_digits(n as nat),
    decreases n,
{
    if n < 10 {
        let mut d = Vec::new();
        d.push((48 + n) as u8);
        d
    } else {
        let mut d = digits_of(n / 10);
        d.push((48 + n % 10) as u8);
        d
    }
}

/// Format `value` in decimal into `buf`, returning the number of bytes written.
pub fn format_i32(value: i32, buf: &mut [u8]) -> (n: usize)
    ensures
        n == format_i32_len(value, old(buf)@.len() as int),
        final(buf)@.len() == old(buf)@.len(),
        final(buf)@.subrange(0, n as int) == decimal_i32(value).subrange(0, n as int),
        final(buf)@.subrange(n as int, old(buf)@.len() as int) == old(buf)@.subrange(
            n as int,
            old(buf)@.len() as int,
        ),
{
    let cap = buf.len();
    let magnitude: u32 = if value < 0 {
        (-(value as i64)) as u32
    } else {
        value as u32
    };
    let digits = digits_of(magnitude);
    let ghost full = decimal_i32(value);
    let ghost orig = buf@;
    let mut pos: usize = 0;
    if value < 0 {
        if cap < 1 {
            assert(buf@.subrange(0, 0) =~= full.subrange(0, 0));
            assert(buf@.subrange(0, cap as int) =~= orig.subrange(0, cap as int));
            return 0;
        }
        buf[0] = 45u8;
        pos = 1;
    }
    assert(full =~= (if value < 0 { seq![45u8] } else { Seq::<u8>::empty() }) + digits@);
    if digits.len() <= cap - pos {
        let mut k: usize = 0;
        while k < digits.len()
            invariant
                pos + digits@.len() <= cap,
                cap == buf@.len(),
                orig.len() == cap,
                k <= digits@.len(),
                pos == (if value < 0 { 1usize } else { 0usize }),
                full =~= (if value < 0 { seq![45u8] } else { Seq::<u8>::empty() }) + digits@,
                forall|j: int| 0 <= j < pos + k ==> #[trigger] buf@[j] == full[j],
                forall|j: int| pos + k <= j < cap ==> #[trigger] buf@[j] == orig[j],
            decreases digits@.len() - k,
        {
            buf[pos + k] = digits[k];
            k += 1;
        }
        let n = pos + digits.len();
        assert(buf@.subrange(0, n as int) =~= full.subrange(0, n as int));
        assert(buf@.subrange(n as int, cap as int) =~= orig.subrange(n as int, cap as int));
        n
    } else {
        assert(buf@.subrange(0, pos as int) =~= full.subrange(0, pos as int));
        assert(buf@.subrange(pos as int, cap as int) =~= orig.subrange(pos as int, cap as int));
        pos
    }
}


/// The characters of a run of ASCII bytes.
pub open spec fn ascii_text(bytes: Seq<u8>) -> Seq<char> {
    bytes.map_values(|b: u8| b as char)
}

/// The digits of `n` read as text are all digits, at least one, worth `n`.
proof fn lemma_decimal_digits_value(n: nat)
    ensures
        decimal_digits(n).len() > 0,
        all_digits(ascii_text(decimal_digits(n))),
        digits_value(ascii_text(decimal_digits(n))) == n,
        forall|k: int|
            0 <= k < decimal_digits(n).len() ==> 48 <= #[trigger] decimal_digits(n)[k] <= 57,
    decreases n,
{
    let d = decimal_digits(n);
    let c = ascii_text(d);
    if n < 10 {
        assert(c[0] == (48 + n) as u8 as char);
        assert(c.last() as int == 48 + n);
        assert(c.drop_last() =~= Seq::<char>::empty());
        assert(digits_value(c.drop_last()) == 0);
    } else {
        lemma_decimal_digits_value(n / 10);
        let p = decimal_digits(n / 10);
        assert(c.drop_last() =~= ascii_text(p));
        assert(c.last() as int == 48 + n % 10);
        assert(digits_value(c) == digits_value(ascii_text(p)) * 10 + n % 10);
        assert((n / 10) * 10 + n % 10 == n) by (nonlinear_arith);
        assert forall|k: int| 0 <= k < c.len() implies is_digit(#[trigger] c[k]) by {
            if k < p.len() {
                assert(c[k] == ascii_text(p)[k]);
                assert(48 <= p[k] <= 57);
            }
        }
        assert forall|k: int| 0 <= k < d.len() implies 48 <= #[trigger] d[k] <= 57 by {
            if k < p.len() {
                assert(d[k] == p[k]);
            }
        }
    }
}

/// The decimal text of `v` is ASCII, so as UTF-8 it decodes to the same characters.
proof fn lemma_decimal_utf8(v: i32)
    ensures
        vstd::utf8::valid_utf8(decimal_i32(v)),
        vstd::utf8::decode_utf8(decimal_i32(v)) == ascii_text(decimal_i32(v)),
{
    let bytes = decimal_i32(v);
    let chars = ascii_text(bytes);
    let m: nat = if v < 0 { (-v) as nat } else { v as nat };
    lemma_decimal_digits_value(m);
    assert forall|k: int| 0 <= k < bytes.len() implies #[trigger] bytes[k] < 128 by {
        if v < 0 {
            if k > 0 {
                assert(bytes[k] == decimal_digits(m)[k - 1]);
            }
        } else {
            assert(bytes[k] == decimal_digits(m)[k]);
        }
    }
    assert(vstd::utf8::is_ascii_chars(chars)) by {
        assert forall|i: int| 0 <= i < chars.len() implies '\0' <= #[trigger] chars[i] <= '\u{7f}' by {
            assert(bytes[i] < 128);
        }
    }
    vstd::utf8::is_ascii_chars_encode_utf8(chars);
    assert forall|i: int| 0 <= i < chars.len() implies #[trigger] vstd::utf8::encode_utf8(chars)[i]
        == bytes[i] by {
        assert(chars[i] as u8 == vstd::utf8::encode_utf8(chars)[i]);
        assert(bytes[i] < 128);
    }
    assert(vstd::utf8::encode_utf8(chars) =~= bytes);
    vstd::utf8::encode_utf8_valid_utf8(chars);
    vstd::utf8::encode_utf8_decode_utf8(chars);
}

/// A number written out as decimal text is read back as the same number: what
/// [`format_i32`] writes, [`parse_number_payload`] reads.
pub proof fn law_number_roundtrip(v: i32)
    ensures
        spec_number_payload(decimal_i32(v)) == Some(v as int),
{
    let bytes = decimal_i32(v);
    let chars = ascii_text(bytes);
    lemma_decimal_utf8(v);
    let m: nat = if v < 0 { (-v) as nat } else { v as nat };
    lemma_decimal_digits_value(m);
    let digits = ascii_text(decimal_digits(m));
    assert(!is_ws(chars[0]));
    assert(leading_ws(chars) == 0);
    assert(trailing_ws(chars) == 0) by {
        assert(chars.last() == digits.last());
        assert(is_digit(digits[digits.len() - 1]));
    }
    assert(chars.skip(0) =~= chars);
    assert(chars.take(chars.len() as int) =~= chars);
    assert(trim(chars) == chars);
    if v < 0 {
        assert(chars.drop_first() =~= digits);
    } else {
        assert(chars =~= digits);
        assert(is_digit(digits[0]));
    }
}

/// A buffer with room for the whole decimal text of `v` receives all of it.
pub proof fn law_format_fits(v: i32, cap: int)
    requires
        decimal_i32(v).len() <= cap,
    ensures
        format_i32_len(v, cap) == decimal_i32(v).len(),
{
    let m: nat = if v < 0 { (-v) as nat } else { v as nat };
    lemma_decimal_digits_value(m);
}

} // verus!
