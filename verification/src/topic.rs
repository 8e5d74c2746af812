//! Topic and identifier generation for the Home Assistant MQTT integration.
//!
//! Topics live in fixed-capacity buffers of `N` bytes: a piece that would not fit is left
//! out whole, and later pieces that still fit are appended.

use vstd::prelude::*;
use vstd::utf8::encode_utf8;

verus! {

/// Default topic buffer size.
pub const DEFAULT_TOPIC_SIZE: usize = 128;

/// Length in bytes of the UTF-8 encoding of `s`.
pub open spec fn utf8_len(s: Seq<char>) -> int {
    encode_utf8(s).len() as int
}

/// The UTF-8 encoding of a concatenation is the concatenation of the encodings.
pub proof fn lemma_encode_concat(a: Seq<char>, b: Seq<char>)
    ensures
        encode_utf8(a + b) == encode_utf8(a) + encode_utf8(b),
    decreases a.len(),
{
    if a.len() == 0 {
        assert(a + b =~= b);
        assert(encode_utf8(a) =~= Seq::<u8>::empty());
        assert(encode_utf8(a) + encode_utf8(b) =~= encode_utf8(b));
    } else {
        assert((a + b).drop_first() =~= a.drop_first() + b);
        assert((a + b)[0] == a[0]);
        lemma_encode_concat(a.drop_first(), b);
        assert(encode_utf8(a + b) =~= encode_utf8(a) + encode_utf8(b));
    }
}

/// A UTF-8 encoding takes at most four bytes per character.
pub proof fn lemma_utf8_len_bound(s: Seq<char>)
    ensures
        utf8_len(s) <= 4 * s.len(),
    decreases s.len(),
{
    if s.len() > 0 {
        lemma_utf8_len_bound(s.drop_first());
        assert(vstd::utf8::encode_scalar(s[0] as u32).len() <= 4);
    }
}

/// The UTF-8 length of `s` fits in a `usize` (as it does for every string held in memory).
pub open spec fn fits_usize(s: &str) -> bool {
    utf8_len(s@) <= usize::MAX
}

/// `s` with `piece` appended when the result fits in `cap` bytes; `s` otherwise.
pub open spec fn bounded_push(s: Seq<char>, piece: Seq<char>, cap: int) -> Seq<char> {
    if utf8_len(s) + utf8_len(piece) <= cap {
        s + piece
    } else {
        s
    }
}

/// The pieces appended in order to an empty buffer of `cap` bytes, each only if it fits.
pub open spec fn bounded_concat(pieces: Seq<Seq<char>>, cap: int) -> Seq<char>
    decreases pieces.len(),
{
    if pieces.len() == 0 {
        Seq::empty()
    } else {
        bounded_push(bounded_concat(pieces.drop_last(), cap), pieces.last(), cap)
    }
}

/// The plain concatenation of the pieces.
pub open spec fn concat_all(pieces: Seq<Seq<char>>) -> Seq<char>
    decreases pieces.len(),
{
    if pieces.len() == 0 {
        Seq::empty()
    } else {
        concat_all(pieces.drop_last()) + pieces.last()
    }
}

/// Appends `piece` to `s` if the result fits in `N` bytes.
pub fn push_bounded<const N: usize>(s: &mut String, piece: &str)
    requires
        utf8_len(old(s)@) <= N,
        utf8_len(piece@) <= usize::MAX,
    ensures
        final(s)@ == bounded_push(old(s)@, piece@, N as int),
        utf8_len(final(s)@) <= N,
{
    let cur = s.as_str().len();
    let add = piece.len();
    assert(cur == utf8_len(s@));
    assert(add == utf8_len(piece@));
    if add <= N - cur {
        proof {
            lemma_encode_concat(s@, piece@);
        }
        s.append(piece);
    }
}

pub(crate) proof fn lemma_literal_fits(s: &str)
    requires
        s@.len() <= 64,
    ensures
        fits_usize(s),
{
    lemma_utf8_len_bound(s@);
}

/// Home Assistant discovery config topic:
/// `homeassistant/{component}/{device_id}_{entity_id}/config`.
pub open spec fn spec_config_topic(cap: int, component: Seq<char>, device_id: Seq<char>, entity_id: Seq<char>) -> Seq<char> {
    bounded_concat(
        seq!["homeassistant/"@, component, "/"@, device_id, "_"@, entity_id, "/config"@],
        cap,
    )
}

/// State topic: `{namespace}/{entity_id}`.
pub open spec fn spec_state_topic(cap: int, namespace: Seq<char>, entity_id: Seq<char>) -> Seq<char> {
    bounded_concat(seq![namespace, "/"@, entity_id], cap)
}

/// Command topic: the state topic followed by `/set`.
pub open spec fn spec_command_topic(cap: int, namespace: Seq<char>, entity_id: Seq<char>) -> Seq<char> {
    bounded_push(spec_state_topic(cap, namespace, entity_id), "/set"@, cap)
}

/// Unique entity id: `{device_id}_{entity_id}`.
pub open spec fn spec_unique_id(cap: int, device_id: Seq<char>, entity_id: Seq<char>) -> Seq<char> {
    bounded_concat(seq![device_id, "_"@, entity_id], cap)
}

/// Builds a topic by pushing the pieces in order into a buffer of `N` bytes.
pub(crate) fn build_bounded<const N: usize>(pieces: &Vec<&str>) -> (s: String)
    requires
        forall|k: int| 0 <= k < pieces@.len() ==> fits_usize(#[trigger] pieces@[k]),
    ensures
        s@ == bounded_concat(pieces@.map_values(|p: &str| p@), N as int),
        utf8_len(s@) <= N,
{
    let ghost views = pieces@.map_values(|p: &str| p@);
    let mut s = String::new();
    assert(encode_utf8(s@) =~= Seq::<u8>::empty());
    assert(views.take(0) =~= Seq::<Seq<char>>::empty());
    let mut i: usize = 0;
    while i < pieces.len()
        invariant
            i <= pieces@.len(),
            forall|k: int| 0 <= k < pieces@.len() ==> fits_usize(#[trigger] pieces@[k]),
            views == pieces@.map_values(|p: &str| p@),
            s@ == bounded_concat(views.take(i as int), N as int),
            utf8_len(s@) <= N,
        decreases pieces@.len() - i,
    {
        push_bounded::<N>(&mut s, pieces[i]);
        proof {
            let next = views.take(i + 1);
            assert(next.drop_last() =~= views.take(i as int));
            assert(next.last() == pieces@[i as int]@);
        }
        i += 1;
    }
    assert(views.take(pieces@.len() as int) =~= views);
    s
}

/// Generate a Home Assistant discovery config topic in a buffer of `N` bytes.
pub fn config_topic<const N: usize>(component: &str, device_id: &str, entity_id: &str) -> (t: String)
    requires
        fits_usize(component),
        fits_usize(device_id),
        fits_usize(entity_id),
    ensures
        t@ == spec_config_topic(N as int, component@, device_id@, entity_id@),
        utf8_len(t@) <= N,
{
    proof {
        reveal_strlit("homeassistant/");
        reveal_strlit("/");
        reveal_strlit("_");
        reveal_strlit("/config");
        lemma_literal_fits("homeassistant/");
        lemma_literal_fits("/");
        lemma_literal_fits("_");
        lemma_literal_fits("/config");
    }
    let pieces: Vec<&str> = vec!["homeassistant/", component, "/", device_id, "_", entity_id, "/config"];
    let t = build_bounded::<N>(&pieces);
    assert(pieces@.map_values(|p: &str| p@) =~= seq!["homeassistant/"@, component@, "/"@, device_id@, "_"@, entity_id@, "/config"@]);
    t
}

/// Generate a state topic in a buffer of `N` bytes.
pub fn state_topic<const N: usize>(namespace: &str, entity_id: &str) -> (t: String)
    requires
        fits_usize(namespace),
        fits_usize(entity_id),
    ensures
        t@ == spec_state_topic(N as int, namespace@, entity_id@),
        utf8_len(t@) <= N,
{
    proof {
        reveal_strlit("/");
        lemma_literal_fits("/");
    }
    let pieces: Vec<&str> = vec![namespace, "/", entity_id];
    let t = build_bounded::<N>(&pieces);
    assert(pieces@.map_values(|p: &str| p@) =~= seq![namespace@, "/"@, entity_id@]);
    t
}

/// Generate a command topic in a buffer of `N` bytes.
pub fn command_topic<const N: usize>(namespace: &str, entity_id: &str) -> (t: String)
    requires
        fits_usize(namespace),
        fits_usize(entity_id),
    ensures
        t@ == spec_command_topic(N as int, namespace@, entity_id@),
        utf8_len(t@) <= N,
{
    proof {
        reveal_strlit("/set");
        lemma_literal_fits("/set");
    }
    let mut t = state_topic::<N>(namespace, entity_id);
    push_bounded::<N>(&mut t, "/set");
    t
}

/// Generate a unique entity id in a buffer of `N` bytes.
pub fn unique_id<const N: usize>(device_id: &str, entity_id: &str) -> (t: String)
    requires
        fits_usize(device_id),
        fits_usize(entity_id),
    ensures
        t@ == spec_unique_id(N as int, device_id@, entity_id@),
        utf8_len(t@) <= N,
{
    proof {
        reveal_strlit("_");
        lemma_literal_fits("_");
    }
    let pieces: Vec<&str> = vec![device_id, "_", entity_id];
    let t = build_bounded::<N>(&pieces);
    assert(pieces@.map_values(|p: &str| p@) =~= seq![device_id@, "_"@, entity_id@]);
    t
}

/// The UTF-8 length of a plain concatenation is the sum of the lengths.
proof fn lemma_concat_all_len(pieces: Seq<Seq<char>>, k: int)
    requires
        0 <= k <= pieces.len(),
    ensures
        utf8_len(concat_all(pieces.take(k))) <= utf8_len(concat_all(pieces)),
    decreases pieces.len(),
{
    if pieces.len() == 0 {
        assert(pieces.take(k) =~= pieces);
    } else if k == pieces.len() {
        assert(pieces.take(k) =~= pieces);
    } else {
        let init = pieces.drop_last();
        assert(pieces.take(k) =~= init.take(k));
        lemma_concat_all_len(init, k);
        lemma_encode_concat(concat_all(init), pieces.last());
    }
}

/// When the whole concatenation fits, nothing is left out.
pub proof fn law_bounded_concat_exact(pieces: Seq<Seq<char>>, cap: int)
    requires
        utf8_len(concat_all(pieces)) <= cap,
    ensures
        bounded_concat(pieces, cap) == concat_all(pieces),
    decreases pieces.len(),
{
    if pieces.len() > 0 {
        let init = pieces.drop_last();
        lemma_encode_concat(concat_all(init), pieces.last());
        law_bounded_concat_exact(init, cap);
        lemma_encode_concat(concat_all(init), pieces.last());
    }
}

/// A topic whose pieces fit its buffer is the exact concatenation: for example the config
/// topic is `homeassistant/{component}/{device_id}_{entity_id}/config`.
pub proof fn law_config_topic_exact(cap: int, component: Seq<char>, device_id: Seq<char>, entity_id: Seq<char>)
    requires
        utf8_len("homeassistant/"@ + component + "/"@ + device_id + "_"@ + entity_id + "/config"@) <= cap,
    ensures
        spec_config_topic(cap, component, device_id, entity_id) == "homeassistant/"@ + component + "/"@
            + device_id + "_"@ + entity_id + "/config"@,
{
    let pieces = seq!["homeassistant/"@, component, "/"@, device_id, "_"@, entity_id, "/config"@];
    assert(concat_all(pieces) =~= "homeassistant/"@ + component + "/"@ + device_id + "_"@ + entity_id + "/config"@) by {
        reveal_with_fuel(concat_all, 8);
        assert(pieces.drop_last().drop_last().drop_last().drop_last().drop_last().drop_last().drop_last() =~= Seq::<Seq<char>>::empty());
    }
    law_bounded_concat_exact(pieces, cap);
}

} // verus!
