//! Topic generation for the Home Assistant MQTT integration.
//!
//! Every topic is written into a buffer that holds at most `N` bytes of UTF-8.
//! Pieces are appended one at a time; a piece that does not fit is not written,
//! and the pieces after it in the same format are not written either.

use vstd::prelude::*;
use vstd::string::StringExecFns;
use vstd::utf8::encode_utf8;

verus! {

/// Number of bytes that the UTF-8 encoding of `s` takes.
pub open spec fn utf8_len(s: Seq<char>) -> nat {
    encode_utf8(s).len()
}

/// Appends `pieces` to `acc` in order while the total stays within `cap` bytes;
/// the first piece that does not fit ends the writing.
pub open spec fn write_pieces(acc: Seq<char>, pieces: Seq<Seq<char>>, cap: nat) -> Seq<char>
    decreases pieces.len(),
{
    if pieces.len() == 0 {
        acc
    } else if utf8_len(acc) + utf8_len(pieces[0]) <= cap {
        write_pieces(acc + pieces[0], pieces.drop_first(), cap)
    } else {
        acc
    }
}

/// The concatenation of all pieces.
pub open spec fn concat_pieces(pieces: Seq<Seq<char>>) -> Seq<char>
    decreases pieces.len(),
{
    if pieces.len() == 0 {
        Seq::empty()
    } else {
        pieces[0] + concat_pieces(pieces.drop_first())
    }
}

/// Pieces of `homeassistant/{component}/{device_id}_{entity_id}/config`.
pub open spec fn config_pieces(component: Seq<char>, device_id: Seq<char>, entity_id: Seq<char>) -> Seq<Seq<char>> {
    seq!["homeassistant/"@, component, "/"@, device_id, "_"@, entity_id, "/config"@]
}

/// Pieces of `{device_id}/{entity_id}`.
pub open spec fn state_pieces(device_id: Seq<char>, entity_id: Seq<char>) -> Seq<Seq<char>> {
    seq![device_id, "/"@, entity_id]
}

/// Pieces of `{device_id}_{entity_id}`.
pub open spec fn unique_id_pieces(device_id: Seq<char>, entity_id: Seq<char>) -> Seq<Seq<char>> {
    seq![device_id, "_"@, entity_id]
}

/// The discovery config topic held in a buffer of `cap` bytes.
pub open spec fn spec_config_topic(component: Seq<char>, device_id: Seq<char>, entity_id: Seq<char>, cap: nat) -> Seq<char> {
    write_pieces(Seq::empty(), config_pieces(component, device_id, entity_id), cap)
}

/// The state topic held in a buffer of `cap` bytes.
pub open spec fn spec_state_topic(device_id: Seq<char>, entity_id: Seq<char>, cap: nat) -> Seq<char> {
    write_pieces(Seq::empty(), state_pieces(device_id, entity_id), cap)
}

/// The command topic held in a buffer of `cap` bytes: the state topic, then `/set`
/// written on its own.
pub open spec fn spec_command_topic(device_id: Seq<char>, entity_id: Seq<char>, cap: nat) -> Seq<char> {
    write_pieces(spec_state_topic(device_id, entity_id, cap), seq!["/set"@], cap)
}

/// The unique id held in a buffer of `cap` bytes.
pub open spec fn spec_unique_id(device_id: Seq<char>, entity_id: Seq<char>, cap: nat) -> Seq<char> {
    write_pieces(Seq::empty(), unique_id_pieces(device_id, entity_id), cap)
}

/// `homeassistant/{component}/{device_id}_{entity_id}/config` written out in full.
pub open spec fn full_config_topic(component: Seq<char>, device_id: Seq<char>, entity_id: Seq<char>) -> Seq<char> {
    "homeassistant/"@ + component + "/"@ + device_id + "_"@ + entity_id + "/config"@
}

/// `{device_id}/{entity_id}` written out in full.
pub open spec fn full_state_topic(device_id: Seq<char>, entity_id: Seq<char>) -> Seq<char> {
    device_id + "/"@ + entity_id
}

/// `{device_id}/{entity_id}/set` written out in full.
pub open spec fn full_command_topic(device_id: Seq<char>, entity_id: Seq<char>) -> Seq<char> {
    full_state_topic(device_id, entity_id) + "/set"@
}

/// `{device_id}_{entity_id}` written out in full.
pub open spec fn full_unique_id(device_id: Seq<char>, entity_id: Seq<char>) -> Seq<char> {
    device_id + "_"@ + entity_id
}

/// `t` is a prefix of `full`.
pub open spec fn is_prefix_of(t: Seq<char>, full: Seq<char>) -> bool {
    t.len() <= full.len() && full.subrange(0, t.len() as int) == t
}

/// The UTF-8 encoding of a concatenation is the concatenation of the encodings.
pub proof fn lemma_encode_utf8_concat(a: Seq<char>, b: Seq<char>)
    ensures
        encode_utf8(a + b) == encode_utf8(a) + encode_utf8(b),
    decreases a.len(),
{
    if a.len() == 0 {
        assert(a + b =~= b);
        assert(encode_utf8(a) =~= Seq::<u8>::empty());
        assert(encode_utf8(a) + encode_utf8(b) =~= encode_utf8(b));
    } else {
        lemma_encode_utf8_concat(a.drop_first(), b);
        assert((a + b).drop_first() =~= a.drop_first() + b);
        assert((a + b)[0] == a[0]);
        let h = vstd::utf8::encode_scalar(a[0] as u32);
        assert(h + (encode_utf8(a.drop_first()) + encode_utf8(b)) =~= (h + encode_utf8(a.drop_first()))
            + encode_utf8(b));
    }
}

/// Byte lengths add up over concatenation.
pub proof fn lemma_utf8_len_concat(a: Seq<char>, b: Seq<char>)
    ensures
        utf8_len(a + b) == utf8_len(a) + utf8_len(b),
{
    lemma_encode_utf8_concat(a, b);
}

/// The buffer never holds more than `cap` bytes once it starts within them.
pub proof fn lemma_write_pieces_within(acc: Seq<char>, pieces: Seq<Seq<char>>, cap: nat)
    requires
        utf8_len(acc) <= cap,
    ensures
        utf8_len(write_pieces(acc, pieces, cap)) <= cap,
    decreases pieces.len(),
{
    if pieces.len() > 0 && utf8_len(acc) + utf8_len(pieces[0]) <= cap {
        lemma_utf8_len_concat(acc, pieces[0]);
        lemma_write_pieces_within(acc + pieces[0], pieces.drop_first(), cap);
    }
}

/// What is written is a prefix of the full concatenation, and is all of it when
/// the full concatenation fits.
pub proof fn lemma_write_pieces_prefix(acc: Seq<char>, pieces: Seq<Seq<char>>, cap: nat)
    ensures
        (acc + concat_pieces(pieces)).subrange(0, write_pieces(acc, pieces, cap).len() as int)
            == write_pieces(acc, pieces, cap),
        write_pieces(acc, pieces, cap).len() <= acc.len() + concat_pieces(pieces).len(),
        utf8_len(acc + concat_pieces(pieces)) <= cap ==> write_pieces(acc, pieces, cap) == acc
            + concat_pieces(pieces),
    decreases pieces.len(),
{
    if pieces.len() == 0 {
        assert(acc + concat_pieces(pieces) =~= acc);
        assert(acc.subrange(0, acc.len() as int) =~= acc);
    } else {
        let rest = pieces.drop_first();
        lemma_write_pieces_prefix(acc + pieces[0], rest, cap);
        assert(acc + concat_pieces(pieces) =~= (acc + pieces[0]) + concat_pieces(rest));
        lemma_utf8_len_concat(acc + pieces[0], concat_pieces(rest));
        lemma_utf8_len_concat(acc, pieces[0]);
        if utf8_len(acc) + utf8_len(pieces[0]) <= cap {
        } else {
            let full = acc + concat_pieces(pieces);
            assert(full.subrange(0, acc.len() as int) =~= acc);
        }
    }
}

proof fn lemma_concat_config(component: Seq<char>, device_id: Seq<char>, entity_id: Seq<char>)
    ensures
        concat_pieces(config_pieces(component, device_id, entity_id)) == full_config_topic(component, device_id, entity_id),
{
    let p = config_pieces(component, device_id, entity_id);
    reveal_with_fuel(concat_pieces, 8);
    assert(p.drop_first().drop_first().drop_first().drop_first().drop_first().drop_first().drop_first().len() == 0);
    assert(concat_pieces(p) =~= full_config_topic(component, device_id, entity_id));
}

proof fn lemma_concat_three(a: Seq<char>, b: Seq<char>, c: Seq<char>)
    ensures
        concat_pieces(seq![a, b, c]) == a + b + c,
{
    let p = seq![a, b, c];
    reveal_with_fuel(concat_pieces, 4);
    assert(p.drop_first().drop_first().drop_first().len() == 0);
    assert(concat_pieces(p) =~= a + b + c);
}

/// Law: the config topic is always a prefix of
/// `homeassistant/{component}/{device_id}_{entity_id}/config`, holds at most `cap` bytes,
/// and is that whole string whenever it fits in `cap` bytes.
pub proof fn law_config_topic_format(component: Seq<char>, device_id: Seq<char>, entity_id: Seq<char>, cap: nat)
    ensures
        is_prefix_of(spec_config_topic(component, device_id, entity_id, cap), full_config_topic(component, device_id, entity_id)),
        utf8_len(spec_config_topic(component, device_id, entity_id, cap)) <= cap,
        utf8_len(full_config_topic(component, device_id, entity_id)) <= cap
            ==> spec_config_topic(component, device_id, entity_id, cap) == full_config_topic(component, device_id, entity_id),
{
    let p = config_pieces(component, device_id, entity_id);
    lemma_write_pieces_prefix(Seq::empty(), p, cap);
    lemma_concat_config(component, device_id, entity_id);
    assert(Seq::<char>::empty() + concat_pieces(p) =~= concat_pieces(p));
    assert(encode_utf8(Seq::<char>::empty()) =~= Seq::<u8>::empty());
    lemma_write_pieces_within(Seq::empty(), p, cap);
}

/// Law: the state topic is always a prefix of `{device_id}/{entity_id}`, holds at most
/// `cap` bytes, and is that whole string whenever it fits.
pub proof fn law_state_topic_format(device_id: Seq<char>, entity_id: Seq<char>, cap: nat)
    ensures
        is_prefix_of(spec_state_topic(device_id, entity_id, cap), full_state_topic(device_id, entity_id)),
        utf8_len(spec_state_topic(device_id, entity_id, cap)) <= cap,
        utf8_len(full_state_topic(device_id, entity_id)) <= cap
            ==> spec_state_topic(device_id, entity_id, cap) == full_state_topic(device_id, entity_id),
{
    let p = state_pieces(device_id, entity_id);
    lemma_write_pieces_prefix(Seq::empty(), p, cap);
    lemma_concat_three(device_id, "/"@, entity_id);
    assert(Seq::<char>::empty() + concat_pieces(p) =~= concat_pieces(p));
    assert(encode_utf8(Seq::<char>::empty()) =~= Seq::<u8>::empty());
    lemma_write_pieces_within(Seq::empty(), p, cap);
}

/// Law: the unique id is always a prefix of `{device_id}_{entity_id}`, holds at most
/// `cap` bytes, and is that whole string whenever it fits.
pub proof fn law_unique_id_format(device_id: Seq<char>, entity_id: Seq<char>, cap: nat)
    ensures
        is_prefix_of(spec_unique_id(device_id, entity_id, cap), full_unique_id(device_id, entity_id)),
        utf8_len(spec_unique_id(device_id, entity_id, cap)) <= cap,
        utf8_len(full_unique_id(device_id, entity_id)) <= cap
            ==> spec_unique_id(device_id, entity_id, cap) == full_unique_id(device_id, entity_id),
{
    let p = unique_id_pieces(device_id, entity_id);
    lemma_write_pieces_prefix(Seq::empty(), p, cap);
    lemma_concat_three(device_id, "_"@, entity_id);
    assert(Seq::<char>::empty() + concat_pieces(p) =~= concat_pieces(p));
    assert(encode_utf8(Seq::<char>::empty()) =~= Seq::<u8>::empty());
    lemma_write_pieces_within(Seq::empty(), p, cap);
}

/// Law: the command topic starts with the state topic of the same entity and buffer,
/// holds at most `cap` bytes, and is `{device_id}/{entity_id}/set` whenever that fits.
pub proof fn law_command_topic_extends_state(device_id: Seq<char>, entity_id: Seq<char>, cap: nat)
    ensures
        is_prefix_of(spec_state_topic(device_id, entity_id, cap), spec_command_topic(device_id, entity_id, cap)),
        utf8_len(spec_command_topic(device_id, entity_id, cap)) <= cap,
        utf8_len(full_command_topic(device_id, entity_id)) <= cap
            ==> spec_command_topic(device_id, entity_id, cap) == full_command_topic(device_id, entity_id),
{
    let st = spec_state_topic(device_id, entity_id, cap);
    let set = seq!["/set"@];
    law_state_topic_format(device_id, entity_id, cap);
    lemma_write_pieces_within(st, set, cap);
    let cmd = spec_command_topic(device_id, entity_id, cap);
    reveal_with_fuel(write_pieces, 2);
    assert(set.drop_first().len() == 0);
    if utf8_len(st) + utf8_len("/set"@) <= cap {
        assert(cmd == st + "/set"@);
        assert(cmd.subrange(0, st.len() as int) =~= st);
    } else {
        assert(cmd == st);
        assert(cmd.subrange(0, st.len() as int) =~= st);
    }
    if utf8_len(full_command_topic(device_id, entity_id)) <= cap {
        lemma_utf8_len_concat(full_state_topic(device_id, entity_id), "/set"@);
    }
}

/// Writes `pieces` into `out`, which already holds `*used` bytes, within `cap` bytes.
fn write_all(out: &mut String, used: &mut usize, pieces: &[&str], cap: usize)
    requires
        *old(used) == utf8_len(old(out)@),
        *old(used) <= cap,
    ensures
        final(out)@ == write_pieces(old(out)@, pieces@.map_values(|p: &str| p@), cap as nat),
        *final(used) == utf8_len(final(out)@),
        *final(used) <= cap,
{
    let ghost all = pieces@.map_values(|p: &str| p@);
    let ghost start = out@;
    let mut i: usize = 0;
    assert(all.subrange(0, all.len() as int) =~= all);
    while i < pieces.len()
        invariant
            0 <= i <= pieces@.len(),
            all == pieces@.map_values(|p: &str| p@),
            start == old(out)@,
            *used == utf8_len(out@),
            *used <= cap,
            write_pieces(start, all, cap as nat) == write_pieces(out@, all.subrange(i as int, all.len() as int), cap as nat),
        decreases pieces@.len() - i,
    {
        let piece: &str = pieces[i];
        let n = piece.as_bytes().len();
        let ghost rest = all.subrange(i as int, all.len() as int);
        assert(rest[0] == piece@);
        assert(rest.drop_first() =~= all.subrange(i + 1, all.len() as int));
        assert(n == utf8_len(piece@));
        if n <= cap - *used {
            proof {
                lemma_utf8_len_concat(out@, piece@);
            }
            out.append(piece);
            *used = *used + n;
            i = i + 1;
        } else {
            assert(write_pieces(out@, rest, cap as nat) == out@);
            return;
        }
    }
    assert(all.subrange(i as int, all.len() as int) =~= Seq::<Seq<char>>::empty());
}

/// Copies `s` into a buffer of `N` bytes: all of `s` when it fits, nothing otherwise.
pub fn copy_within<const N: usize>(s: &str) -> (r: String)
    ensures
        r@ == write_pieces(Seq::empty(), seq![s@], N as nat),
        utf8_len(r@) <= N,
{
    let mut r = String::new();
    let mut used: usize = 0;
    let pieces: [&str; 1] = [s];
    proof {
        assert(utf8_len(r@) == 0);
    }
    write_all(&mut r, &mut used, &pieces, N);
    assert(pieces@.map_values(|p: &str| p@) =~= seq![s@]);
    r
}

/// Generates a Home Assistant discovery config topic:
/// `homeassistant/{component}/{device_id}_{entity_id}/config`, within `N` bytes.
pub fn config_topic<const N: usize>(component: &str, device_id: &str, entity_id: &str) -> (topic: String)
    ensures
        topic@ == spec_config_topic(component@, device_id@, entity_id@, N as nat),
        utf8_len(topic@) <= N,
{
    let mut topic = String::new();
    let mut used: usize = 0;
    let pieces: [&str; 7] = ["homeassistant/", component, "/", device_id, "_", entity_id, "/config"];
    proof {
        assert(utf8_len(topic@) == 0);
    }
    write_all(&mut topic, &mut used, &pieces, N);
    assert(pieces@.map_values(|p: &str| p@) =~= config_pieces(component@, device_id@, entity_id@));
    topic
}

/// Generates the state topic of an entity: `{device_id}/{entity_id}`, within `N` bytes.
pub fn state_topic<const N: usize>(device_id: &str, entity_id: &str) -> (topic: String)
    ensures
        topic@ == spec_state_topic(device_id@, entity_id@, N as nat),
        utf8_len(topic@) <= N,
{
    let mut topic = String::new();
    let mut used: usize = 0;
    let pieces: [&str; 3] = [device_id, "/", entity_id];
    proof {
        assert(utf8_len(topic@) == 0);
    }
    write_all(&mut topic, &mut used, &pieces, N);
    assert(pieces@.map_values(|p: &str| p@) =~= state_pieces(device_id@, entity_id@));
    topic
}

/// Generates the command topic of an entity: `{device_id}/{entity_id}/set`, within
/// `N` bytes. The state topic is written first; `/set` is then written on its own.
pub fn command_topic<const N: usize>(device_id: &str, entity_id: &str) -> (topic: String)
    ensures
        topic@ == spec_command_topic(device_id@, entity_id@, N as nat),
        utf8_len(topic@) <= N,
{
    let mut topic: String = state_topic::<N>(device_id, entity_id);
    let mut used: usize = topic.as_str().as_bytes().len();
    let pieces: [&str; 1] = ["/set"];
    write_all(&mut topic, &mut used, &pieces, N);
    assert(pieces@.map_values(|p: &str| p@) =~= seq!["/set"@]);
    topic
}

/// Generates the unique id of an entity: `{device_id}_{entity_id}`, within `N` bytes.
pub fn unique_id<const N: usize>(device_id: &str, entity_id: &str) -> (id: String)
    ensures
        id@ == spec_unique_id(device_id@, entity_id@, N as nat),
        utf8_len(id@) <= N,
{
    let mut id = String::new();
    let mut used: usize = 0;
    let pieces: [&str; 3] = [device_id, "_", entity_id];
    proof {
        assert(utf8_len(id@) == 0);
    }
    write_all(&mut id, &mut used, &pieces, N);
    assert(pieces@.map_values(|p: &str| p@) =~= unique_id_pieces(device_id@, entity_id@));
    id
}

} // verus!
