//! The vehicle's parameter set.
//!
//! Parameter-value replies arrive asynchronously and are merged into one
//! collection keyed by the decoded identifier: a later value for the same
//! name replaces the earlier one, and the collection stays sorted by
//! decoded identifier after every insertion, so the display order is
//! stable.

use vstd::prelude::*;

use crate::msg::DEFAULT_TARGET_COMPONENT;
use crate::msg::DEFAULT_TARGET_SYSTEM;
use crate::msg::ParamValue;
use crate::msg::RequestMessage;

verus! {

/// First phase of the parameter sync: the one request that asks the
/// vehicle to enumerate its full parameter list.  Value replies land
/// through the normal telemetry path.
pub fn request_parameters() -> (request: RequestMessage)
    ensures
        request == (RequestMessage::ParamRequestList {
            target_system: DEFAULT_TARGET_SYSTEM,
            target_component: DEFAULT_TARGET_COMPONENT,
        }),
{
    RequestMessage::ParamRequestList {
        target_system: DEFAULT_TARGET_SYSTEM,
        target_component: DEFAULT_TARGET_COMPONENT,
    }
}

/// The identifier bytes with the zero padding dropped, in order.
pub open spec fn decoded_bytes(id: Seq<u8>) -> Seq<u8>
    decreases id.len(),
{
    if id.len() == 0 {
        Seq::empty()
    } else if id.last() != 0 {
        decoded_bytes(id.drop_last()).push(id.last())
    } else {
        decoded_bytes(id.drop_last())
    }
}

/// The decoded identifier as text: each remaining byte read as one
/// character.
pub open spec fn decoded_chars(id: Seq<u8>) -> Seq<char> {
    decoded_bytes(id).map_values(|b: u8| b as char)
}

/// Strict lexicographic order on byte strings: a proper prefix comes
/// first, otherwise the first differing byte decides.
pub open spec fn lex_lt(a: Seq<u8>, b: Seq<u8>) -> bool
    decreases a.len(),
{
    if b.len() == 0 {
        false
    } else if a.len() == 0 {
        true
    } else if a.first() < b.first() {
        true
    } else if a.first() > b.first() {
        false
    } else {
        lex_lt(a.drop_first(), b.drop_first())
    }
}

pub proof fn lemma_lex_lt_irreflexive(a: Seq<u8>)
    ensures
        !lex_lt(a, a),
    decreases a.len(),
{
    if a.len() > 0 {
        lemma_lex_lt_irreflexive(a.drop_first());
    }
}

/// Two distinct byte strings are ordered one way or the other.
pub proof fn lemma_lex_lt_connected(a: Seq<u8>, b: Seq<u8>)
    ensures
        lex_lt(a, b) || lex_lt(b, a) || a == b,
    decreases a.len(),
{
    if a.len() == 0 {
        if b.len() == 0 {
            assert(a =~= b);
        }
    } else if b.len() > 0 {
        if a.first() == b.first() {
            lemma_lex_lt_connected(a.drop_first(), b.drop_first());
            if a.drop_first() == b.drop_first() {
                assert(a.drop_first().len() == a.len() - 1);
                assert(b.drop_first().len() == b.len() - 1);
                assert forall|k: int| 0 <= k < a.len() implies a[k] == b[k] by {
                    if k > 0 {
                        assert(a.drop_first()[k - 1] == a[k]);
                        assert(b.drop_first()[k - 1] == b[k]);
                    }
                }
                assert(a =~= b);
            }
        }
    }
}

pub proof fn lemma_lex_lt_transitive(a: Seq<u8>, b: Seq<u8>, c: Seq<u8>)
    requires
        lex_lt(a, b),
        lex_lt(b, c),
    ensures
        lex_lt(a, c),
    decreases a.len(),
{
    if a.len() > 0 && b.len() > 0 && c.len() > 0 {
        if a.first() == b.first() && b.first() == c.first() {
            lemma_lex_lt_transitive(a.drop_first(), b.drop_first(), c.drop_first());
        }
    }
}

/// Ordered byte strings differ.
pub proof fn lemma_lex_lt_neq(a: Seq<u8>, b: Seq<u8>)
    requires
        lex_lt(a, b),
    ensures
        a != b,
{
    lemma_lex_lt_irreflexive(a);
}

/// A shared prefix does not influence the order of what follows it.
proof fn lemma_lex_lt_common_prefix(a: Seq<u8>, b: Seq<u8>, k: int)
    requires
        0 <= k <= a.len(),
        k <= b.len(),
        forall|j: int| 0 <= j < k ==> a[j] == b[j],
    ensures
        lex_lt(a, b) == lex_lt(a.skip(k), b.skip(k)),
    decreases k,
{
    if k > 0 {
        assert(a.first() == b.first());
        lemma_lex_lt_common_prefix(a.drop_first(), b.drop_first(), k - 1);
        assert(a.drop_first().skip(k - 1) =~= a.skip(k));
        assert(b.drop_first().skip(k - 1) =~= b.skip(k));
    } else {
        assert(a.skip(0) =~= a);
        assert(b.skip(0) =~= b);
    }
}

/// Appending one byte extends the decoded identifier exactly when the byte
/// is not padding.
proof fn lemma_decoded_push(s: Seq<u8>, b: u8)
    ensures
        b != 0 ==> decoded_bytes(s.push(b)) == decoded_bytes(s).push(b),
        b == 0 ==> decoded_bytes(s.push(b)) == decoded_bytes(s),
        b != 0 ==> decoded_chars(s.push(b)) == decoded_chars(s).push(b as char),
        b == 0 ==> decoded_chars(s.push(b)) == decoded_chars(s),
{
    assert(s.push(b).drop_last() =~= s);
    assert(s.push(b).last() == b);
    if b != 0 {
        assert(decoded_chars(s.push(b)) =~= decoded_chars(s).push(b as char));
    }
}

/// Relies on `String::push` of std: appends the given character to the end
/// of the string.
#[verifier::external_body]
fn push_char(s: &mut String, c: char)
    ensures
        final(s)@ == old(s)@.push(c),
{
    s.push(c);
}

/// Decode a zero-padded 16-byte parameter identifier into its display
/// name: the padding bytes are dropped and every other byte is read as one
/// character.
pub fn decode_param_id(param_id: &[u8; 16]) -> (name: String)
    ensures
        name@ == decoded_chars(param_id@),
{
    let mut name = String::new();
    let mut i: usize = 0;
    while i < 16
        invariant
            i <= 16,
            name@ == decoded_chars(param_id@.take(i as int)),
        decreases 16 - i,
    {
        let b = param_id[i];
        proof {
            assert(param_id@.take(i + 1) =~= param_id@.take(i as int).push(param_id@[i as int]));
            lemma_decoded_push(param_id@.take(i as int), param_id@[i as int]);
        }
        if b != 0 {
            push_char(&mut name, b as char);
        }
        i += 1;
    }
    proof {
        assert(param_id@.take(16) =~= param_id@);
    }
    name
}

/// The decoded identifier bytes of a parameter: its sort key.
pub open spec fn param_key(p: ParamValue) -> Seq<u8> {
    decoded_bytes(p.param_id@)
}

/// The parameter collection is strictly sorted by decoded identifier; in
/// particular no two entries share a name.
pub open spec fn params_sorted(s: Seq<ParamValue>) -> bool {
    forall|i: int, j: int|
        0 <= i < j < s.len() ==> lex_lt(param_key(#[trigger] s[i]), param_key(#[trigger] s[j]))
}

/// The sort key of a parameter, as a byte string.
fn decode_key(param_id: &[u8; 16]) -> (key: Vec<u8>)
    ensures
        key@ == decoded_bytes(param_id@),
{
    let mut key: Vec<u8> = Vec::new();
    let mut i: usize = 0;
    while i < 16
        invariant
            i <= 16,
            key@ == decoded_bytes(param_id@.take(i as int)),
        decreases 16 - i,
    {
        let b = param_id[i];
        proof {
            assert(param_id@.take(i + 1) =~= param_id@.take(i as int).push(param_id@[i as int]));
            lemma_decoded_push(param_id@.take(i as int), param_id@[i as int]);
        }
        if b != 0 {
            key.push(b);
        }
        i += 1;
    }
    proof {
        assert(param_id@.take(16) =~= param_id@);
    }
    key
}

/// Strict lexicographic comparison of two byte strings.
fn bytes_lt(a: &Vec<u8>, b: &Vec<u8>) -> (r: bool)
    ensures
        r == lex_lt(a@, b@),
{
    let mut i: usize = 0;
    while i < a.len() && i < b.len()
        invariant
            i <= a@.len(),
            i <= b@.len(),
            forall|j: int| 0 <= j < i ==> a@[j] == b@[j],
        decreases a@.len() - i,
    {
        let x = a[i];
        let y = b[i];
        if x < y {
            proof {
                lemma_lex_lt_common_prefix(a@, b@, i as int);
            }
            return true;
        }
        if x > y {
            proof {
                lemma_lex_lt_common_prefix(a@, b@, i as int);
            }
            return false;
        }
        i += 1;
    }
    proof {
        lemma_lex_lt_common_prefix(a@, b@, i as int);
    }
    a.len() < b.len()
}

/// Byte-string equality.
fn bytes_eq(a: &Vec<u8>, b: &Vec<u8>) -> (r: bool)
    ensures
        r == (a@ == b@),
{
    if a.len() != b.len() {
        proof {
            assert(a@.len() != b@.len());
        }
        return false;
    }
    let mut i: usize = 0;
    while i < a.len()
        invariant
            i <= a@.len(),
            a@.len() == b@.len(),
            forall|j: int| 0 <= j < i ==> a@[j] == b@[j],
        decreases a@.len() - i,
    {
        if a[i] != b[i] {
            return false;
        }
        i += 1;
    }
    proof {
        assert(a@ =~= b@);
    }
    true
}

/// How a parameter collection changes when one reply is merged in: the
/// result is still sorted, holds the new entry, keeps exactly the old
/// entries whose name differs, and has grown by at most one.  Together
/// with strict sortedness this pins the resulting sequence completely.
pub open spec fn param_upserted(before: Seq<ParamValue>, after: Seq<ParamValue>, p: ParamValue) -> bool {
    &&& params_sorted(after)
    &&& forall|q: ParamValue| #[trigger]
        after.contains(q) <==> (q == p || (before.contains(q) && param_key(q) != param_key(p)))
    &&& before.len() <= after.len() <= before.len() + 1
}

/// Merge one parameter-value reply into the collection: an entry with the
/// same decoded identifier is replaced, any other name is inserted at its
/// sorted position.  The collection never shrinks and stays strictly
/// sorted by decoded identifier.
pub fn upsert_parameter(params: &mut Vec<ParamValue>, p: ParamValue)
    requires
        params_sorted(old(params)@),
    ensures
        param_upserted(old(params)@, final(params)@, p),
{
    let ghost orig: Seq<ParamValue> = params@;
    let key = decode_key(&p.param_id);
    let mut i: usize = 0;
    // Find the first position whose key is not strictly below the new key.
    loop
        invariant
            params@ == orig,
            key@ == param_key(p),
            params_sorted(orig),
            i <= orig.len(),
            forall|j: int| 0 <= j < i ==> lex_lt(param_key(#[trigger] orig[j]), key@),
        ensures
            i <= orig.len(),
            forall|j: int| 0 <= j < i ==> lex_lt(param_key(#[trigger] orig[j]), key@),
            i < orig.len() ==> !lex_lt(param_key(orig[i as int]), key@),
        decreases orig.len() - i,
    {
        if i >= params.len() {
            break;
        }
        let entry_key = decode_key(&params[i].param_id);
        if !bytes_lt(&entry_key, &key) {
            break;
        }
        i += 1;
    }
    if i < params.len() {
        let entry_key = decode_key(&params[i].param_id);
        if bytes_eq(&entry_key, &key) {
            // Same name: replace the entry in place.
            params.remove(i);
            params.insert(i, p);
            proof {
                lemma_upsert_replace(orig, params@, p, i as int);
            }
            return;
        }
        proof {
            lemma_lex_lt_connected(param_key(orig[i as int]), key@);
        }
    }
    params.insert(i, p);
    proof {
        lemma_upsert_insert(orig, params@, p, i as int);
    }
}

/// Law: strict sorting leaves no freedom of arrangement — two collections
/// sorted by decoded identifier that hold the same entries are the same
/// sequence.  So [`upsert_parameter`]'s contract, which fixes the
/// resulting entries and demands sorting, determines the resulting
/// sequence completely.
pub proof fn lemma_params_sorted_unique(a: Seq<ParamValue>, b: Seq<ParamValue>)
    requires
        params_sorted(a),
        params_sorted(b),
        forall|q: ParamValue|
            #![trigger a.contains(q)]
            #![trigger b.contains(q)]
            a.contains(q) <==> b.contains(q),
    ensures
        a == b,
    decreases a.len(),
{
    if a.len() == 0 {
        if b.len() > 0 {
            assert(b.contains(b[0]));
        }
        assert(a =~= b);
    } else {
        assert(a.contains(a[0]));
        assert(b.len() > 0);
        assert(a.contains(b[0]));
        assert(b.contains(a[0]));
        // The heads are equal: each collection holds the other's head, and
        // an entry sitting past the head would have a larger key.
        let ia = choose|ia: int| 0 <= ia < a.len() && a[ia] == b[0];
        let ib = choose|ib: int| 0 <= ib < b.len() && b[ib] == a[0];
        if ia > 0 && ib > 0 {
            assert(lex_lt(param_key(a[0]), param_key(a[ia])));
            assert(lex_lt(param_key(b[0]), param_key(b[ib])));
            lemma_lex_lt_transitive(param_key(a[0]), param_key(b[0]), param_key(a[0]));
            lemma_lex_lt_irreflexive(param_key(a[0]));
        }
        assert(a[0] == b[0]);
        // The tails hold the same entries: the head's key is strictly the
        // smallest, so the head occurs nowhere else.
        assert forall|q: ParamValue|
            #![trigger a.drop_first().contains(q)]
            #![trigger b.drop_first().contains(q)]
            a.drop_first().contains(q) <==> b.drop_first().contains(q) by {
            lemma_params_head_membership(a, q);
            lemma_params_head_membership(b, q);
        }
        assert(params_sorted(a.drop_first())) by {
            assert forall|x: int, y: int| 0 <= x < y < a.drop_first().len() implies lex_lt(
                param_key(#[trigger] a.drop_first()[x]),
                param_key(#[trigger] a.drop_first()[y]),
            ) by {
                assert(lex_lt(param_key(a[x + 1]), param_key(a[y + 1])));
            }
        }
        assert(params_sorted(b.drop_first())) by {
            assert forall|x: int, y: int| 0 <= x < y < b.drop_first().len() implies lex_lt(
                param_key(#[trigger] b.drop_first()[x]),
                param_key(#[trigger] b.drop_first()[y]),
            ) by {
                assert(lex_lt(param_key(b[x + 1]), param_key(b[y + 1])));
            }
        }
        lemma_params_sorted_unique(a.drop_first(), b.drop_first());
        assert forall|k: int| 0 <= k < a.len() implies a[k] == b[k] by {
            if k > 0 {
                assert(a.drop_first()[k - 1] == b.drop_first()[k - 1]);
            }
        }
        assert(a =~= b);
    }
}

/// In a sorted collection the head occurs only at the front, so the tail
/// holds exactly the other entries.
proof fn lemma_params_head_membership(a: Seq<ParamValue>, q: ParamValue)
    requires
        params_sorted(a),
        a.len() > 0,
    ensures
        a.drop_first().contains(q) <==> (a.contains(q) && q != a[0]),
{
    if a.drop_first().contains(q) {
        let idx = choose|idx: int| 0 <= idx < a.drop_first().len() && a.drop_first()[idx] == q;
        assert(a[idx + 1] == q);
        assert(a.contains(q));
        assert(lex_lt(param_key(a[0]), param_key(a[idx + 1])));
        lemma_lex_lt_neq(param_key(a[0]), param_key(q));
    }
    if a.contains(q) && q != a[0] {
        let idx = choose|idx: int| 0 <= idx < a.len() && a[idx] == q;
        assert(idx != 0);
        assert(a.drop_first()[idx - 1] == q);
        assert(a.drop_first().contains(q));
    }
}

/// Replacing the one entry that shares the new entry's key keeps the
/// collection sorted and swaps exactly that entry.
proof fn lemma_upsert_replace(orig: Seq<ParamValue>, now: Seq<ParamValue>, p: ParamValue, i: int)
    requires
        params_sorted(orig),
        0 <= i < orig.len(),
        param_key(orig[i]) == param_key(p),
        now == orig.remove(i).insert(i, p),
    ensures
        params_sorted(now),
        forall|q: ParamValue| #[trigger]
            now.contains(q) <==> (q == p || (orig.contains(q) && param_key(q) != param_key(p))),
        now.len() == orig.len(),
{
    assert(now =~= orig.update(i, p));
    assert forall|x: int, y: int| 0 <= x < y < now.len() implies lex_lt(
        param_key(now[x]),
        param_key(now[y]),
    ) by {
        assert(lex_lt(param_key(orig[x]), param_key(orig[y])));
    }
    assert forall|q: ParamValue| #[trigger]
        now.contains(q) <==> (q == p || (orig.contains(q) && param_key(q)
            != param_key(p))) by {
        if now.contains(q) {
            let idx = choose|idx: int| 0 <= idx < now.len() && now[idx] == q;
            if idx != i {
                assert(orig[idx] == q);
                assert(orig.contains(q));
                if idx < i {
                    lemma_lex_lt_neq(param_key(orig[idx]), param_key(orig[i]));
                } else {
                    lemma_lex_lt_neq(param_key(orig[i]), param_key(orig[idx]));
                }
            }
        }
        if q == p {
            assert(now[i] == q);
            assert(now.contains(q));
        }
        if orig.contains(q) && param_key(q) != param_key(p) {
            let idx = choose|idx: int| 0 <= idx < orig.len() && orig[idx] == q;
            assert(idx != i);
            assert(now[idx] == q);
            assert(now.contains(q));
        }
    }
}

/// Inserting a fresh name at its sorted position keeps the collection
/// sorted and adds exactly that entry.
proof fn lemma_upsert_insert(orig: Seq<ParamValue>, now: Seq<ParamValue>, p: ParamValue, i: int)
    requires
        params_sorted(orig),
        0 <= i <= orig.len(),
        forall|j: int| 0 <= j < i ==> lex_lt(param_key(#[trigger] orig[j]), param_key(p)),
        i < orig.len() ==> lex_lt(param_key(p), param_key(orig[i])),
        now == orig.insert(i, p),
    ensures
        params_sorted(now),
        forall|q: ParamValue| #[trigger]
            now.contains(q) <==> (q == p || (orig.contains(q) && param_key(q) != param_key(p))),
        now.len() == orig.len() + 1,
{
    assert forall|j: int| i <= j < orig.len() implies lex_lt(
        param_key(p),
        param_key(#[trigger] orig[j]),
    ) by {
        if j > i {
            lemma_lex_lt_transitive(param_key(p), param_key(orig[i]), param_key(orig[j]));
        }
    }
    assert forall|x: int, y: int| 0 <= x < y < now.len() implies lex_lt(
        param_key(now[x]),
        param_key(now[y]),
    ) by {
        if x < i && y > i {
            assert(now[x] == orig[x]);
            assert(now[y] == orig[y - 1]);
        }
    }
    assert forall|q: ParamValue| #[trigger]
        now.contains(q) <==> (q == p || (orig.contains(q) && param_key(q)
            != param_key(p))) by {
        if now.contains(q) {
            let idx = choose|idx: int| 0 <= idx < now.len() && now[idx] == q;
            if idx < i {
                assert(orig[idx] == q);
                assert(orig.contains(q));
                lemma_lex_lt_neq(param_key(q), param_key(p));
            } else if idx > i {
                assert(orig[idx - 1] == q);
                assert(orig.contains(q));
                lemma_lex_lt_neq(param_key(p), param_key(q));
            }
        }
        if q == p {
            assert(now[i] == q);
            assert(now.contains(q));
        }
        if orig.contains(q) && param_key(q) != param_key(p) {
            let idx = choose|idx: int| 0 <= idx < orig.len() && orig[idx] == q;
            if idx < i {
                assert(now[idx] == q);
            } else {
                assert(now[idx + 1] == q);
            }
            assert(now.contains(q));
        }
    }
}

} // verus!
