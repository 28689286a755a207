use vstd::prelude::*;
use crate::contract::{
    accepted_count, authorized, issue_spec, key_matches, read_spec, record_all, record_spec, Model,
};
use crate::viewing_key::{compare_steps, key_digest, VIEWING_KEY_SIZE};

verus! {

/// Issuing a new key to `who` retires the previous one at once: afterwards the old key no
/// longer opens `who`'s record (unless the two keys share a digest), and the new one does.
pub proof fn lemma_new_key_retires_old(m: Model, who: Seq<u8>, old_key: Seq<char>, new_key: Seq<char>)
    requires
        key_digest(old_key) != key_digest(new_key),
    ensures
        !authorized(issue_spec(issue_spec(m, who, old_key), who, new_key), seq![who], old_key),
        authorized(issue_spec(issue_spec(m, who, old_key), who, new_key), seq![who], new_key),
{
    let m2 = issue_spec(issue_spec(m, who, old_key), who, new_key);
    let cands = seq![who];
    assert(key_matches(m2, cands[0], new_key));
    assert forall|i: int| 0 <= i < cands.len() implies !key_matches(m2, #[trigger] cands[i], old_key) by {
        assert(cands[i] == who);
    }
}

/// The write counter grows by exactly the number of accepted writes in a run of record
/// calls, overwrites included; writes over the ceiling leave it as it was.
pub proof fn lemma_count_tracks_accepted_writes(m: Model, calls: Seq<(Seq<u8>, Seq<char>, u64)>)
    ensures
        record_all(m, calls).count == m.count + accepted_count(m.max_size, calls),
        record_all(m, calls).max_size == m.max_size,
    decreases calls.len(),
{
    if calls.len() > 0 {
        let m1 = record_spec(m, calls[0].0, calls[0].1, calls[0].2);
        lemma_count_tracks_accepted_writes(m1, calls.drop_first());
    }
}

/// What an identity reads of its own record does not depend on any credential.
pub proof fn lemma_self_read_ignores_credentials(m: Model, who: Seq<u8>, credentials: Map<Seq<u8>, Seq<u8>>)
    ensures
        read_spec(Model { credentials, ..m }, who) == read_spec(m, who),
{
}

/// A key opens `who`'s record exactly when its digest is the credential stored for `who`; with
/// no credential stored, no key does. A key just issued to `who` opens it.
pub proof fn lemma_authentication_sound(m: Model, who: Seq<u8>, key: Seq<char>)
    ensures
        authorized(m, seq![who], key) <==> (m.credentials.contains_key(who) && m.credentials[who]
            == key_digest(key)),
        !m.credentials.contains_key(who) ==> !authorized(m, seq![who], key),
        authorized(issue_spec(m, who, key), seq![who], key),
{
    let cands = seq![who];
    if authorized(m, cands, key) {
        let i = choose|i: int| 0 <= i < cands.len() && key_matches(m, #[trigger] cands[i], key);
        assert(cands[i] == who);
    }
    if key_matches(m, who, key) {
        assert(key_matches(m, cands[0], key));
    }
    assert(key_matches(issue_spec(m, who, key), cands[0], key));
}

/// Checking a key costs the same number of byte comparisons whether the identity has no
/// credential (the check runs against a decoy of a credential's length) or has one that the
/// key does not match.
pub proof fn lemma_check_cost_uniform(stored: Seq<u8>, decoy: Seq<u8>)
    requires
        stored.len() == VIEWING_KEY_SIZE,
        decoy.len() == VIEWING_KEY_SIZE,
    ensures
        compare_steps(VIEWING_KEY_SIZE as nat, stored.len()) == compare_steps(
            VIEWING_KEY_SIZE as nat,
            decoy.len(),
        ),
        compare_steps(VIEWING_KEY_SIZE as nat, stored.len()) == VIEWING_KEY_SIZE,
{
}

} // verus!
