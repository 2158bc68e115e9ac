//! Leader election: the node whose public key stands first in the ordered
//! admin-key list is the one submitter of the bootstrap batch.

use vstd::prelude::*;

verus! {

/// A node is the submitter exactly when the admin list is non-empty and its
/// first entry equals the node's public key.
pub open spec fn spec_is_submitter(public_key: Seq<char>, admin_keys: Seq<Seq<char>>) -> bool {
    admin_keys.len() > 0 && admin_keys[0] == public_key
}

/// Decides whether the local node submits the bootstrap batch.
pub fn is_submitter(public_key: &String, admin_keys: &Vec<String>) -> (r: bool)
    ensures
        r == spec_is_submitter(public_key@, admin_keys.deep_view()),
{
    if admin_keys.len() == 0 {
        false
    } else {
        let first: &String = &admin_keys[0];
        first.eq(public_key)
    }
}

/// At most one key proceeds past leader election: two distinct keys are never
/// both submitters for the same admin list.
pub proof fn lemma_at_most_one_submitter(a: Seq<char>, b: Seq<char>, admin_keys: Seq<Seq<char>>)
    requires
        a != b,
    ensures
        !(spec_is_submitter(a, admin_keys) && spec_is_submitter(b, admin_keys)),
{
}

/// The node holding the first admin key does submit: with the lemma above,
/// exactly one key in a non-empty list proceeds past leader election.
pub proof fn lemma_first_key_submits(admin_keys: Seq<Seq<char>>)
    requires
        admin_keys.len() > 0,
    ensures
        spec_is_submitter(admin_keys[0], admin_keys),
{
}

/// With an empty admin list, no node submits.
pub proof fn lemma_empty_list_no_submitter(k: Seq<char>)
    ensures
        !spec_is_submitter(k, Seq::<Seq<char>>::empty()),
{
}

} // verus!
