//! Ids for DOM elements: an explicit override, or a prefix and a counter.

use vstd::prelude::*;

use crate::utils::text::{decimal, push_char, push_decimal};

verus! {

/// A counted id: prefix, `-`, counter.
pub open spec fn counted_id(prefix: Seq<char>, n: nat) -> Seq<char> {
    prefix + seq!['-'] + decimal(n)
}

/// The number of ids generated so far by `use_id`.
pub struct IdCounter {
    pub count: u64,
}

impl IdCounter {
    /// A counter that has generated no id.
    pub fn new() -> (c: Self)
        ensures
            c.count == 0,
    {
        IdCounter { count: 0 }
    }
}

/// Generate a unique id, or return the override if provided.
///
/// With an override the counter is untouched and the override is returned.
/// Otherwise the counter advances and the id is the prefix (`"base-ui"` by
/// default), a `-` and the new count.
pub fn use_id(counter: &mut IdCounter, id_override: Option<&str>, prefix: Option<&str>) -> (id:
    String)
    requires
        id_override is Some || old(counter).count < u64::MAX,
    ensures
        match id_override {
            Some(o) => id@ == o@ && final(counter).count == old(counter).count,
            None => final(counter).count == old(counter).count + 1 && id@ == counted_id(
                match prefix {
                    Some(p) => p@,
                    None => "base-ui"@,
                },
                final(counter).count as nat,
            ),
        },
{
    match id_override {
        Some(o) => String::from_str(o),
        None => {
            let p = match prefix {
                Some(p) => p,
                None => "base-ui",
            };
            let n = counter.count + 1;
            counter.count = n;
            let mut id = String::from_str(p);
            push_char(&mut id, '-');
            push_decimal(&mut id, n);
            id
        },
    }
}

/// Ids generated from different counts with the same prefix differ.
pub proof fn lemma_counted_ids_distinct(prefix: Seq<char>, a: nat, b: nat)
    requires
        a != b,
    ensures
        counted_id(prefix, a) != counted_id(prefix, b),
{
    if counted_id(prefix, a) == counted_id(prefix, b) {
        let l = prefix.len() + 1;
        assert(counted_id(prefix, a).subrange(l as int, counted_id(prefix, a).len() as int)
            =~= decimal(a));
        assert(counted_id(prefix, b).subrange(l as int, counted_id(prefix, b).len() as int)
            =~= decimal(b));
        crate::utils::text::lemma_decimal_injective(a, b);
    }
}

/// Two successive `use_id` calls without an override, the second on the
/// counter the first left behind, give `prefix-(n+1)` and `prefix-(n+2)`:
/// both begin with the prefix and a `-`, and they differ.
pub proof fn lemma_successive_use_ids(prefix: Seq<char>, count: nat)
    ensures
        counted_id(prefix, count + 1).take(prefix.len() + 1int) == prefix + seq!['-'],
        counted_id(prefix, count + 2).take(prefix.len() + 1int) == prefix + seq!['-'],
        counted_id(prefix, count + 1) != counted_id(prefix, count + 2),
{
    assert(counted_id(prefix, count + 1).take(prefix.len() + 1int) =~= prefix + seq!['-']);
    assert(counted_id(prefix, count + 2).take(prefix.len() + 1int) =~= prefix + seq!['-']);
    lemma_counted_ids_distinct(prefix, count + 1, count + 2);
}

} // verus!
