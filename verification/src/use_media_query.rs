//! Media query text handling.

use vstd::prelude::*;

use crate::utils::text::{occurs_at, starts_with};

verus! {

/// The query with a leading `@media ` (or `@media`) removed.
pub open spec fn stripped_media_query(q: Seq<char>) -> Seq<char> {
    if occurs_at(q, "@media "@, 0) {
        q.subrange(7, q.len() as int)
    } else if occurs_at(q, "@media"@, 0) {
        q.subrange(6, q.len() as int)
    } else {
        q
    }
}

/// A query that begins with `@media ` loses exactly those 7 characters; one
/// that begins with `@media` not followed by a space loses those 6; any
/// other query is kept whole, whatever follows.
pub proof fn lemma_media_prefix_stripped(rest: Seq<char>, q: Seq<char>)
    ensures
        stripped_media_query("@media "@ + rest) == rest,
        !(rest.len() > 0 && rest[0] == ' ') ==> stripped_media_query("@media"@ + rest) == rest,
        !occurs_at(q, "@media"@, 0) ==> stripped_media_query(q) == q,
{
    reveal_strlit("@media ");
    reveal_strlit("@media");
    let a = "@media "@ + rest;
    assert(a.subrange(0, 7) =~= "@media "@);
    assert(a.subrange(7, a.len() as int) =~= rest);
    let b = "@media"@ + rest;
    assert(b.subrange(0, 6) =~= "@media"@);
    assert(b.subrange(6, b.len() as int) =~= rest);
    if !(rest.len() > 0 && rest[0] == ' ') {
        if occurs_at(b, "@media "@, 0) {
            assert(b[6] == "@media "@[6]);
        }
    }
    if !occurs_at(q, "@media"@, 0) && occurs_at(q, "@media "@, 0) {
        assert(q.subrange(0, 6) =~= q.subrange(0, 7).subrange(0, 6));
        assert(q.subrange(0, 6) =~= "@media"@);
    }
}

/// Strip the `@media` prefix from a query string.
pub fn strip_media_prefix(query: &str) -> (r: &str)
    ensures
        r@ == stripped_media_query(query@),
{
    proof {
        reveal_strlit("@media ");
        reveal_strlit("@media");
    }
    let len = query.unicode_len();
    if starts_with(query, "@media ") {
        query.substring_char(7, len)
    } else if starts_with(query, "@media") {
        query.substring_char(6, len)
    } else {
        query
    }
}

} // verus!
