//! Deduplicated warnings: each distinct message is reported at most once
//! until the registry is reset.

use vstd::prelude::*;

use crate::utils::text::join_ids;

verus! {

/// The key of a warning: its messages joined by spaces.
pub open spec fn warning_key(messages: Seq<&str>) -> Seq<char> {
    join_ids(messages.map_values(|m: &str| m@))
}

/// The messages already reported.
pub struct WarnRegistry {
    seen: Vec<String>,
}

impl View for WarnRegistry {
    type V = Seq<Seq<char>>;

    closed spec fn view(&self) -> Seq<Seq<char>> {
        self.seen@.map_values(|m: String| m@)
    }
}

/// Joins the messages with single spaces.
fn join_messages(messages: &[&str]) -> (s: String)
    ensures
        s@ == warning_key(messages@),
{
    let ghost ids = messages@.map_values(|m: &str| m@);
    let mut s = String::new();
    if messages.len() == 0 {
        assert(ids =~= Seq::<Seq<char>>::empty());
        return s;
    }
    s.append(messages[0]);
    assert(ids.take(1) =~= seq![ids[0]]);
    let mut i: usize = 1;
    while i < messages.len()
        invariant
            ids == messages@.map_values(|m: &str| m@),
            1 <= i <= messages@.len(),
            s@ == join_ids(ids.take(i as int)),
        decreases messages@.len() - i,
    {
        s.append(" ");
        s.append(messages[i]);
        proof {
            reveal_strlit(" ");
            assert(ids.take(i + 1).drop_last() =~= ids.take(i as int));
        }
        i = i + 1;
    }
    assert(ids.take(ids.len() as int) =~= ids);
    s
}

impl WarnRegistry {
    /// A registry that has reported nothing.
    pub fn new() -> (r: Self)
        ensures
            r@.len() == 0,
    {
        let r = WarnRegistry { seen: Vec::new() };
        assert(r@ =~= Seq::<Seq<char>>::empty());
        r
    }

    /// Whether `key` was already reported.
    pub fn contains(&self, key: &str) -> (r: bool)
        ensures
            r == self@.contains(key@),
    {
        let k = String::from_str(key);
        let mut i: usize = 0;
        while i < self.seen.len()
            invariant
                k@ == key@,
                i <= self.seen@.len(),
                forall|j: int| 0 <= j < i ==> self@[j] != key@,
            decreases self.seen@.len() - i,
        {
            if self.seen[i] == k {
                assert(self@[i as int] == key@);
                return true;
            }
            i = i + 1;
        }
        false
    }

    /// The number of distinct messages reported.
    pub fn len(&self) -> (n: usize)
        ensures
            n == self@.len(),
    {
        self.seen.len()
    }

    /// Whether nothing was reported since the last reset.
    pub fn is_empty(&self) -> (r: bool)
        ensures
            r == (self@.len() == 0),
    {
        self.seen.len() == 0
    }

    /// Forget every reported message.
    pub fn reset(&mut self)
        ensures
            final(self)@.len() == 0,
    {
        self.seen = Vec::new();
        assert(self@ =~= Seq::<Seq<char>>::empty());
    }
}

/// Reports a warning once: the text to log, `"Base UI: "` followed by the
/// messages joined by spaces, the first time these messages are seen; `None`
/// (and nothing recorded) when they were seen before.
pub fn warn(registry: &mut WarnRegistry, messages: &[&str]) -> (r: Option<String>)
    ensures
        old(registry)@.contains(warning_key(messages@)) ==> r is None && final(registry)@ == old(registry)@,
        !old(registry)@.contains(warning_key(messages@)) ==> final(registry)@ == old(registry)@.push(warning_key(messages@)) && r is Some && r->0@ == "Base UI: "@ + warning_key(
            messages@,
        ),
{
    let key = join_messages(messages);
    if registry.contains(key.as_str()) {
        return None;
    }
    let mut text = String::from_str("Base UI: ");
    text.append(key.as_str());
    registry.seen.push(key);
    assert(registry@ =~= old(registry)@.push(warning_key(messages@)));
    Some(text)
}

/// Reset the deduplication set.
pub fn reset(registry: &mut WarnRegistry)
    ensures
        final(registry)@.len() == 0,
{
    registry.reset();
}

/// Once a warning has been reported, reporting it again is silent until
/// the registry is reset.
pub proof fn lemma_warn_once(seen: Seq<Seq<char>>, key: Seq<char>)
    requires
        !seen.contains(key),
    ensures
        seen.push(key).contains(key),
        seen.push(key).len() == seen.len() + 1,
{
    assert(seen.push(key)[seen.len() as int] == key);
}

} // verus!
