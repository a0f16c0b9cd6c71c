//! Generation of unique ids made of a prefix, a short pseudo-random base-36
//! segment and a monotonic counter.

use vstd::prelude::*;

use crate::utils::text::{decimal, push_char, push_decimal};

verus! {

/// The base-36 digit character of `d` (`0 <= d < 36`): `0`-`9`, then `a`-`z`.
pub open spec fn base36_char(d: nat) -> char {
    if d < 10 {
        (48 + d) as char
    } else {
        (87 + d) as char
    }
}

/// The base-36 digits of a positive `n`, most significant first.
pub open spec fn base36_digits(n: nat) -> Seq<char>
    decreases n,
{
    if n < 36 {
        seq![base36_char(n)]
    } else {
        base36_digits(n / 36).push(base36_char(n % 36))
    }
}

/// The base-36 text of `n`: its digits, or `"0000"` for zero.
pub open spec fn base36_text(n: nat) -> Seq<char> {
    if n == 0 {
        seq!['0', '0', '0', '0']
    } else {
        base36_digits(n)
    }
}

/// One step of the xorshift generator: `s ^= s << 13; s ^= s >> 7;
/// s ^= s << 17` on 64-bit words.
pub open spec fn xorshift(s: u64) -> u64 {
    let a = s ^ (s << 13u64);
    let b = a ^ (a >> 7u64);
    b ^ (b << 17u64)
}

/// The random segment drawn from a generator state: the first four (or
/// fewer) base-36 characters of the next xorshift value.
pub open spec fn random_segment(next_seed: u64) -> Seq<char> {
    let t = base36_text(next_seed as nat);
    if t.len() < 4 {
        t
    } else {
        t.take(4)
    }
}

/// A generated id: prefix, `-`, random segment, `-`, counter.
pub open spec fn id_text(prefix: Seq<char>, random: Seq<char>, count: nat) -> Seq<char> {
    prefix + seq!['-'] + random + seq!['-'] + decimal(count)
}

/// The initial seed of the pseudo-random segment generator.
pub const INITIAL_SEED: u64 = 0x12345678_9ABCDEF0u64;

/// The state behind `generate_id`: the number of ids issued so far and the
/// seed of the random segment generator.
pub struct IdGenerator {
    pub counter: u64,
    pub seed: u64,
}

impl IdGenerator {
    /// A generator that has issued no id.
    pub fn new() -> (g: Self)
        ensures
            g.counter == 0,
            g.seed == INITIAL_SEED,
    {
        IdGenerator { counter: 0, seed: INITIAL_SEED }
    }
}

/// Appends the base-36 digits of a positive `n` to `out`.
fn push_base36(out: &mut Vec<char>, n: u64)
    requires
        n > 0,
    ensures
        final(out)@ == old(out)@ + base36_digits(n as nat),
    decreases n,
{
    if n >= 36 {
        push_base36(out, n / 36);
    }
    let d: u64 = n % 36;
    let c: char = if d < 10 {
        ((48 + d) as u8) as char
    } else {
        ((87 + d) as u8) as char
    };
    out.push(c);
}

/// The base-36 characters of `n` (`"0000"` for zero).
fn base36_chars(n: u64) -> (v: Vec<char>)
    ensures
        v@ == base36_text(n as nat),
{
    let mut v: Vec<char> = Vec::new();
    if n == 0 {
        v.push('0');
        v.push('0');
        v.push('0');
        v.push('0');
        assert(v@ =~= seq!['0', '0', '0', '0']);
    } else {
        push_base36(&mut v, n);
        assert(v@ =~= base36_digits(n as nat));
    }
    v
}

/// Lowercase base-36 text of `n`; zero is rendered as `"0000"`.
pub fn format_base36(n: u64) -> (s: String)
    ensures
        s@ == base36_text(n as nat),
{
    let chars = base36_chars(n);
    let mut s = String::new();
    let mut i: usize = 0;
    while i < chars.len()
        invariant
            i <= chars@.len(),
            s@ == chars@.take(i as int),
        decreases chars@.len() - i,
    {
        push_char(&mut s, chars[i]);
        assert(chars@.take(i + 1) =~= chars@.take(i as int).push(chars@[i as int]));
        i = i + 1;
    }
    assert(chars@.take(chars@.len() as int) =~= chars@);
    s
}

/// Advances the seed by one xorshift step and returns the first four
/// base-36 characters of the new seed.
pub fn pseudo_random_base36(g: &mut IdGenerator) -> (s: String)
    ensures
        final(g).seed == xorshift(old(g).seed),
        final(g).counter == old(g).counter,
        s@ == random_segment(final(g).seed),
{
    let mut s: u64 = g.seed;
    s = s ^ (s << 13u64);
    s = s ^ (s >> 7u64);
    s = s ^ (s << 17u64);
    g.seed = s;
    let chars = base36_chars(s);
    let take: usize = if chars.len() < 4 {
        chars.len()
    } else {
        4
    };
    let mut out = String::new();
    let mut i: usize = 0;
    while i < take
        invariant
            take <= chars@.len(),
            take == if chars@.len() < 4 {
                chars@.len()
            } else {
                4
            },
            i <= take,
            out@ == chars@.take(i as int),
        decreases take - i,
    {
        push_char(&mut out, chars[i]);
        assert(chars@.take(i + 1) =~= chars@.take(i as int).push(chars@[i as int]));
        i = i + 1;
    }
    proof {
        if chars@.len() < 4 {
            assert(chars@.take(take as int) =~= chars@);
        }
    }
    out
}

/// Generate a unique id string with the given prefix: `"prefix-a1b2-1"`,
/// where the middle segment is pseudo-random and the suffix is the number of
/// ids issued so far, this one included.
pub fn generate_id(g: &mut IdGenerator, prefix: &str) -> (id: String)
    requires
        old(g).counter < u64::MAX,
    ensures
        final(g).counter == old(g).counter + 1,
        final(g).seed == xorshift(old(g).seed),
        id@ == id_text(prefix@, random_segment(final(g).seed), final(g).counter as nat),
{
    let count = g.counter + 1;
    g.counter = count;
    let random = pseudo_random_base36(g);
    let mut id = String::from_str(prefix);
    push_char(&mut id, '-');
    id.append(random.as_str());
    push_char(&mut id, '-');
    push_decimal(&mut id, count);
    id
}

/// Every character of a base-36 rendering is an ASCII digit or lowercase
/// letter; in particular none is a `-`.
pub proof fn lemma_base36_alphabet(n: nat)
    requires
        n > 0,
    ensures
        forall|i: int|
            0 <= i < base36_digits(n).len() ==> ('0' <= #[trigger] base36_digits(n)[i] <= '9'
                || 'a' <= base36_digits(n)[i] <= 'z'),
    decreases n,
{
    if n >= 36 {
        lemma_base36_alphabet(n / 36);
        let d = base36_digits(n / 36);
        assert forall|i: int| 0 <= i < base36_digits(n).len() implies ('0'
            <= #[trigger] base36_digits(n)[i] <= '9' || 'a' <= base36_digits(n)[i] <= 'z') by {
            if i < d.len() {
                assert(base36_digits(n)[i] == d[i]);
            }
        }
    }
}

/// The random segment never contains a `-`.
pub proof fn lemma_random_segment_no_dash(seed: u64)
    ensures
        forall|i: int|
            0 <= i < random_segment(seed).len() ==> #[trigger] random_segment(seed)[i] != '-',
{
    if seed != 0 {
        lemma_base36_alphabet(seed as nat);
    }
    let t = base36_text(seed as nat);
    assert forall|i: int| 0 <= i < random_segment(seed).len() implies #[trigger] random_segment(
        seed,
    )[i] != '-' by {
        assert(random_segment(seed)[i] == t[i]);
    }
}

/// Ids generated with the same prefix and different counters differ,
/// whatever their random segments: the counter is what makes ids unique.
pub proof fn lemma_generated_ids_distinct(
    prefix: Seq<char>,
    seed1: u64,
    seed2: u64,
    count1: nat,
    count2: nat,
)
    requires
        count1 != count2,
    ensures
        id_text(prefix, random_segment(seed1), count1) != id_text(
            prefix,
            random_segment(seed2),
            count2,
        ),
{
    lemma_random_segment_no_dash(seed1);
    lemma_random_segment_no_dash(seed2);
    let r1 = random_segment(seed1);
    let r2 = random_segment(seed2);
    let a = id_text(prefix, r1, count1);
    let b = id_text(prefix, r2, count2);
    if a == b {
        let l = prefix.len() + 1;
        let rest1 = r1 + seq!['-'] + decimal(count1);
        let rest2 = r2 + seq!['-'] + decimal(count2);
        assert(a.subrange(l as int, a.len() as int) =~= rest1);
        assert(b.subrange(l as int, b.len() as int) =~= rest2);
        assert(rest1 == rest2);
        if r1.len() < r2.len() {
            assert(rest1[r1.len() as int] == '-');
            assert(rest2[r1.len() as int] == r2[r1.len() as int]);
        } else if r2.len() < r1.len() {
            assert(rest2[r2.len() as int] == '-');
            assert(rest1[r2.len() as int] == r1[r2.len() as int]);
        } else {
            let k = r1.len() + 1;
            assert(rest1.subrange(k as int, rest1.len() as int) =~= decimal(count1));
            assert(rest2.subrange(k as int, rest2.len() as int) =~= decimal(count2));
            crate::utils::text::lemma_decimal_injective(count1, count2);
        }
    }
}

/// Base-36 digits are never empty.
proof fn lemma_base36_digits_nonempty(n: nat)
    ensures
        base36_digits(n).len() >= 1,
    decreases n,
{
    if n >= 36 {
        lemma_base36_digits_nonempty(n / 36);
    }
}

/// The random segment of an id has one to four characters, each an ASCII
/// digit or lowercase letter.
pub proof fn lemma_random_segment_shape(seed: u64)
    ensures
        1 <= random_segment(seed).len() <= 4,
        forall|i: int|
            0 <= i < random_segment(seed).len() ==> ('0' <= #[trigger] random_segment(seed)[i]
                <= '9' || 'a' <= random_segment(seed)[i] <= 'z'),
{
    let t = base36_text(seed as nat);
    if seed != 0 {
        lemma_base36_alphabet(seed as nat);
        lemma_base36_digits_nonempty(seed as nat);
    }
    assert forall|i: int| 0 <= i < random_segment(seed).len() implies ('0'
        <= #[trigger] random_segment(seed)[i] <= '9' || 'a' <= random_segment(seed)[i] <= 'z') by {
        assert(random_segment(seed)[i] == t[i]);
    }
}

/// Two calls of `generate_id` with the same prefix, the second on the
/// generator the first left behind, return different ids.
pub proof fn lemma_successive_ids_distinct(prefix: Seq<char>, counter: u64, seed: u64)
    requires
        counter < u64::MAX - 1,
    ensures
        id_text(prefix, random_segment(xorshift(seed)), (counter + 1) as nat) != id_text(
            prefix,
            random_segment(xorshift(xorshift(seed))),
            (counter + 2) as nat,
        ),
{
    lemma_generated_ids_distinct(
        prefix,
        xorshift(seed),
        xorshift(xorshift(seed)),
        (counter + 1) as nat,
        (counter + 2) as nat,
    );
}

} // verus!
