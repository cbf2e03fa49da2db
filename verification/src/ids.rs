//! Identifiers: nodes, connectors, connections, stills, videos and projects
//! are named by 128-bit UUID values, written in hyphenated hexadecimal form.

use vstd::prelude::*;
use vstd::arithmetic::power::{lemma_pow_positive, pow};
use vstd::arithmetic::div_mod::{lemma_div_denominator, lemma_fundamental_div_mod};

verus! {

/// A lower-case hexadecimal digit.
pub open spec fn hex_char(d: int) -> char {
    if d < 10 {
        (48 + d) as char
    } else {
        (87 + d) as char
    }
}

/// The `k`-th of the 32 hexadecimal digits of `v`, most significant first.
pub open spec fn uuid_nibble(v: u128, k: int) -> int {
    (v as int / pow(16, (31 - k) as nat)) % 16
}

/// How many hyphens precede position `i` of the hyphenated form.
pub open spec fn hyphens_before(i: int) -> int {
    (if i > 8 { 1int } else { 0int }) + (if i > 13 { 1int } else { 0int }) + (if i > 18 { 1int } else { 0int }) + (if i > 23 { 1int } else { 0int })
}

/// The hyphenated form of a UUID value: `xxxxxxxx-xxxx-xxxx-xxxx-xxxxxxxxxxxx`.
pub open spec fn uuid_text(v: u128) -> Seq<char> {
    Seq::new(
        36,
        |i: int|
            if i == 8 || i == 13 || i == 18 || i == 23 {
                '-'
            } else {
                hex_char(uuid_nibble(v, i - hyphens_before(i)))
            },
    )
}

/// The position in the hyphenated form of the `k`-th hexadecimal digit.
pub open spec fn digit_position(k: int) -> int {
    if k < 8 {
        k
    } else if k < 12 {
        k + 1
    } else if k < 16 {
        k + 2
    } else if k < 20 {
        k + 3
    } else {
        k + 4
    }
}

proof fn lemma_prefix_step(v: int, m: nat)
    requires
        v >= 0,
    ensures
        v / pow(16, m) == (v / pow(16, m + 1)) * 16 + (v / pow(16, m)) % 16,
{
    lemma_pow_positive(16, m);
    assert(pow(16, m + 1) == 16 * pow(16, m)) by {
        reveal(pow);
    }
    lemma_div_denominator(v, pow(16, m), 16);
    assert(pow(16, m) * 16 == pow(16, m + 1)) by (nonlinear_arith)
        requires
            pow(16, m + 1) == 16 * pow(16, m),
    ;
    lemma_fundamental_div_mod(v / pow(16, m), 16);
}

proof fn lemma_nibbles_determine(a: u128, b: u128, m: nat)
    requires
        m <= 32,
        forall|k: int| 0 <= k < m ==> uuid_nibble(a, k) == uuid_nibble(b, k),
    ensures
        a as int / pow(16, (32 - m) as nat) == b as int / pow(16, (32 - m) as nat),
    decreases m,
{
    if m == 0 {
        assert(pow(16, 32) == 0x1_0000_0000_0000_0000_0000_0000_0000_0000int) by {
            reveal_with_fuel(pow, 33);
        }
        assert(a as int / pow(16, 32) == 0);
        assert(b as int / pow(16, 32) == 0);
    } else {
        lemma_nibbles_determine(a, b, (m - 1) as nat);
        let e = (32 - m) as nat;
        lemma_prefix_step(a as int, e);
        lemma_prefix_step(b as int, e);
        assert(uuid_nibble(a, m - 1) == uuid_nibble(b, m - 1));
        assert((31 - (m - 1)) as nat == e);
    }
}

/// Different identifiers are written differently: the hyphenated form of a
/// UUID value determines the value.
pub proof fn lemma_uuid_text_injective(a: u128, b: u128)
    requires
        uuid_text(a) == uuid_text(b),
    ensures
        a == b,
{
    assert forall|k: int| 0 <= k < 32 implies uuid_nibble(a, k) == uuid_nibble(b, k) by {
        let p = digit_position(k);
        assert(0 <= p < 36);
        assert(p != 8 && p != 13 && p != 18 && p != 23);
        assert(p - hyphens_before(p) == k);
        assert(uuid_text(a)[p] == hex_char(uuid_nibble(a, k)));
        assert(uuid_text(b)[p] == hex_char(uuid_nibble(b, k)));
        assert(uuid_text(a)[p] == uuid_text(b)[p]);
        lemma_pow_positive(16, (31 - k) as nat);
        let x = uuid_nibble(a, k);
        let y = uuid_nibble(b, k);
        assert(0 <= x < 16 && 0 <= y < 16);
        assert(hex_char(x) == hex_char(y));
        assert((hex_char(x) as int) == if x < 10 { 48 + x } else { 87 + x });
        assert((hex_char(y) as int) == if y < 10 { 48 + y } else { 87 + y });
    }
    lemma_nibbles_determine(a, b, 32);
    assert(pow(16, 0) == 1) by {
        reveal(pow);
    }
}

/// Identifiers drawn in advance for the values about to be made: each new
/// node, connector, connection, still or project takes the last one.
#[derive(Debug, Clone)]
pub struct FreshIds {
    ids: Vec<u128>,
}

impl View for FreshIds {
    type V = Seq<u128>;

    closed spec fn view(&self) -> Seq<u128> {
        self.ids@
    }
}

/// The first `k` identifiers taken from `pool`, in the order taken: the last
/// one first.
pub open spec fn drawn(pool: Seq<u128>, k: nat) -> Seq<u128> {
    Seq::new(k, |i: int| pool[pool.len() - 1 - i])
}

/// What is left of `pool` after `k` identifiers are taken.
pub open spec fn left_after(pool: Seq<u128>, k: nat) -> Seq<u128> {
    pool.take(pool.len() - k)
}

impl FreshIds {
    /// A supply holding the given identifiers.
    pub fn new(ids: Vec<u128>) -> (f: FreshIds)
        ensures
            f@ == ids@,
    {
        FreshIds { ids }
    }

    /// How many identifiers are left.
    pub fn len(&self) -> (n: usize)
        ensures
            n == self@.len(),
    {
        self.ids.len()
    }

    /// Takes the next identifier.
    pub fn take(&mut self) -> (id: u128)
        requires
            old(self)@.len() > 0,
        ensures
            id == old(self)@.last(),
            final(self)@ == old(self)@.drop_last(),
    {
        let id = self.ids.pop().unwrap();
        id
    }
}

/// Taking one more identifier extends what was drawn by the pool's next one.
pub proof fn lemma_draw_one(pool: Seq<u128>, k: nat)
    requires
        k < pool.len(),
    ensures
        drawn(pool, k + 1) == drawn(pool, k).push(left_after(pool, k).last()),
        left_after(pool, k + 1) == left_after(pool, k).drop_last(),
{
    assert(drawn(pool, k + 1) =~= drawn(pool, k).push(left_after(pool, k).last()));
    assert(left_after(pool, k + 1) =~= left_after(pool, k).drop_last());
}

} // verus!
