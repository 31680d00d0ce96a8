//! Seed derivation and the pseudo-random stream that drives every choice
//! of the offline content.
//!
//! A draw is a fraction in `[0, 1)` with four decimal places. It is held as
//! its numerator, a count of ten-thousandths, so that scaling a draw to a
//! range is exact integer arithmetic.

use vstd::arithmetic::div_mod::lemma_small_mod;
use vstd::prelude::*;
use vstd::utf8::encode_utf8;

use crate::text::{strings_of, texts_of};

verus! {

/// Start value of the hash.
pub const HASH_OFFSET: u32 = 2166136261;

/// Multiplier of the hash, `2^24 + 2^8 + 0x93`.
pub const HASH_PRIME: u32 = 16777619;

/// Mixed into the seed before the first draw.
pub const SEED_MASK: u32 = 0x9e3779b9;

/// Number of distinct draws: a draw is a count of ten-thousandths.
pub const DRAW_RANGE: u32 = 10000;

/// One round of the hash: fold the byte in, then multiply modulo `2^32`.
pub open spec fn hash_step(hash: u32, byte: u8) -> u32 {
    (((hash ^ (byte as u32)) as int * (HASH_PRIME as int)) % 0x1_0000_0000) as u32
}

/// The hash of a byte string: `hash_step` over every byte, first to last.
pub open spec fn hash_of(bytes: Seq<u8>) -> u32
    decreases bytes.len(),
{
    if bytes.len() == 0 {
        HASH_OFFSET
    } else {
        hash_step(hash_of(bytes.drop_last()), bytes.last())
    }
}

/// The seed of a text: the hash of its UTF-8 bytes.
pub open spec fn seed_of(text: Seq<char>) -> u32 {
    hash_of(encode_utf8(text))
}

/// One step of the generator.
pub open spec fn xorshift(state: u32) -> u32 {
    let a: u32 = state ^ (state << 13);
    let b: u32 = a ^ (a >> 17);
    b ^ (b << 5)
}

/// The generator's state after `draws` steps from `state`.
pub open spec fn state_after(state: u32, draws: nat) -> u32
    decreases draws,
{
    if draws == 0 {
        state
    } else {
        xorshift(state_after(state, (draws - 1) as nat))
    }
}

/// The draw that a state yields, in ten-thousandths.
pub open spec fn draw_of(state: u32) -> int {
    state as int % (DRAW_RANGE as int)
}

/// The `n`-th draw (counting from 1) of a generator that started in `state`.
pub open spec fn nth_draw(state: u32, n: nat) -> int {
    draw_of(state_after(state, n))
}

/// A draw scaled to `0..count`: the floor of `draw / 10000 * count`.
pub open spec fn scaled(draw: int, count: int) -> int {
    draw * count / (DRAW_RANGE as int)
}

/// `items` with the entries at `i` and `j` exchanged.
pub open spec fn swapped<A>(items: Seq<A>, i: int, j: int) -> Seq<A> {
    items.update(i, items[j]).update(j, items[i])
}

/// The rest of a shuffle: positions `i`, `i - 1`, ..., 1 are still to be
/// exchanged, each with a position at or below it that the next draw picks.
pub open spec fn shuffle_from<A>(items: Seq<A>, state: u32, i: nat) -> Seq<A>
    decreases i,
{
    if i == 0 {
        items
    } else {
        let next = xorshift(state);
        let j = scaled(draw_of(next), i as int + 1);
        shuffle_from(swapped(items, i as int, j), next, (i - 1) as nat)
    }
}

/// `items` after a full shuffle by a generator in `state`.
pub open spec fn shuffled<A>(items: Seq<A>, state: u32) -> Seq<A> {
    if items.len() == 0 {
        items
    } else {
        shuffle_from(items, state, (items.len() - 1) as nat)
    }
}

/// Number of draws that a shuffle of `len` items takes.
pub open spec fn shuffle_draws(len: nat) -> nat {
    if len == 0 {
        0
    } else {
        (len - 1) as nat
    }
}

/// A scaled draw stays inside its range.
pub proof fn lemma_scaled_in_range(draw: int, count: int)
    requires
        0 <= draw < DRAW_RANGE,
        0 < count,
    ensures
        0 <= scaled(draw, count) < count,
{
    assert(0 <= draw * count < 10000 * count) by (nonlinear_arith)
        requires
            0 <= draw < 10000,
            0 < count,
    ;
}

/// The hash step as a sum of shifts: multiplying by the prime is adding
/// the value shifted left by 0, 1, 4, 7, 8 and 24 bits, all modulo `2^32`.
pub proof fn lemma_hash_step_by_shifts(hash: u32, byte: u8)
    ensures
        hash_step(hash, byte) == ({
            let x: u32 = hash ^ (byte as u32);
            ((x as int + (x << 1) as int + (x << 4) as int + (x << 7) as int + (x << 8) as int + (x
                << 24) as int) % 0x1_0000_0000) as u32
        }),
{
    let x: u32 = hash ^ (byte as u32);
    assert((x * 16777619) % 0x1_0000_0000 == (x + (x << 1) + (x << 4) + (x << 7) + (x << 8) + (x
        << 24)) % 0x1_0000_0000)
        by (bit_vector);
}

/// Splitting a run of draws in two gives the same state.
pub proof fn lemma_state_after_add(state: u32, first: nat, second: nat)
    ensures
        state_after(state_after(state, first), second) == state_after(state, first + second),
    decreases second,
{
    if second > 0 {
        lemma_state_after_add(state, first, (second - 1) as nat);
        assert(state_after(state, first + second) == xorshift(
            state_after(state, (first + second - 1) as nat),
        ));
    }
}

/// True where `order` lists every position below `len` exactly once.
pub open spec fn is_arrangement(order: Seq<int>, len: int) -> bool {
    &&& order.len() == len
    &&& forall|k: int| 0 <= k < len ==> 0 <= #[trigger] order[k] < len
    &&& forall|a: int, b: int| 0 <= a < b < len ==> #[trigger] order[a] != #[trigger] order[b]
}

/// The entries of `items` in the order that `order` lists their positions.
pub open spec fn arranged<A>(items: Seq<A>, order: Seq<int>) -> Seq<A> {
    Seq::new(order.len(), |k: int| items[order[k]])
}

/// The positions `0, 1, ..., len - 1`.
pub open spec fn positions(len: nat) -> Seq<int> {
    Seq::new(len, |k: int| k)
}

/// The order in which a shuffle of `len` items by a generator in `state`
/// leaves the positions they started in.
pub open spec fn shuffle_order(len: nat, state: u32) -> Seq<int> {
    shuffled(positions(len), state)
}

proof fn lemma_shuffle_from_rearranges<A>(items: Seq<A>, order: Seq<int>, state: u32, i: nat)
    requires
        is_arrangement(order, items.len() as int),
        i < items.len(),
    ensures
        is_arrangement(shuffle_from(order, state, i), items.len() as int),
        shuffle_from(arranged(items, order), state, i) == arranged(
            items,
            shuffle_from(order, state, i),
        ),
    decreases i,
{
    if i > 0 {
        let next = xorshift(state);
        let j = scaled(draw_of(next), i as int + 1);
        lemma_scaled_in_range(draw_of(next), i as int + 1);
        let exchanged = swapped(order, i as int, j);
        assert(is_arrangement(exchanged, items.len() as int)) by {
            assert forall|a: int, b: int| 0 <= a < b < items.len() implies #[trigger] exchanged[a]
                != #[trigger] exchanged[b] by {
                let from_a = if a == i { j } else if a == j { i as int } else { a };
                let from_b = if b == i { j } else if b == j { i as int } else { b };
                assert(exchanged[a] == order[from_a]);
                assert(exchanged[b] == order[from_b]);
                assert(from_a != from_b);
                if from_a < from_b {
                    assert(order[from_a] != order[from_b]);
                } else {
                    assert(order[from_b] != order[from_a]);
                }
            }
        }
        assert(swapped(arranged(items, order), i as int, j) =~= arranged(items, exchanged));
        lemma_shuffle_from_rearranges(items, exchanged, next, (i - 1) as nat);
    }
}

/// A shuffle only rearranges: it leaves every item of the list in it, each
/// starting position taken exactly once.
pub proof fn lemma_shuffle_rearranges<A>(items: Seq<A>, state: u32)
    ensures
        is_arrangement(shuffle_order(items.len(), state), items.len() as int),
        shuffled(items, state) == arranged(items, shuffle_order(items.len(), state)),
        shuffled(items, state).len() == items.len(),
{
    let start = positions(items.len());
    assert(arranged(items, start) =~= items);
    if items.len() > 0 {
        lemma_shuffle_from_rearranges(items, start, state, (items.len() - 1) as nat);
    } else {
        assert(shuffled(items, state) =~= arranged(items, shuffle_order(items.len(), state)));
    }
}

/// Hashes a text to its 32-bit seed.
pub fn seeded_hash(value: &str) -> (hash: u32)
    ensures
        hash == seed_of(value@),
{
    let bytes = value.as_bytes();
    let mut hash: u32 = HASH_OFFSET;
    let mut i: usize = 0;
    while i < bytes.len()
        invariant
            i <= bytes.len(),
            hash == hash_of(bytes@.take(i as int)),
        decreases bytes.len() - i,
    {
        let mixed: u32 = hash ^ (bytes[i] as u32);
        let product: u64 = (mixed as u64) * (HASH_PRIME as u64);
        proof {
            assert(bytes@.take(i + 1).drop_last() =~= bytes@.take(i as int));
        }
        hash = (product % 0x1_0000_0000u64) as u32;
        i += 1;
    }
    proof {
        assert(bytes@.take(i as int) =~= bytes@);
    }
    hash
}

/// The pseudo-random stream. Its view is the current 32-bit state.
pub struct SeededRng {
    state: u32,
}

impl View for SeededRng {
    type V = u32;

    closed spec fn view(&self) -> u32 {
        self.state
    }
}

impl SeededRng {
    /// A generator for `seed`.
    pub fn new(seed: u32) -> (rng: Self)
        ensures
            rng@ == seed ^ SEED_MASK,
    {
        Self { state: seed ^ SEED_MASK }
    }

    /// Advances the generator and returns the draw of the new state.
    pub fn next(&mut self) -> (draw: u32)
        ensures
            final(self)@ == xorshift(old(self)@),
            draw == draw_of(final(self)@),
            draw < DRAW_RANGE,
    {
        self.state ^= self.state << 13;
        self.state ^= self.state >> 17;
        self.state ^= self.state << 5;
        self.state % DRAW_RANGE
    }
}

/// Scales a fresh draw of `rng` to an index below `count`.
pub fn draw_index(rng: &mut SeededRng, count: usize) -> (index: usize)
    requires
        count > 0,
    ensures
        final(rng)@ == xorshift(old(rng)@),
        index == scaled(draw_of(final(rng)@), count as int),
        index < count,
{
    let draw: u32 = rng.next();
    proof {
        lemma_scaled_in_range(draw as int, count as int);
        assert(draw as int * count as int <= 10000 * 0xffff_ffff_ffff_ffff) by (nonlinear_arith)
            requires
                0 <= draw < 10000,
                0 < count <= 0xffff_ffff_ffff_ffff,
        ;
    }
    let index: u128 = (draw as u128) * (count as u128) / (DRAW_RANGE as u128);
    index as usize
}

/// Picks one of `values` with the next draw of `rng`.
pub fn pick<'a>(rng: &mut SeededRng, values: &'a [&str]) -> (choice: &'a str)
    requires
        values@.len() > 0,
    ensures
        final(rng)@ == xorshift(old(rng)@),
        choice@ == texts_of(values@)[scaled(draw_of(final(rng)@), values@.len() as int)],
{
    let index: usize = draw_index(rng, values.len());
    proof {
        lemma_small_mod(index as nat, values@.len());
    }
    values[index % values.len()]
}

/// Picks one of `values` with the next draw of `rng` and returns a copy of it.
pub fn pick_string(rng: &mut SeededRng, values: &[String]) -> (choice: String)
    requires
        values@.len() > 0,
    ensures
        final(rng)@ == xorshift(old(rng)@),
        choice@ == strings_of(values@)[scaled(draw_of(final(rng)@), values@.len() as int)],
{
    let index: usize = draw_index(rng, values.len());
    proof {
        lemma_small_mod(index as nat, values@.len());
    }
    values[index % values.len()].clone()
}

/// Shuffles `values` in place: from the last position down to the second,
/// each is exchanged with a position at or below it that the next draw picks.
pub fn shuffle(rng: &mut SeededRng, values: &mut Vec<&str>)
    ensures
        texts_of(final(values)@) == shuffled(texts_of(old(values)@), old(rng)@),
        final(rng)@ == state_after(old(rng)@, shuffle_draws(old(values)@.len())),
        final(values)@.len() == old(values)@.len(),
{
    let len: usize = values.len();
    if len == 0 {
        return ;
    }
    let ghost start: u32 = rng@;
    let ghost initial: Seq<Seq<char>> = texts_of(values@);
    let mut i: usize = len - 1;
    while i > 0
        invariant
            0 <= i < len,
            values@.len() == len,
            initial.len() == len,
            shuffle_from(texts_of(values@), rng@, i as nat) == shuffled(initial, start),
            rng@ == state_after(start, (len - 1 - i) as nat),
        decreases i,
    {
        let ghost before: Seq<Seq<char>> = texts_of(values@);
        let j: usize = draw_index(rng, i + 1);
        let upper: &str = values[i];
        let lower: &str = values[if j < i { j } else { i }];
        values.set(i, lower);
        values.set(if j < i { j } else { i }, upper);
        proof {
            assert(texts_of(values@) =~= swapped(before, i as int, j as int));
        }
        i -= 1;
    }
}

} // verus!
