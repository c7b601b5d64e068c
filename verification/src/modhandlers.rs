//! The functions that the host offers to mods under the `game` namespace, and the
//! state that it keeps for a running mod. Reading and writing the mod's memory,
//! and the console, are the caller's: these functions compute what is written,
//! printed or kept.
use rand::rngs::SmallRng;
use vstd::prelude::*;
use crate::result_with_length;
use crate::result_with_length::packed;
use crate::rng::{small_rng_next_u64, small_rng_seed_from_u64, thread_rng, thread_rng_next_u64};
use crate::text::{line_bytes, queued_line};

pub use crate::escape::print;

verus! {

/// What the host keeps for one running mod.
pub struct ModWasmState {
    /// Bytes waiting for the mod to fetch them with [`bulkdump`].
    pub memory_sendbuf: Option<Vec<u8>>,
    /// How many times the mod called [`fncounter`].
    pub fncounter_count: i32,
    /// The generator behind [`rand64`], seeded once per mod.
    pub rand: SmallRng,
}

impl ModWasmState {
    /// A fresh state: nothing queued, the counter at zero, and a generator seeded
    /// from the thread's generator.
    pub fn new() -> (s: Self)
        ensures
            s.memory_sendbuf is None,
            s.fncounter_count == 0,
    {
        let mut seeder = thread_rng();
        let seed = thread_rng_next_u64(&mut seeder);
        ModWasmState { memory_sendbuf: None, fncounter_count: 0, rand: small_rng_seed_from_u64(seed) }
    }
}

/// One call of [`fncounter`] on `pre`, leaving `post` and returning `count`: the
/// counter goes up by one and its new value is returned; the queued bytes and
/// the generator stay.
pub open spec fn fncounter_step(pre: ModWasmState, post: ModWasmState, count: i32) -> bool {
    &&& post.fncounter_count == pre.fncounter_count + 1
    &&& count == post.fncounter_count
    &&& post.memory_sendbuf == pre.memory_sendbuf
    &&& post.rand == pre.rand
}

/// Counts a call: the counter goes up by one and its new value is returned (to
/// be shown). The counter must not be at `i32::MAX`, where the increment would
/// overflow.
pub fn fncounter(env: &mut ModWasmState) -> (count: i32)
    requires
        old(env).fncounter_count < i32::MAX,
    ensures
        fncounter_step(*old(env), *final(env), count),
{
    env.fncounter_count = env.fncounter_count + 1;
    env.fncounter_count
}

/// Counting starts at zero with a fresh state, so the `k`-th call of
/// [`fncounter`] returns `k` and, after `n` calls, the counter is at `n`.
pub proof fn law_fncounter_counts_calls(states: Seq<ModWasmState>, counts: Seq<i32>)
    requires
        states.len() == counts.len() + 1,
        states[0].fncounter_count == 0,
        forall|k: int|
            0 <= k < counts.len() ==> fncounter_step(#[trigger] states[k], states[k + 1], counts[k]),
    ensures
        forall|k: int| 0 <= k < counts.len() ==> #[trigger] counts[k] == k + 1,
        states.last().fncounter_count == counts.len(),
    decreases counts.len(),
{
    if counts.len() > 0 {
        let n = counts.len() - 1;
        law_fncounter_counts_calls(states.drop_last(), counts.drop_last());
        assert(fncounter_step(states[n], states[n + 1], counts[n]));
        assert(states.drop_last().last() == states[n]);
        assert forall|k: int| 0 <= k < counts.len() implies #[trigger] counts[k] == k + 1 by {
            if k < n {
                assert(counts.drop_last()[k] == counts[k]);
            }
        }
    }
}

/// The next number of the mod's generator. The counter and the queued bytes stay.
pub fn rand64(env: &mut ModWasmState) -> (r: u64)
    ensures
        final(env).fncounter_count == old(env).fncounter_count,
        final(env).memory_sendbuf == old(env).memory_sendbuf,
{
    small_rng_next_u64(&mut env.rand)
}

/// The 128-bit value that the host hands a mod that asks for one.
pub fn recv128() -> (r: u128)
    ensures
        r == 0x001122334455667788_99aabbccddeeffu128,
{
    0x001122334455667788_99aabbccddeeff
}

/// What [`getline`] answers for `line`: success, and the number of bytes queued
/// (cut to 32 bits).
pub open spec fn getline_reply(line: Seq<char>) -> u64 {
    packed(1, queued_line(line).len() as u32) as u64
}

/// Queues a line that the host read for the mod (without its trailing white
/// space, in UTF-8) in place of whatever was queued, and answers success with the
/// queued length.
pub fn getline(env: &mut ModWasmState, line: &str) -> (r: u64)
    ensures
        final(env).memory_sendbuf matches Some(b) && b@ == queued_line(line@),
        final(env).fncounter_count == old(env).fncounter_count,
        final(env).rand == old(env).rand,
        r == getline_reply(line@),
{
    let bytes = line_bytes(line);
    let len = bytes.len();
    env.memory_sendbuf = Some(bytes);
    result_with_length::new(1, len as u32)
}

/// Takes the queued bytes out of the state for the caller to write into the mod's
/// memory; nothing stays queued. `None` when nothing was queued.
pub fn bulkdump(env: &mut ModWasmState) -> (r: Option<Vec<u8>>)
    ensures
        r == old(env).memory_sendbuf,
        final(env).memory_sendbuf is None,
        final(env).fncounter_count == old(env).fncounter_count,
        final(env).rand == old(env).rand,
{
    env.memory_sendbuf.take()
}

/// What a mod decodes from the answer to `getline` is success and the length
/// (cut to 32 bits) of the bytes that `bulkdump` then hands over.
pub proof fn law_getline_reply(line: Seq<char>)
    ensures
        result_with_length::packed_ok(getline_reply(line)),
        result_with_length::packed_len(getline_reply(line)) == queued_line(line).len() as u32,
{
    result_with_length::law_split_new(1, queued_line(line).len() as u32);
}

} // verus!
