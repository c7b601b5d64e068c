//! The functions of the host's `demo` namespace, and the state that they share.
//! As in `modhandlers`, access to the mod's memory and to the console is the
//! caller's; these functions compute what is written, printed or kept.
use vstd::prelude::*;
use vstd::utf8::{decode_utf8, decode_utf8_encode_utf8, encode_utf8, valid_utf8};
use crate::rng::{
    thread_rng, thread_rng_fill_bytes, thread_rng_gen_bool, thread_rng_next_u32, thread_rng_next_u64,
};
use crate::text::{line_bytes, queued_line, string_from_utf8};
use crate::transfer::{arbitrary_status, status_of, ReceiveArbitraryResult};

verus! {

/// The size in bytes of the buffer that [`send_big_buffer`] fills.
pub const BIG_BUFFER_LEN: usize = 104857600;

/// The number of words in the buffer that [`rand_buffer`] fills.
pub const RAND_BUFFER_WORDS: usize = 24;

/// What the `demo` functions share for one mod.
pub struct ModEnvData {
    /// How many times the mod called [`info_fn`].
    pub counterfn_count: u32,
    /// Data prepared for the mod to fetch with [`send_arbitrary`].
    pub queued_arbitrary: Option<Vec<u8>>,
}

/// Counts a call: returns the count before it (to be shown), and the counter goes
/// up by one. The counter must not be at `u32::MAX`, where the increment would
/// overflow.
pub fn info_fn(env: &mut ModEnvData) -> (shown: u32)
    requires
        old(env).counterfn_count < u32::MAX,
    ensures
        shown == old(env).counterfn_count,
        final(env).counterfn_count == old(env).counterfn_count + 1,
        final(env).queued_arbitrary == old(env).queued_arbitrary,
{
    let shown = env.counterfn_count;
    env.counterfn_count = env.counterfn_count + 1;
    shown
}

/// A random number from the thread's generator.
pub fn rand() -> u64 {
    let mut rng = thread_rng();
    thread_rng_next_u64(&mut rng)
}

/// Whether `num3` divides `num1 + num2`, as a byte: 1 if it does, else 0.
/// `num3` must not be zero, where the remainder is undefined.
pub fn hostmath(num1: u8, num2: i16, num3: u8) -> (r: u8)
    requires
        num3 != 0,
    ensures
        r == (if (num1 + num2) % (num3 as int) == 0 {
            1u8
        } else {
            0u8
        }),
{
    let sum: i32 = num1 as i32 + num2 as i32;
    let m: i32 = num3 as i32;
    // the remainder is zero exactly when that of |sum| is
    let magnitude: i32 = if sum < 0 {
        -sum
    } else {
        sum
    };
    let math = magnitude % m == 0;
    proof {
        let s = sum as int;
        let k = m as int;
        if s < 0 {
            assert((s % k == 0) == ((-s) % k == 0)) by (nonlinear_arith)
                requires
                    k > 0,
                    s < 0,
            {
                if s % k == 0 {
                    let q = s / k;
                    assert(-s == (-q) * k);
                    vstd::arithmetic::div_mod::lemma_mod_multiples_basic(-q, k);
                }
                if (-s) % k == 0 {
                    let q = (-s) / k;
                    assert(s == (-q) * k);
                    vstd::arithmetic::div_mod::lemma_mod_multiples_basic(-q, k);
                }
            }
        }
    }
    if math {
        1
    } else {
        0
    }
}

/// Two random values from the thread's generator: a number, and a flag as a
/// byte (0 or 1).
pub fn rand_2() -> (r: (u32, u8))
    ensures
        r.1 == 0 || r.1 == 1,
{
    let mut rng = thread_rng();
    let num = thread_rng_next_u32(&mut rng);
    let flag = thread_rng_gen_bool(&mut rng);
    (num, if flag {
        1
    } else {
        0
    })
}

/// What the host prints for a string that a mod passed, given the bytes read
/// from its memory (`None` where they lie outside it).
pub open spec fn printed_text(bytes: Option<Seq<u8>>) -> Seq<char> {
    match bytes {
        Some(b) if valid_utf8(b) => decode_utf8(b),
        _ => "I was going to say something - but the string I passed was invalid."@,
    }
}

/// A string that a mod passed, of any length, is printed so that its UTF-8
/// encoding is exactly the bytes read; the notice stands only for bytes that
/// are missing or not UTF-8.
pub proof fn law_print_shows_the_string(b: Seq<u8>)
    ensures
        valid_utf8(b) ==> encode_utf8(printed_text(Some(b))) == b,
        !valid_utf8(b) ==> printed_text(Some(b)) == printed_text(None),
        printed_text(None)
            == "I was going to say something - but the string I passed was invalid."@,
{
    if valid_utf8(b) {
        decode_utf8_encode_utf8(b);
    }
}

/// The text to print for a string that a mod passed: the string when its bytes
/// lie in the mod's memory and are UTF-8, else a notice.
pub fn print(bytes: Option<Vec<u8>>) -> (r: String)
    ensures
        r@ == printed_text(
            match bytes {
                Some(b) => Some(b@),
                None => None,
            },
        ),
{
    let decoded = match bytes {
        Some(b) => string_from_utf8(b),
        None => None,
    };
    match decoded {
        Some(s) => s,
        None => String::from_str("I was going to say something - but the string I passed was invalid."),
    }
}

/// Words from the thread's generator for a mod's buffer of
/// [`RAND_BUFFER_WORDS`] words.
pub fn rand_buffer() -> (r: Vec<u64>)
    ensures
        r@.len() == RAND_BUFFER_WORDS,
{
    let mut rng = thread_rng();
    let mut r: Vec<u64> = Vec::new();
    for i in 0..RAND_BUFFER_WORDS
        invariant
            r@.len() == i,
    {
        r.push(thread_rng_next_u64(&mut rng));
    }
    r
}

/// Random bytes for a mod's buffer of [`BIG_BUFFER_LEN`] bytes.
pub fn send_big_buffer() -> (r: Vec<u8>)
    ensures
        r@.len() == BIG_BUFFER_LEN,
{
    let mut data: Vec<u8> = vec![0u8; BIG_BUFFER_LEN];
    let mut rng = thread_rng();
    thread_rng_fill_bytes(&mut rng, &mut data);
    data
}

/// Takes the prepared data out of the state for the caller to write into the
/// mod's buffer; nothing stays prepared, whatever the outcome.
pub fn send_arbitrary(env: &mut ModEnvData) -> (r: Option<Vec<u8>>)
    ensures
        r == old(env).queued_arbitrary,
        final(env).queued_arbitrary is None,
        final(env).counterfn_count == old(env).counterfn_count,
{
    env.queued_arbitrary.take()
}

/// The byte that answers a mod's request for prepared data: [`status_of`] whether
/// data was prepared and whether the mod's buffer can hold it.
pub fn send_arbitrary_code(prepared: bool, fits: bool) -> (r: u8)
    ensures
        r == status_of(prepared, fits).code_of(),
{
    arbitrary_status(prepared, fits).code()
}

/// Prepares a line that the host read for the mod (without its trailing white
/// space, in UTF-8) in place of anything prepared before, and answers its length
/// in bytes (cut to 32 bits).
pub fn prepare_arbitrary_string(env: &mut ModEnvData, line: &str) -> (len: u32)
    ensures
        final(env).queued_arbitrary matches Some(b) && b@ == queued_line(line@),
        final(env).counterfn_count == old(env).counterfn_count,
        len == queued_line(line@).len() as u32,
{
    let bytes = line_bytes(line);
    let len = bytes.len() as u32;
    env.queued_arbitrary = Some(bytes);
    len
}

/// The answer to a request for prepared data: once a line was prepared, the
/// hand-over succeeds exactly where the mod's buffer can hold it; once the
/// prepared data was taken (by a hand-over, whatever its outcome), the next
/// request is answered that nothing is prepared.
pub proof fn law_prepare_then_send(fits: bool)
    ensures
        status_of(true, fits) == (if fits {
            ReceiveArbitraryResult::Sucess
        } else {
            ReceiveArbitraryResult::GenericFailure
        }),
        status_of(false, fits) == ReceiveArbitraryResult::NotPrepared,
{
}

} // verus!
