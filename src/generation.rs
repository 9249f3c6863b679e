use vstd::prelude::*;

use crate::text::{decimal, push_decimal};

verus! {

/// Number of token ids that the text encoder takes.
pub const PROMPT_TOKENS: usize = 77;

/// The end-of-text id, used for padding when the vocabulary does not name it.
pub const DEFAULT_PAD_ID: u32 = 49407;

/// A token sequence cut or padded to exactly the encoder's length.
pub open spec fn padded(tokens: Seq<u32>, pad_id: u32) -> Seq<u32> {
    if tokens.len() >= PROMPT_TOKENS {
        tokens.subrange(0, PROMPT_TOKENS as int)
    } else {
        tokens + Seq::new((PROMPT_TOKENS - tokens.len()) as nat, |_i: int| pad_id)
    }
}

/// Cuts an encoded prompt to the encoder's length, or fills it up with `pad_id`.
pub fn pad_tokens(tokens: Vec<u32>, pad_id: u32) -> (r: Vec<u32>)
    ensures
        r@ == padded(tokens@, pad_id),
        r@.len() == PROMPT_TOKENS,
{
    let mut t = tokens;
    if t.len() > PROMPT_TOKENS {
        t.truncate(PROMPT_TOKENS);
        return t;
    }
    let ghost start = t@;
    while t.len() < PROMPT_TOKENS
        invariant
            start.len() <= t@.len() <= PROMPT_TOKENS,
            t@ == start + Seq::new((t@.len() - start.len()) as nat, |_i: int| pad_id),
        decreases PROMPT_TOKENS - t.len(),
    {
        let ghost before = t@;
        t.push(pad_id);
        assert(t@ =~= start + Seq::new((t@.len() - start.len()) as nat, |_i: int| pad_id));
    }
    assert(t@ =~= padded(start, pad_id));
    t
}

/// The name under which an image generated at `time` (seconds since the epoch) is saved.
pub fn image_file_name(time: u64) -> (r: String)
    ensures
        r@ == "image_"@ + decimal(time as nat) + ".png"@,
{
    let mut out = String::from_str("image_");
    push_decimal(&mut out, time);
    out.append(".png");
    out
}

/// What the network counters add to a seed: for each interface that sent
/// anything, its received bytes modulo its sent bytes.
pub open spec fn traffic_sum(traffic: Seq<(u64, u64)>) -> int
    decreases traffic.len(),
{
    if traffic.len() == 0 {
        0
    } else {
        let (received, transmitted) = traffic.last();
        traffic_sum(traffic.drop_last()) + if transmitted > 0 {
            (received % transmitted) as int
        } else {
            0
        }
    }
}

/// A generation seed from the clock, the memory counters and the network
/// counters, with arithmetic modulo 2^64.
pub open spec fn seed_value(
    time: u64,
    total_memory: u64,
    used_memory: u64,
    traffic: Seq<(u64, u64)>,
) -> int {
    (time + total_memory - used_memory + traffic_sum(traffic)) % 0x1_0000_0000_0000_0000
}

proof fn lemma_wrap_add(a: int, x: u64, y: int)
    requires
        x as int == a % 0x1_0000_0000_0000_0000,
        0 <= y < 0x1_0000_0000_0000_0000,
    ensures
        (if x + y > u64::MAX {
            x + y - 0x1_0000_0000_0000_0000
        } else {
            x + y
        }) == (a + y) % 0x1_0000_0000_0000_0000,
{
    let m: int = 0x1_0000_0000_0000_0000;
    vstd::arithmetic::div_mod::lemma_add_mod_noop(a, y, m);
    vstd::arithmetic::div_mod::lemma_small_mod(y as nat, m as nat);
    if x + y > u64::MAX {
        vstd::arithmetic::div_mod::lemma_mod_sub_multiples_vanish(x + y, m);
        vstd::arithmetic::div_mod::lemma_small_mod((x + y - m) as nat, m as nat);
    } else {
        vstd::arithmetic::div_mod::lemma_small_mod((x + y) as nat, m as nat);
    }
}

proof fn lemma_wrap_sub(a: int, x: u64, y: int)
    requires
        x as int == a % 0x1_0000_0000_0000_0000,
        0 <= y < 0x1_0000_0000_0000_0000,
    ensures
        (if x - y < 0 {
            x - y + 0x1_0000_0000_0000_0000
        } else {
            x - y
        }) == (a - y) % 0x1_0000_0000_0000_0000,
{
    let m: int = 0x1_0000_0000_0000_0000;
    vstd::arithmetic::div_mod::lemma_sub_mod_noop(a, y, m);
    vstd::arithmetic::div_mod::lemma_small_mod(y as nat, m as nat);
    if x - y < 0 {
        vstd::arithmetic::div_mod::lemma_mod_add_multiples_vanish(x - y, m);
        vstd::arithmetic::div_mod::lemma_small_mod((x - y + m) as nat, m as nat);
    } else {
        vstd::arithmetic::div_mod::lemma_small_mod((x - y) as nat, m as nat);
    }
}

/// Combines the counters into a seed.
pub fn combine_seed(
    time: u64,
    total_memory: u64,
    used_memory: u64,
    traffic: &Vec<(u64, u64)>,
) -> (r: u64)
    ensures
        r as int == seed_value(time, total_memory, used_memory, traffic@),
{
    let mut seed: u64 = time.wrapping_add(total_memory).wrapping_sub(used_memory);
    proof {
        vstd::arithmetic::div_mod::lemma_small_mod(time as nat, 0x1_0000_0000_0000_0000);
        lemma_wrap_add(time as int, time, total_memory as int);
        lemma_wrap_sub(
            time + total_memory,
            time.wrapping_add(total_memory),
            used_memory as int,
        );
        assert(traffic@.subrange(0, 0) =~= Seq::<(u64, u64)>::empty());
    }
    let mut i: usize = 0;
    while i < traffic.len()
        invariant
            i <= traffic.len(),
            seed as int == (time + total_memory - used_memory + traffic_sum(
                traffic@.subrange(0, i as int),
            )) % 0x1_0000_0000_0000_0000,
        decreases traffic.len() - i,
    {
        let (received, transmitted) = traffic[i];
        assert(traffic@.subrange(0, i + 1).drop_last() =~= traffic@.subrange(0, i as int));
        if transmitted > 0 {
            let add = received % transmitted;
            proof {
                lemma_wrap_add(
                    time + total_memory - used_memory + traffic_sum(traffic@.subrange(0, i as int)),
                    seed,
                    add as int,
                );
            }
            seed = seed.wrapping_add(add);
        }
        i = i + 1;
    }
    assert(traffic@.subrange(0, traffic.len() as int) =~= traffic@);
    seed
}

} // verus!
