use vstd::prelude::*;

use crate::error::Error;

verus! {

/// `e` reports that `len` values cannot be laid out by the orientation named
/// `name`, which placed `placed` of them.
pub open spec fn is_misoriented(e: Error, name: Seq<char>, len: int, placed: int) -> bool {
    &&& e matches Error::BinaryOrientationError(n, expected, got)
    &&& n@ == name
    &&& expected == len
    &&& got == placed
}

/// `ch` is `data` split into `n` channels taken round-robin: value `i` of `data`
/// is value `i / n` of channel `i % n`.
pub open spec fn is_multiplexed<T>(data: Seq<T>, n: nat, ch: Seq<Seq<T>>) -> bool {
    &&& ch.len() == n
    &&& forall|c: int| 0 <= c < n ==> (#[trigger] ch[c]).len() == data.len() / n
    &&& forall|c: int, k: int|
        0 <= c < n && 0 <= k < data.len() / n ==> #[trigger] ch[c][k] == data[k * n + c]
}

/// `ch` is `data` split into `n` consecutive blocks of equal length.
pub open spec fn is_vectorized<T>(data: Seq<T>, n: nat, ch: Seq<Seq<T>>) -> bool {
    &&& ch.len() == n
    &&& forall|c: int|
        0 <= c < n ==> #[trigger] ch[c] == data.subrange(c * (data.len() / n) as int, (c + 1) * (data.len() / n) as int)
}

/// The channels as sequences.
pub open spec fn channels_view<T>(ch: Seq<Vec<T>>) -> Seq<Seq<T>> {
    ch.map_values(|v: Vec<T>| v@)
}

proof fn lemma_block_bounds(len: int, n: int, k: int, c: int)
    requires
        n > 0,
        len >= 0,
        len % n == 0,
        0 <= k < len / n,
        0 <= c < n,
    ensures
        0 <= k * n + c < len,
        (len / n) * n == len,
{
    vstd::arithmetic::div_mod::lemma_fundamental_div_mod(len, n);
    let l = len / n;
    assert((k + 1) * n <= l * n) by (nonlinear_arith)
        requires
            k + 1 <= l,
            n > 0,
    ;
    assert(k * n >= 0) by (nonlinear_arith)
        requires
            k >= 0,
            n > 0,
    ;
    assert((k + 1) * n == k * n + n) by (nonlinear_arith);
}

/// Splits values that alternate between the channels, one value of each channel
/// in turn, into one sequence per channel.
pub fn parse_multiplexed_data<T: Copy>(multiplexed_data: Vec<T>, num_chan: usize) -> (r: Result<Vec<Vec<T>>, Error>)
    requires
        multiplexed_data.len() <= usize::MAX / 2,
    ensures
        num_chan == 0 ==> r == Err::<Vec<Vec<T>>, Error>(Error::ZeroChannels),
        num_chan > 0 ==> match r {
            Ok(ch) => {
                &&& multiplexed_data.len() % num_chan == 0
                &&& is_multiplexed(multiplexed_data@, num_chan as nat, channels_view(ch@))
            },
            Err(e) => {
                let len = multiplexed_data.len() as int;
                let n = num_chan as int;
                &&& len % n != 0
                &&& is_misoriented(e, "MULTIPLEXED"@, len, (len / n + 1) * n)
            },
        },
{
    if num_chan == 0 {
        return Err(Error::ZeroChannels);
    }
    let len = multiplexed_data.len();
    let chan_len = len / num_chan;
    if len % num_chan != 0 {
        proof {
            vstd::arithmetic::div_mod::lemma_fundamental_div_mod(len as int, num_chan as int);
            if num_chan > len {
                vstd::arithmetic::div_mod::lemma_small_mod(len as nat, num_chan as nat);
            }
        }
        // The first channel takes one value more than the others.
        let placed = len - len % num_chan + num_chan;
        proof {
            assert((chan_len + 1) * num_chan == chan_len * num_chan + num_chan) by (nonlinear_arith);
        }
        return Err(Error::BinaryOrientationError("MULTIPLEXED".to_string(), len, placed));
    }
    let mut channels: Vec<Vec<T>> = Vec::with_capacity(num_chan);
    let mut c: usize = 0;
    while c < num_chan
        invariant
            len == multiplexed_data.len(),
            num_chan > 0,
            chan_len == len / num_chan,
            len % num_chan == 0,
            c <= num_chan,
            channels.len() == c,
            forall|d: int| 0 <= d < c ==> (#[trigger] channels[d])@.len() == chan_len,
            forall|d: int, k: int|
                0 <= d < c && 0 <= k < chan_len ==> #[trigger] channels[d]@[k] == multiplexed_data@[k * num_chan + d],
        decreases num_chan - c,
    {
        let mut one: Vec<T> = Vec::with_capacity(chan_len);
        let mut k: usize = 0;
        while k < chan_len
            invariant
                len == multiplexed_data.len(),
                num_chan > 0,
                chan_len == len / num_chan,
                len % num_chan == 0,
                c < num_chan,
                k <= chan_len,
                one.len() == k,
                forall|j: int| 0 <= j < k ==> #[trigger] one@[j] == multiplexed_data@[j * num_chan + c],
            decreases chan_len - k,
        {
            proof {
                lemma_block_bounds(len as int, num_chan as int, k as int, c as int);
            }
            one.push(multiplexed_data[k * num_chan + c]);
            k = k + 1;
        }
        channels.push(one);
        c = c + 1;
    }
    let ghost view = channels_view(channels@);
    assert(forall|d: int| 0 <= d < num_chan ==> #[trigger] view[d] == channels@[d]@);
    Ok(channels)
}

/// Splits values stored channel after channel, each channel as one block, into
/// one sequence per channel.
pub fn parse_vectorized_data<T: Copy>(vectorized_data: Vec<T>, num_chan: usize) -> (r: Result<Vec<Vec<T>>, Error>)
    ensures
        num_chan == 0 ==> r == Err::<Vec<Vec<T>>, Error>(Error::ZeroChannels),
        num_chan > 0 ==> match r {
            Ok(ch) => {
                &&& vectorized_data.len() % num_chan == 0
                &&& is_vectorized(vectorized_data@, num_chan as nat, channels_view(ch@))
            },
            Err(e) => {
                let len = vectorized_data.len() as int;
                let n = num_chan as int;
                &&& len % n != 0
                &&& is_misoriented(e, "VECTORIZED"@, len, (len / n) * n)
            },
        },
{
    if num_chan == 0 {
        return Err(Error::ZeroChannels);
    }
    let len = vectorized_data.len();
    let chan_len = len / num_chan;
    proof {
        vstd::arithmetic::div_mod::lemma_fundamental_div_mod(len as int, num_chan as int);
    }
    if len % num_chan != 0 {
        return Err(Error::BinaryOrientationError("VECTORIZED".to_string(), len, len - len % num_chan));
    }
    let mut channels: Vec<Vec<T>> = Vec::with_capacity(num_chan);
    let mut c: usize = 0;
    let mut start: usize = 0;
    while c < num_chan
        invariant
            len == vectorized_data.len(),
            num_chan > 0,
            chan_len == len / num_chan,
            chan_len * num_chan == len,
            c <= num_chan,
            start == c * chan_len,
            channels.len() == c,
            forall|d: int|
                0 <= d < c ==> (#[trigger] channels[d])@ == vectorized_data@.subrange(d * chan_len, (d + 1) * chan_len),
        decreases num_chan - c,
    {
        proof {
            assert((c + 1) * chan_len <= len) by (nonlinear_arith)
                requires
                    c + 1 <= num_chan,
                    chan_len * num_chan == len,
            ;
            assert((c + 1) * chan_len == c * chan_len + chan_len) by (nonlinear_arith);
        }
        let one = vstd::slice::slice_to_vec(
            vstd::slice::slice_subrange(vectorized_data.as_slice(), start, start + chan_len),
        );
        channels.push(one);
        c = c + 1;
        start = start + chan_len;
    }
    let ghost view = channels_view(channels@);
    assert(forall|d: int| 0 <= d < num_chan ==> #[trigger] view[d] == channels@[d]@);
    Ok(channels)
}

} // verus!
