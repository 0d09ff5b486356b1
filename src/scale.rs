use vstd::prelude::*;

use crate::error::Error;

verus! {

/// Every channel of `ch` is as long as the first.
pub open spec fn uniform<T>(ch: Seq<Vec<T>>) -> bool {
    forall|i: int| 0 <= i < ch.len() ==> (#[trigger] ch[i])@.len() == ch[0]@.len()
}

/// `i` is the first channel of `ch` whose length differs from the first channel's.
pub open spec fn first_malformed<T>(ch: Seq<Vec<T>>, i: int) -> bool {
    &&& 0 < i < ch.len()
    &&& ch[i]@.len() != ch[0]@.len()
    &&& forall|j: int| 0 <= j < i ==> (#[trigger] ch[j])@.len() == ch[0]@.len()
}

/// `after` is channel `before` with each sample multiplied by `resolution`
/// through `product`, or left as it is when no resolution is given.
pub open spec fn scaled_by<T, R, F: Fn(T, R) -> T>(
    before: Seq<T>,
    resolution: Option<R>,
    product: F,
    after: Seq<T>,
) -> bool {
    match resolution {
        None => after == before,
        Some(f) => {
            &&& after.len() == before.len()
            &&& forall|j: int| 0 <= j < before.len() ==> product.ensures((before[j], f), #[trigger] after[j])
        },
    }
}

/// Multiplies every sample of channel `i` by the resolution of entry `i` of
/// `resolutions`, using `product` for the product. A channel without a resolution is
/// left untouched.
///
/// Nothing is changed unless there is one entry per channel and all channels are
/// as long as the first; otherwise the first problem found is returned. Scaling
/// twice scales twice: call it once per data set.
pub fn scale_channels<T: Copy, R: Copy, F: Fn(T, R) -> T>(
    data: &mut Vec<Vec<T>>,
    resolutions: &Vec<Option<R>>,
    product: F,
) -> (r: Result<(), Error>)
    requires
        forall|x: T, f: R| product.requires((x, f)),
    ensures
        old(data).len() != resolutions.len() ==> {
            &&& r == Err::<(), Error>(Error::ChannelDataMismatch(old(data).len(), resolutions.len()))
            &&& *final(data) == *old(data)
        },
        old(data).len() == resolutions.len() && !uniform(old(data)@) ==> {
            &&& *final(data) == *old(data)
            &&& exists|i: int|
                first_malformed(old(data)@, i) && r == Err::<(), Error>(
                    Error::ChannelDataMalformed(old(data)@[0]@.len() as usize, old(data)@[i]@.len() as usize),
                )
        },
        old(data).len() == resolutions.len() && uniform(old(data)@) ==> {
            &&& r is Ok
            &&& final(data).len() == old(data).len()
            &&& forall|i: int|
                0 <= i < old(data).len() ==> scaled_by(
                    old(data)@[i]@,
                    resolutions@[i],
                    product,
                    #[trigger] final(data)@[i]@,
                )
        },
{
    if data.len() != resolutions.len() {
        return Err(Error::ChannelDataMismatch(data.len(), resolutions.len()));
    }
    if data.len() == 0 {
        return Ok(());
    }
    let chan_len = data[0].len();
    let mut i: usize = 0;
    while i < data.len()
        invariant
            *data == *old(data),
            data.len() == resolutions.len(),
            data.len() > 0,
            chan_len == data@[0]@.len(),
            i <= data.len(),
            forall|j: int| 0 <= j < i ==> (#[trigger] data@[j])@.len() == chan_len,
        decreases data.len() - i,
    {
        if data[i].len() != chan_len {
            assert(first_malformed(data@, i as int));
            return Err(Error::ChannelDataMalformed(chan_len, data[i].len()));
        }
        i = i + 1;
    }
    let mut out: Vec<Vec<T>> = Vec::with_capacity(data.len());
    let mut i: usize = 0;
    while i < data.len()
        invariant
            data.len() == resolutions.len(),
            i <= data.len(),
            out.len() == i,
            forall|x: T, f: R| product.requires((x, f)),
            forall|j: int| 0 <= j < i ==> scaled_by(data@[j]@, resolutions@[j], product, #[trigger] out@[j]@),
        decreases data.len() - i,
    {
        let ch = &data[i];
        let mut scaled: Vec<T> = Vec::with_capacity(ch.len());
        let mut k: usize = 0;
        while k < ch.len()
            invariant
                i < data.len() == resolutions.len(),
                ch == data@[i as int],
                k <= ch.len(),
                scaled.len() == k,
                forall|x: T, f: R| product.requires((x, f)),
                resolutions[i as int] is None ==> scaled@ == ch@.subrange(0, k as int),
                forall|f: R|
                    resolutions[i as int] == Some(f) ==> forall|j: int|
                        0 <= j < k ==> product.ensures((ch@[j], f), #[trigger] scaled@[j]),
            decreases ch.len() - k,
        {
            match resolutions[i] {
                Some(f) => scaled.push(product(ch[k], f)),
                None => scaled.push(ch[k]),
            }
            k = k + 1;
        }
        assert(resolutions[i as int] is None ==> scaled@ == ch@.subrange(0, ch@.len() as int));
        assert(ch@.subrange(0, ch@.len() as int) =~= ch@);
        out.push(scaled);
        i = i + 1;
    }
    *data = out;
    Ok(())
}

} // verus!
