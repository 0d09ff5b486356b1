use vstd::prelude::*;

use crate::error::Error;
use crate::recording::BVFile;
use crate::text::{decimal_digits, push_decimal};

verus! {

/// The outcome of a check: passed, or failed with a message.
#[derive(Clone, Debug, PartialEq, Eq)]
pub enum IsValid {
    True,
    False(String),
}

/// Turns a failed check into a validation error carrying its message; a passed
/// check gives a validation error with an empty message.
pub fn parse_invalid_to_error(value: &IsValid) -> (r: Error)
    ensures
        r matches Error::ValidationError(m) && m@ == match value {
            IsValid::False(msg) => msg@,
            IsValid::True => Seq::<char>::empty(),
        },
{
    match value {
        IsValid::False(msg) => Error::ValidationError(msg.clone()),
        IsValid::True => Error::ValidationError(String::new()),
    }
}

/// The message for a channel count `other` that differs from the header's
/// `num_chan`; `what` names where `other` was counted.
pub open spec fn mismatch_message(num_chan: usize, what: Seq<char>, other: usize) -> Seq<char> {
    "Channel mismatch: channels in header "@ + decimal_digits(num_chan as nat) + ", channels in "@ + what
        + " "@ + decimal_digits(other as nat)
}

fn mismatch(num_chan: usize, what: &str, other: usize) -> (r: IsValid)
    ensures
        r matches IsValid::False(m) && m@ == mismatch_message(num_chan, what@, other),
{
    let mut m = String::new();
    m.append("Channel mismatch: channels in header ");
    push_decimal(&mut m, num_chan);
    m.append(", channels in ");
    m.append(what);
    m.append(" ");
    push_decimal(&mut m, other);
    assert(m@ =~= mismatch_message(num_chan, what@, other));
    IsValid::False(m)
}

/// Checks that the header's channel count agrees with the amplifier's, with the
/// number of channel lines and with the number of decoded channels, in that
/// order; the first disagreement is reported.
pub fn validate_num_chan(bvfile: &BVFile) -> (r: IsValid)
    ensures
        ({
            let n = bvfile.bv_header.num_channels;
            let amp = bvfile.bv_header.amp_channels;
            let info = bvfile.bv_header.channel_info.len();
            let data = bvfile.bv_data.data.len();
            if n != amp {
                r matches IsValid::False(m) && m@ == mismatch_message(n, "AMP"@, amp)
            } else if n != info {
                r matches IsValid::False(m) && m@ == mismatch_message(n, "channel info"@, info)
            } else if n != data {
                r matches IsValid::False(m) && m@ == mismatch_message(n, "data"@, data)
            } else {
                r == IsValid::True
            }
        }),
{
    let num_chan = bvfile.bv_header.num_channels;
    if num_chan != bvfile.bv_header.amp_channels {
        return mismatch(num_chan, "AMP", bvfile.bv_header.amp_channels);
    }
    if num_chan != bvfile.bv_header.channel_info.len() {
        return mismatch(num_chan, "channel info", bvfile.bv_header.channel_info.len());
    }
    if num_chan != bvfile.bv_data.data.len() {
        return mismatch(num_chan, "data", bvfile.bv_data.data.len());
    }
    IsValid::True
}

} // verus!
