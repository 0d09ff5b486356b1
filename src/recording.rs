use vstd::prelude::*;

use crate::data::{BVData, Sample};
use crate::error::Error;
use crate::header::BVheader;
use crate::marker::BVMarker;
use crate::validator::{parse_invalid_to_error, validate_num_chan, IsValid};

verus! {

/// A whole recording: header, markers and decoded data.
#[derive(Debug, PartialEq)]
pub struct BVFile {
    pub bv_header: BVheader,
    pub bv_marker: BVMarker,
    pub bv_data: BVData<Sample>,
}

/// The directory part of a path: everything before its last `/`, or nothing
/// when it has none.
pub open spec fn dir_of(path: Seq<char>) -> Seq<char>
    decreases path.len(),
{
    if path.len() == 0 {
        Seq::empty()
    } else if path.last() == '/' {
        path.drop_last()
    } else {
        dir_of(path.drop_last())
    }
}

/// The path of the file `name` that lies beside the file at `path`.
pub fn sibling_path(path: &str, name: &str) -> (r: String)
    ensures
        r@ == dir_of(path@) + "/"@ + name@,
{
    let n = path.unicode_len();
    let mut cut: usize = 0;
    let mut i: usize = 0;
    assert(path@.subrange(0, 0) =~= Seq::<char>::empty());
    while i < n
        invariant
            n == path@.len(),
            cut <= i <= n,
            dir_of(path@.subrange(0, i as int)) == path@.subrange(0, cut as int),
        decreases n - i,
    {
        let c = path.get_char(i);
        proof {
            let t = path@.subrange(0, i as int + 1);
            assert(t.drop_last() =~= path@.subrange(0, i as int));
            assert(t.last() == c);
        }
        if c == '/' {
            cut = i;
        }
        i = i + 1;
    }
    assert(path@.subrange(0, n as int) =~= path@);
    let mut r = path.substring_char(0, cut).to_string();
    r.append("/");
    r.append(name);
    r
}

impl BVFile {
    /// Checks that all parts of the recording agree on the number of channels.
    pub fn validate(&self) -> (r: Result<(), Error>)
        ensures
            r is Ok <==> ({
                let n = self.bv_header.num_channels;
                &&& n == self.bv_header.amp_channels
                &&& n == self.bv_header.channel_info.len()
                &&& n == self.bv_data.data.len()
            }),
            r matches Err(e) ==> e is ValidationError,
    {
        let valid = validate_num_chan(self);
        match valid {
            IsValid::True => Ok(()),
            IsValid::False(_) => Err(parse_invalid_to_error(&valid)),
        }
    }
}

} // verus!
