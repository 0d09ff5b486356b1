use vstd::prelude::*;

use crate::error::Error;
use crate::fields::{parse_datafilepath, parse_header_encoding, parse_marker_version};
use crate::format::{header_encoding_of, HeaderEncoding};
use crate::pattern::{all_groups, capture_all, capture_first, first_group, groups_view, opt_view};
use crate::text::{decimal_value, parse_decimal};
use crate::timecode::BVTime;

verus! {

/// One marker line of a marker file, such as `Mk2=Response,R  3,8598,1,0`.
#[derive(Default, Clone, Debug, PartialEq, Eq)]
pub struct MarkerData {
    pub marker_id: String,
    pub marker_type: String,
    pub marker_description: String,
    pub marker_position: usize,
    pub marker_length: usize,
    pub marker_chan: usize,
}

pub open spec fn marker_view(m: MarkerData) -> (Seq<char>, Seq<char>, Seq<char>, usize, usize, usize) {
    (m.marker_id@, m.marker_type@, m.marker_description@, m.marker_position, m.marker_length, m.marker_chan)
}

/// The marker that one match gives: all six groups present and the last three
/// decimal numbers.
pub open spec fn marker_entry(g: Seq<Option<Seq<char>>>) -> Option<(Seq<char>, Seq<char>, Seq<char>, usize, usize, usize)> {
    match (g[0], g[1], g[2], g[3], g[4], g[5]) {
        (Some(id), Some(ty), Some(desc), Some(p), Some(l), Some(c)) => match (
            decimal_value(p),
            decimal_value(l),
            decimal_value(c),
        ) {
            (Some(p), Some(l), Some(c)) => Some((id, ty, desc, p, l, c)),
            _ => None,
        },
        _ => None,
    }
}

/// The markers of all matches that give one, in order.
pub open spec fn marker_entries(ms: Seq<Seq<Option<Seq<char>>>>) -> Seq<(Seq<char>, Seq<char>, Seq<char>, usize, usize, usize)>
    decreases ms.len(),
{
    if ms.len() == 0 {
        Seq::empty()
    } else {
        let rest = marker_entries(ms.drop_last());
        match marker_entry(ms.last()) {
            Some(e) => rest.push(e),
            None => rest,
        }
    }
}

fn marker_from_groups(g: &Vec<Option<String>>) -> (r: Option<MarkerData>)
    requires
        g@.len() == 6,
    ensures
        match r {
            Some(m) => marker_entry(g@.map_values(|o: Option<String>| opt_view(o))) == Some(marker_view(m)),
            None => marker_entry(g@.map_values(|o: Option<String>| opt_view(o))) is None,
        },
{
    let ghost gv = g@.map_values(|o: Option<String>| opt_view(o));
    assert(forall|k: int| 0 <= k < 6 ==> gv[k] == opt_view(g@[k]));
    match (&g[0], &g[1], &g[2], &g[3], &g[4], &g[5]) {
        (Some(id), Some(ty), Some(desc), Some(p), Some(l), Some(c)) => {
            let p = match parse_decimal(p.as_str()) {
                Some(v) => v,
                None => return None,
            };
            let l = match parse_decimal(l.as_str()) {
                Some(v) => v,
                None => return None,
            };
            let c = match parse_decimal(c.as_str()) {
                Some(v) => v,
                None => return None,
            };
            Some(
                MarkerData {
                    marker_id: id.clone(),
                    marker_type: ty.clone(),
                    marker_description: desc.clone(),
                    marker_position: p,
                    marker_length: l,
                    marker_chan: c,
                },
            )
        },
        _ => None,
    }
}

/// Every marker line of a marker text, in order. A line counts when its
/// position, length and channel are decimal numbers.
pub fn parse_marker_data(textcontent: &str) -> (r: Vec<MarkerData>)
    ensures
        r@.map_values(|m: MarkerData| marker_view(m)) == marker_entries(
            all_groups("(\\w*)=([\\w\\ ]*),([\\w\\ ]*),(\\d*),(\\d*),(\\d*)"@, textcontent@, 6),
        ),
{
    let matches = capture_all("(\\w*)=([\\w\\ ]*),([\\w\\ ]*),(\\d*),(\\d*),(\\d*)", textcontent, 6);
    let ghost ms = groups_view(matches@);
    let mut results: Vec<MarkerData> = Vec::new();
    let mut i: usize = 0;
    assert(ms.subrange(0, 0) =~= Seq::<Seq<Option<Seq<char>>>>::empty());
    assert(results@.map_values(|m: MarkerData| marker_view(m)) =~= Seq::empty());
    while i < matches.len()
        invariant
            ms == groups_view(matches@),
            forall|j: int| 0 <= j < matches.len() ==> (#[trigger] matches@[j])@.len() == 6,
            i <= matches.len(),
            results@.map_values(|m: MarkerData| marker_view(m)) == marker_entries(ms.subrange(0, i as int)),
        decreases matches.len() - i,
    {
        let ghost before = results@.map_values(|m: MarkerData| marker_view(m));
        let entry = marker_from_groups(&matches[i]);
        proof {
            let t = ms.subrange(0, i as int + 1);
            assert(t.drop_last() =~= ms.subrange(0, i as int));
            assert(t.last() == ms[i as int]);
        }
        match entry {
            Some(m) => {
                results.push(m);
                assert(results@.map_values(|m: MarkerData| marker_view(m)) =~= before.push(marker_view(m)));
            },
            None => {},
        }
        i = i + 1;
    }
    assert(ms.subrange(0, matches.len() as int) =~= ms);
    results
}

/// The timecode of the first segment marker, if it is twenty bytes long.
pub open spec fn timecode_field(text: Seq<char>) -> Option<Seq<char>> {
    match first_group("Mk1=New Segment,,\\d*,\\d*,\\d*,(\\d*)"@, text) {
        Some(t) => if vstd::utf8::encode_utf8(t).len() == 20 { Some(t) } else { None },
        None => None,
    }
}

pub open spec fn time_view(t: Option<BVTime>) -> Option<Seq<char>> {
    match t {
        Some(b) => Some(b.timecode@),
        None => None,
    }
}

/// The start time of the recording: the timecode of the first segment marker.
pub fn parse_timecode(textcontent: &str) -> (r: Option<BVTime>)
    ensures
        time_view(r) == timecode_field(textcontent@),
{
    match capture_first("Mk1=New Segment,,\\d*,\\d*,\\d*,(\\d*)", textcontent) {
        Some(t) => BVTime::from_str(t.as_str()),
        None => None,
    }
}

/// The contents of a marker file.
#[derive(Default, Clone, Debug, PartialEq, Eq)]
pub struct BVMarker {
    pub marker_path: String,
    pub header_version: String,
    pub header_encoding: HeaderEncoding,
    pub data_file: String,
    pub marker_data: Vec<MarkerData>,
    pub start_time: Option<BVTime>,
}

impl BVMarker {
    /// Reads the text of the marker file found at `filepath`. Fails when the
    /// text does not state its version. A missing data file name is left empty.
    pub fn from_text(filepath: &str, textcontent: &str) -> (r: Result<Self, Error>)
        ensures
            first_group("Brain Vision Data Exchange Marker File, Version (\\d{1,}\\.\\d{1,})"@, textcontent@) is None
                ==> r == Err::<Self, Error>(Error::InvalidHeaderVersion),
            r matches Ok(m) ==> {
                &&& m.marker_path@ == filepath@
                &&& first_group("Brain Vision Data Exchange Marker File, Version (\\d{1,}\\.\\d{1,})"@, textcontent@)
                    == Some(m.header_version@)
                &&& m.header_encoding == match first_group("Codepage=([\\w-]*)"@, textcontent@) {
                    Some(t) => header_encoding_of(t),
                    None => HeaderEncoding::Unknown,
                }
                &&& m.data_file@ == match first_group("DataFile=([\\w\\.-]*)"@, textcontent@) {
                    Some(t) => t,
                    None => Seq::empty(),
                }
                &&& m.marker_data@.map_values(|d: MarkerData| marker_view(d)) == marker_entries(
                    all_groups("(\\w*)=([\\w\\ ]*),([\\w\\ ]*),(\\d*),(\\d*),(\\d*)"@, textcontent@, 6),
                )
                &&& time_view(m.start_time) == timecode_field(textcontent@)
            },
            first_group("Brain Vision Data Exchange Marker File, Version (\\d{1,}\\.\\d{1,})"@, textcontent@) is Some
                ==> r is Ok,
            r is Err ==> r == Err::<Self, Error>(Error::InvalidHeaderVersion),
    {
        let header_version = match parse_marker_version(textcontent) {
            Some(v) => v,
            None => return Err(Error::InvalidHeaderVersion),
        };
        let data_file = match parse_datafilepath(textcontent) {
            Some(f) => f,
            None => String::new(),
        };
        Ok(
            BVMarker {
                marker_path: filepath.to_string(),
                header_version,
                header_encoding: parse_header_encoding(textcontent),
                data_file,
                marker_data: parse_marker_data(textcontent),
                start_time: parse_timecode(textcontent),
            },
        )
    }
}

} // verus!
