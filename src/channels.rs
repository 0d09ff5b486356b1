use vstd::prelude::*;

use crate::format::{
    data_unit_from_token, data_unit_of, filter_setting_of, parse_filter_setting, DataUnit, FilterSetting,
};
use crate::pattern::{all_groups, capture_all, groups_view, opt_view};
use crate::text::{comma_split, decimal_value, parse_decimal, split_commas};

verus! {

/// One channel line of a header file, such as `Ch1=Fp1,,0.0488281,µV`: the
/// channel's key, its label, its reference channel, its resolution as written
/// (a decimal number; empty when absent), and its unit.
#[derive(Default, Clone, Debug, PartialEq, Eq)]
pub struct ChannelInfo {
    pub header_id: String,
    pub label: String,
    pub reference: String,
    pub resolution: String,
    pub unit: DataUnit,
}

pub open spec fn channel_view(c: ChannelInfo) -> (Seq<char>, Seq<char>, Seq<char>, Seq<char>, DataUnit) {
    (c.header_id@, c.label@, c.reference@, c.resolution@, c.unit)
}

/// The channel that one match gives: its key and a value of exactly four
/// comma-separated fields.
pub open spec fn channel_entry(g: Seq<Option<Seq<char>>>) -> Option<(Seq<char>, Seq<char>, Seq<char>, Seq<char>, DataUnit)> {
    match (g[0], g[1]) {
        (Some(id), Some(v)) => {
            let p = comma_split(v);
            if p.len() == 4 {
                Some((id, p[0], p[1], p[2], data_unit_of(p[3])))
            } else {
                None
            }
        },
        _ => None,
    }
}

/// The channels of all matches that give one, in order.
pub open spec fn channel_entries(ms: Seq<Seq<Option<Seq<char>>>>) -> Seq<(Seq<char>, Seq<char>, Seq<char>, Seq<char>, DataUnit)>
    decreases ms.len(),
{
    if ms.len() == 0 {
        Seq::empty()
    } else {
        let rest = channel_entries(ms.drop_last());
        match channel_entry(ms.last()) {
            Some(e) => rest.push(e),
            None => rest,
        }
    }
}

fn channel_from_groups(g: &Vec<Option<String>>) -> (r: Option<ChannelInfo>)
    requires
        g@.len() == 2,
    ensures
        match r {
            Some(c) => channel_entry(g@.map_values(|o: Option<String>| opt_view(o))) == Some(channel_view(c)),
            None => channel_entry(g@.map_values(|o: Option<String>| opt_view(o))) is None,
        },
{
    let ghost gv = g@.map_values(|o: Option<String>| opt_view(o));
    assert(gv[0] == opt_view(g@[0]) && gv[1] == opt_view(g@[1]));
    match (&g[0], &g[1]) {
        (Some(id), Some(v)) => {
            let parts = split_commas(v.as_str());
            let ghost pv = parts@.map_values(|p: String| p@);
            if parts.len() != 4 {
                return None;
            }
            assert(pv[0] == parts@[0]@ && pv[1] == parts@[1]@ && pv[2] == parts@[2]@ && pv[3] == parts@[3]@);
            Some(
                ChannelInfo {
                    header_id: id.clone(),
                    label: parts[0].clone(),
                    reference: parts[1].clone(),
                    resolution: parts[2].clone(),
                    unit: data_unit_from_token(parts[3].as_str()),
                },
            )
        },
        _ => None,
    }
}

/// Every channel line of a header text, in order. A line counts when its value
/// has exactly four comma-separated fields.
pub fn parse_chan_info(textcontent: &str) -> (r: Vec<ChannelInfo>)
    ensures
        r@.map_values(|c: ChannelInfo| channel_view(c)) == channel_entries(
            all_groups("([Cch].\\d.*)=([\\w\\.,]*)"@, textcontent@, 2),
        ),
{
    let matches = capture_all("([Cch].\\d.*)=([\\w\\.,]*)", textcontent, 2);
    let ghost ms = groups_view(matches@);
    let mut results: Vec<ChannelInfo> = Vec::new();
    let mut i: usize = 0;
    assert(ms.subrange(0, 0) =~= Seq::<Seq<Option<Seq<char>>>>::empty());
    assert(results@.map_values(|c: ChannelInfo| channel_view(c)) =~= Seq::empty());
    while i < matches.len()
        invariant
            ms == groups_view(matches@),
            forall|j: int| 0 <= j < matches.len() ==> (#[trigger] matches@[j])@.len() == 2,
            i <= matches.len(),
            results@.map_values(|c: ChannelInfo| channel_view(c)) == channel_entries(ms.subrange(0, i as int)),
        decreases matches.len() - i,
    {
        let ghost before = results@.map_values(|c: ChannelInfo| channel_view(c));
        let entry = channel_from_groups(&matches[i]);
        proof {
            let t = ms.subrange(0, i as int + 1);
            assert(t.drop_last() =~= ms.subrange(0, i as int));
            assert(t.last() == ms[i as int]);
        }
        match entry {
            Some(c) => {
                results.push(c);
                assert(results@.map_values(|c: ChannelInfo| channel_view(c)) =~= before.push(channel_view(c)));
            },
            None => {},
        }
        i = i + 1;
    }
    assert(ms.subrange(0, matches.len() as int) =~= ms);
    results
}

/// One row of the channel table of a header file's comment section, such as
/// `1     Fp1         1          0.0488281 µV             DC              140              Off`.
/// The resolution is kept as written (a decimal number). Gradient and offset
/// are not read.
#[derive(Default, Clone, Debug, PartialEq, Eq)]
pub struct ChannelInfoFull {
    pub id: usize,
    pub label: String,
    pub phys_chan: usize,
    pub resolution: String,
    pub unit: String,
    pub low_cutoff: FilterSetting,
    pub high_cutoff: FilterSetting,
    pub notch: FilterSetting,
    pub gradient: Option<String>,
    pub offset: Option<usize>,
}

pub open spec fn full_view(c: ChannelInfoFull) -> (
    usize,
    Seq<char>,
    usize,
    Seq<char>,
    Seq<char>,
    FilterSetting,
    FilterSetting,
    FilterSetting,
) {
    (c.id, c.label@, c.phys_chan, c.resolution@, c.unit@, c.low_cutoff, c.high_cutoff, c.notch)
}

/// The table row that one match gives: all eight groups present, and number
/// and physical channel decimal numbers.
pub open spec fn full_entry(g: Seq<Option<Seq<char>>>) -> Option<
    (usize, Seq<char>, usize, Seq<char>, Seq<char>, FilterSetting, FilterSetting, FilterSetting),
> {
    match (g[0], g[1], g[2], g[3], g[4], g[5], g[6], g[7]) {
        (Some(id), Some(label), Some(phys), Some(res), Some(unit), Some(low), Some(high), Some(notch)) => match (
            decimal_value(id),
            decimal_value(phys),
        ) {
            (Some(id), Some(phys)) => Some(
                (
                    id,
                    label,
                    phys,
                    res,
                    unit,
                    filter_setting_of(low),
                    filter_setting_of(high),
                    filter_setting_of(notch),
                ),
            ),
            _ => None,
        },
        _ => None,
    }
}

/// The table rows of all matches that give one, in order.
pub open spec fn full_entries(ms: Seq<Seq<Option<Seq<char>>>>) -> Seq<
    (usize, Seq<char>, usize, Seq<char>, Seq<char>, FilterSetting, FilterSetting, FilterSetting),
>
    decreases ms.len(),
{
    if ms.len() == 0 {
        Seq::empty()
    } else {
        let rest = full_entries(ms.drop_last());
        match full_entry(ms.last()) {
            Some(e) => rest.push(e),
            None => rest,
        }
    }
}

fn full_from_groups(g: &Vec<Option<String>>) -> (r: Option<ChannelInfoFull>)
    requires
        g@.len() == 8,
    ensures
        match r {
            Some(c) => {
                &&& full_entry(g@.map_values(|o: Option<String>| opt_view(o))) == Some(full_view(c))
                &&& c.gradient is None
                &&& c.offset is None
            },
            None => full_entry(g@.map_values(|o: Option<String>| opt_view(o))) is None,
        },
{
    let ghost gv = g@.map_values(|o: Option<String>| opt_view(o));
    assert(forall|k: int| 0 <= k < 8 ==> gv[k] == opt_view(g@[k]));
    match (&g[0], &g[1], &g[2], &g[3], &g[4], &g[5], &g[6], &g[7]) {
        (Some(id), Some(label), Some(phys), Some(res), Some(unit), Some(low), Some(high), Some(notch)) => {
            let id = match parse_decimal(id.as_str()) {
                Some(v) => v,
                None => return None,
            };
            let phys_chan = match parse_decimal(phys.as_str()) {
                Some(v) => v,
                None => return None,
            };
            Some(
                ChannelInfoFull {
                    id,
                    label: label.clone(),
                    phys_chan,
                    resolution: res.clone(),
                    unit: unit.clone(),
                    low_cutoff: parse_filter_setting(low.as_str()),
                    high_cutoff: parse_filter_setting(high.as_str()),
                    notch: parse_filter_setting(notch.as_str()),
                    gradient: None,
                    offset: None,
                },
            )
        },
        _ => None,
    }
}

/// Every row of the channel table, in order. A row counts when its number and
/// physical channel are decimal numbers.
pub fn parse_chan_info_full(textcontent: &str) -> (r: Vec<ChannelInfoFull>)
    ensures
        r@.map_values(|c: ChannelInfoFull| full_view(c)) == full_entries(
            all_groups(
                "(\\d*)\\W*(\\w*)\\W*(\\d*)\\W*(\\d\\.\\d*)\\W(\\w{1,2})\\W*(\\w*)\\W*(\\w*)\\W*(\\w*)"@,
                textcontent@,
                8,
            ),
        ),
        forall|i: int| 0 <= i < r.len() ==> (#[trigger] r@[i]).gradient is None && r@[i].offset is None,
{
    let matches = capture_all(
        "(\\d*)\\W*(\\w*)\\W*(\\d*)\\W*(\\d\\.\\d*)\\W(\\w{1,2})\\W*(\\w*)\\W*(\\w*)\\W*(\\w*)",
        textcontent,
        8,
    );
    let ghost ms = groups_view(matches@);
    let mut results: Vec<ChannelInfoFull> = Vec::new();
    let mut i: usize = 0;
    assert(ms.subrange(0, 0) =~= Seq::<Seq<Option<Seq<char>>>>::empty());
    assert(results@.map_values(|c: ChannelInfoFull| full_view(c)) =~= Seq::empty());
    while i < matches.len()
        invariant
            ms == groups_view(matches@),
            forall|j: int| 0 <= j < matches.len() ==> (#[trigger] matches@[j])@.len() == 8,
            i <= matches.len(),
            results@.map_values(|c: ChannelInfoFull| full_view(c)) == full_entries(ms.subrange(0, i as int)),
            forall|j: int| 0 <= j < results.len() ==> (#[trigger] results@[j]).gradient is None && results@[j].offset is None,
        decreases matches.len() - i,
    {
        let ghost before = results@.map_values(|c: ChannelInfoFull| full_view(c));
        let entry = full_from_groups(&matches[i]);
        proof {
            let t = ms.subrange(0, i as int + 1);
            assert(t.drop_last() =~= ms.subrange(0, i as int));
            assert(t.last() == ms[i as int]);
        }
        match entry {
            Some(c) => {
                results.push(c);
                assert(results@.map_values(|c: ChannelInfoFull| full_view(c)) =~= before.push(full_view(c)));
            },
            None => {},
        }
        i = i + 1;
    }
    assert(ms.subrange(0, matches.len() as int) =~= ms);
    results
}

} // verus!
