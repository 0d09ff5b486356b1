use vstd::prelude::*;

verus! {

/// The text of group 1 of the leftmost match of the regular expression
/// `pattern` in `text`, if the pattern compiles, matches, and the group takes
/// part in the match.
pub uninterp spec fn first_group(pattern: Seq<char>, text: Seq<char>) -> Option<Seq<char>>;

/// For each successive non-overlapping match of the regular expression
/// `pattern` in `text`, the texts of groups `1..=count`; empty if the pattern
/// does not compile.
pub uninterp spec fn all_groups(pattern: Seq<char>, text: Seq<char>, count: nat) -> Seq<Seq<Option<Seq<char>>>>;

pub open spec fn opt_view(o: Option<String>) -> Option<Seq<char>> {
    match o {
        Some(s) => Some(s@),
        None => None,
    }
}

pub open spec fn groups_view(v: Seq<Vec<Option<String>>>) -> Seq<Seq<Option<Seq<char>>>> {
    v.map_values(|m: Vec<Option<String>>| m@.map_values(|g: Option<String>| opt_view(g)))
}

/// Relies on regex's `Regex::new` and `Regex::captures`: compiles `pattern` and
/// returns group 1 of its leftmost match in `text`.
#[verifier::external_body]
pub(crate) fn capture_first(pattern: &str, text: &str) -> (r: Option<String>)
    ensures
        opt_view(r) == first_group(pattern@, text@),
{
    let re = regex::Regex::new(pattern).ok()?;
    let caps = re.captures(text)?;
    caps.get(1).map(|m| m.as_str().to_string())
}

/// Relies on regex's `Regex::new` and `Regex::captures_iter`: compiles `pattern`
/// and returns, for each successive match in `text`, groups 1 to `count`.
#[verifier::external_body]
pub(crate) fn capture_all(pattern: &str, text: &str, count: usize) -> (r: Vec<Vec<Option<String>>>)
    ensures
        groups_view(r@) == all_groups(pattern@, text@, count as nat),
        forall|i: int| 0 <= i < r.len() ==> (#[trigger] r@[i])@.len() == count,
{
    let re = match regex::Regex::new(pattern) {
        Ok(re) => re,
        Err(_) => return Vec::new(),
    };
    re.captures_iter(text).map(|c| (1..=count).map(|i| c.get(i).map(|m| m.as_str().to_string())).collect()).collect()
}

} // verus!
