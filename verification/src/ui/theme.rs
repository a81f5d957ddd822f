use vstd::prelude::*;

verus! {

/// The texts of a sequence of string slices.
pub open spec fn str_views(v: Seq<&str>) -> Seq<Seq<char>> {
    v.map_values(|s: &str| s@)
}

/// Breadcrumb text for a navigation path: the app name, then each segment
/// after ` › `.
pub open spec fn breadcrumb_spec(segments: Seq<Seq<char>>) -> Seq<char>
    decreases segments.len(),
{
    if segments.len() == 0 {
        "gpick"@
    } else {
        breadcrumb_spec(segments.drop_last()) + " \u{203a} "@ + segments.last()
    }
}

/// Breadcrumb text shown in the header bar for a given navigation path,
/// e.g. `["Branches", "feature-x", "Commits"]` gives
/// "gpick › Branches › feature-x › Commits".
pub fn breadcrumb(segments: &[&str]) -> (r: String)
    ensures
        r@ == breadcrumb_spec(str_views(segments@)),
{
    let mut s = String::from_str("gpick");
    let n = segments.len();
    let mut i: usize = 0;
    while i < n
        invariant
            n == segments@.len(),
            i <= n,
            s@ == breadcrumb_spec(str_views(segments@).take(i as int)),
        decreases n - i,
    {
        s.append(" \u{203a} ");
        s.append(segments[i]);
        proof {
            let t = str_views(segments@).take(i + 1);
            assert(t.drop_last() == str_views(segments@).take(i as int));
            assert(t.last() == segments@[i as int]@);
        }
        i = i + 1;
    }
    assert(str_views(segments@).take(n as int) == str_views(segments@));
    s
}

} // verus!
