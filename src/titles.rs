use vstd::prelude::*;
use crate::error::GatewayError;

verus! {

/// The titles of the tabs that have one, in the order given.
pub open spec fn present_titles(tabs: Seq<Option<String>>) -> Seq<Seq<char>>
    decreases tabs.len(),
{
    if tabs.len() == 0 {
        Seq::empty()
    } else {
        let rest = present_titles(tabs.drop_last());
        match tabs.last() {
            Some(t) => rest.push(t@),
            None => rest,
        }
    }
}

/// Whether the metadata lists no tab at all.
pub open spec fn lists_no_tab(tabs: Option<Vec<Option<String>>>) -> bool {
    match tabs {
        None => true,
        Some(t) => t@.len() == 0,
    }
}

/// The titles of a spreadsheet's tabs, from the title of each tab as the
/// metadata gives it (`None` for a tab without one). Tabs without a title are
/// skipped; a spreadsheet without tabs gives `NoSheetsFound`, not an empty list.
pub fn sheet_titles(tabs: Option<Vec<Option<String>>>) -> (r: Result<Vec<String>, GatewayError>)
    ensures
        r is Err <==> lists_no_tab(tabs),
        r is Err ==> r->Err_0 is NoSheetsFound,
        r is Ok ==> r->Ok_0.deep_view() == present_titles(tabs->Some_0@),
{
    match tabs {
        None => Err(GatewayError::NoSheetsFound),
        Some(v) => {
            if v.len() == 0 {
                return Err(GatewayError::NoSheetsFound);
            }
            let mut out: Vec<String> = Vec::new();
            let mut i: usize = 0;
            while i < v.len()
                invariant
                    i <= v@.len(),
                    out.deep_view() == present_titles(v@.subrange(0, i as int)),
                decreases v@.len() - i,
            {
                proof {
                    assert(v@.subrange(0, i + 1).drop_last() =~= v@.subrange(0, i as int));
                }
                match &v[i] {
                    Some(t) => {
                        out.push(t.clone());
                        proof {
                            assert(out.deep_view() =~= present_titles(v@.subrange(0, i + 1)));
                        }
                    },
                    None => {},
                }
                i = i + 1;
            }
            proof {
                assert(v@.subrange(0, v@.len() as int) =~= v@);
            }
            Ok(out)
        },
    }
}

} // verus!
