use vstd::prelude::*;
use crate::error::GatewayError;

verus! {

/// A sheet name fits the range template when it holds no `!`, the character
/// that separates the sheet from the cells.
pub open spec fn valid_sheet_name(name: Seq<char>) -> bool {
    forall|i: int| 0 <= i < name.len() ==> name[i] != '!'
}

/// The range that every operation on a sheet covers: columns A to Z, all rows.
pub open spec fn range_of(name: Seq<char>) -> Seq<char> {
    name + "!A:Z"@
}

/// Whether `name` fits the range template.
pub fn is_valid_sheet_name(name: &str) -> (r: bool)
    ensures
        r == valid_sheet_name(name@),
{
    let n = name.unicode_len();
    let mut i: usize = 0;
    while i < n
        invariant
            n == name@.len(),
            i <= n,
            forall|j: int| 0 <= j < i ==> name@[j] != '!',
        decreases n - i,
    {
        if name.get_char(i) == '!' {
            return false;
        }
        i = i + 1;
    }
    true
}

/// The range `"{name}!A:Z"`, or `InvalidSheetName` where the name holds `!`.
pub fn sheet_range(name: &str) -> (r: Result<String, GatewayError>)
    ensures
        r is Ok <==> valid_sheet_name(name@),
        r is Ok ==> r->Ok_0@ == range_of(name@),
        r is Err ==> r->Err_0 is InvalidSheetName && r->Err_0->InvalidSheetName_0@ == name@,
{
    if is_valid_sheet_name(name) {
        let mut s = String::from_str(name);
        s.append("!A:Z");
        Ok(s)
    } else {
        Err(GatewayError::InvalidSheetName(String::from_str(name)))
    }
}

} // verus!
