//! Numbered requests answered with the number's name.

use vstd::prelude::*;

verus! {

/// The name that answers request `req`.
pub open spec fn number_name(req: u32) -> Seq<char> {
    if req == 1 {
        "ONE"@
    } else if req == 2 {
        "TWO"@
    } else if req == 3 {
        "THREE"@
    } else {
        "UNKNOWN"@
    }
}

/// 1, 2 and 3 are named `ONE`, `TWO` and `THREE`; every other number,
/// 0 and all from 4 up, is `UNKNOWN`.
pub proof fn law_number_names(req: u32)
    ensures
        req == 1 ==> number_name(req) == "ONE"@,
        req == 2 ==> number_name(req) == "TWO"@,
        req == 3 ==> number_name(req) == "THREE"@,
        req != 1 && req != 2 && req != 3 ==> number_name(req) == "UNKNOWN"@,
        forall|n: u32| n >= 4 ==> #[trigger] number_name(n) == "UNKNOWN"@,
{
}

/// The answer to request `req`: `ONE`, `TWO` and `THREE` for 1, 2 and 3,
/// `UNKNOWN` for any other number.
pub fn get_response(req: u32) -> (res: String)
    ensures
        res@ == number_name(req),
        req == 1 ==> res@ == "ONE"@,
        req == 2 ==> res@ == "TWO"@,
        req == 3 ==> res@ == "THREE"@,
        req != 1 && req != 2 && req != 3 ==> res@ == "UNKNOWN"@,
{
    match req {
        1 => "ONE".to_string(),
        2 => "TWO".to_string(),
        3 => "THREE".to_string(),
        _ => "UNKNOWN".to_string(),
    }
}

} // verus!
