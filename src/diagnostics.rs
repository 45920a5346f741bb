//! Where the host documents its system error codes: the codes are listed on
//! pages that each cover one range.

use vstd::prelude::*;

verus! {

/// The bounds, inclusive, of the documentation page that lists `code`, or
/// `None` for codes past the last page.
pub open spec fn page_of(code: u32) -> Option<(u32, u32)> {
    if code <= 499 {
        Some((0, 499))
    } else if code <= 999 {
        Some((500, 999))
    } else if code <= 1299 {
        Some((1000, 1299))
    } else if code <= 1699 {
        Some((1300, 1699))
    } else if code <= 3999 {
        Some((1700, 3999))
    } else if code <= 5999 {
        Some((4000, 5999))
    } else if code <= 8199 {
        Some((6000, 8199))
    } else if code <= 8999 {
        Some((8200, 8999))
    } else if code <= 11999 {
        Some((9000, 11999))
    } else if code <= 15999 {
        Some((12000, 15999))
    } else {
        None
    }
}

/// The documentation page range of a system error code.
pub fn error_code_page(code: u32) -> (r: Option<(u32, u32)>)
    ensures
        r == page_of(code),
        r matches Some((lo, hi)) ==> lo <= code <= hi,
{
    let bounds: [(u32, u32); 10] = [
        (0, 499),
        (500, 999),
        (1000, 1299),
        (1300, 1699),
        (1700, 3999),
        (4000, 5999),
        (6000, 8199),
        (8200, 8999),
        (9000, 11999),
        (12000, 15999),
    ];
    let mut i: usize = 0;
    while i < 10
        invariant
            0 <= i <= 10,
            bounds@ == seq![
                (0u32, 499u32),
                (500u32, 999u32),
                (1000u32, 1299u32),
                (1300u32, 1699u32),
                (1700u32, 3999u32),
                (4000u32, 5999u32),
                (6000u32, 8199u32),
                (8200u32, 8999u32),
                (9000u32, 11999u32),
                (12000u32, 15999u32),
            ],
            i > 0 ==> code > bounds@[i - 1].1,
        decreases 10 - i,
    {
        if code <= bounds[i].1 {
            return Some(bounds[i]);
        }
        i = i + 1;
    }
    None
}

} // verus!
