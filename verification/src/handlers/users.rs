//! The user search page: paging.

use vstd::prelude::*;

verus! {

/// Users per search page.
pub const SEARCH_PAGE_SIZE: u32 = 25;

/// The query of the search page.
pub struct SearchParams {
    pub q: Option<String>,
    pub page: Option<u32>,
}

/// The query of the user page: a notice or warning to show.
pub struct DetailQuery {
    pub notice: Option<String>,
    pub warning: Option<String>,
}

/// The page asked for: the first when absent or zero.
pub fn search_page(page: Option<u32>) -> (res: u32)
    ensures
        res == match page {
            Some(p) => if p < 1 {
                1
            } else {
                p
            },
            None => 1,
        },
{
    match page {
        Some(p) => if p < 1 {
            1
        } else {
            p
        },
        None => 1,
    }
}

/// The offset of the first user of page `page`.
pub fn search_first(page: u32) -> (res: u32)
    requires
        1 <= page,
        (page - 1) * 25 <= u32::MAX,
    ensures
        res == (page - 1) * 25,
{
    (page - 1) * 25
}

/// The number of pages of `total` users, at least one.
pub fn search_total_pages(total: u32) -> (res: u32)
    ensures
        res == (if total == 0 {
            1
        } else {
            (total + 24) / 25
        }),
{
    let full = total / 25;
    let n = if total % 25 == 0 {
        full
    } else {
        full + 1
    };
    if n < 1 {
        1
    } else {
        n
    }
}


/// The search pages cover every user and no page is empty except the only
/// one: `pages` pages of 25 hold the total, and one page fewer would not.
pub proof fn law_search_pages_cover(total: nat)
    ensures
        ({
            let pages = if total == 0 {
                1
            } else {
                (total + 24) / 25
            };
            &&& pages >= 1
            &&& pages * 25 >= total
            &&& total > 0 ==> (pages - 1) * 25 < total
        }),
{
    if total > 0 {
        let pages = (total + 24) / 25;
        assert(pages * 25 >= total && (pages - 1) * 25 < total && pages >= 1) by (nonlinear_arith)
            requires
                pages == (total + 24) / 25,
                total > 0,
        ;
    }
}

} // verus!
