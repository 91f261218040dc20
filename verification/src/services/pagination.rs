//! Page boundaries and the link set of a listing, as a function of the
//! requested window and the total number of tasks.

use vstd::prelude::*;
use vstd::string::*;
use crate::models::task_list_response::{Link, LinkHref, LinkView};
use crate::render::{decimal, push_decimal};

verus! {

/// Offset of the last page: the largest multiple of `limit` that does not
/// exceed `total`. With a limit that is not positive no paging is computed
/// and the last page is the first.
pub open spec fn last_offset(total: int, limit: int) -> int {
    if limit > 0 {
        (total / limit) * limit
    } else {
        0
    }
}

/// Offset of the page before the window, where there is one.
pub open spec fn previous_offset(offset: int, limit: int) -> Option<int> {
    if offset - limit >= 0 {
        Some(offset - limit)
    } else {
        None
    }
}

/// Offset of the page after the window, where there is one.
pub open spec fn next_offset(offset: int, limit: int, total: int) -> Option<int> {
    if offset + limit <= last_offset(total, limit) {
        Some(offset + limit)
    } else {
        None
    }
}

/// The window a link points to.
#[derive(Debug, Clone, Copy, PartialEq, Eq)]
pub struct PageRef {
    pub offset: i128,
    pub limit: i64,
}

/// The windows that the links of a page point to.
#[derive(Debug, Clone, Copy, PartialEq, Eq)]
pub struct PageLinks {
    pub first: PageRef,
    pub last: PageRef,
    pub previous: Option<PageRef>,
    pub next: Option<PageRef>,
    pub self_link: PageRef,
}

/// The window at `offset`, where there is such a page.
pub open spec fn optional_page(offset: Option<int>, limit: int) -> Option<PageRef> {
    match offset {
        Some(o) => Some(PageRef { offset: o as i128, limit: limit as i64 }),
        None => None,
    }
}

/// The link windows of the page `(offset, limit)` among `total` tasks.
pub open spec fn page_links_of(offset: int, limit: int, total: int) -> PageLinks {
    PageLinks {
        first: PageRef { offset: 0, limit: limit as i64 },
        last: PageRef { offset: last_offset(total, limit) as i128, limit: limit as i64 },
        previous: optional_page(previous_offset(offset, limit), limit),
        next: optional_page(next_offset(offset, limit, total), limit),
        self_link: PageRef { offset: offset as i128, limit: limit as i64 },
    }
}

/// The last offset lies on a page boundary between zero and the total.
pub proof fn lemma_last_offset_bounds(total: int, limit: int)
    requires
        total >= 0,
    ensures
        0 <= last_offset(total, limit) <= total,
        limit > 0 ==> last_offset(total, limit) % limit == 0,
        limit > 0 ==> total - last_offset(total, limit) < limit,
{
    if limit > 0 {
        assert(0 <= (total / limit) * limit <= total && ((total / limit) * limit) % limit == 0
            && total - (total / limit) * limit < limit) by (nonlinear_arith)
            requires
                total >= 0,
                limit > 0,
        ;
    }
}

/// Computes the offset of the last page.
pub fn compute_last_offset(total: u64, limit: i64) -> (last: u64)
    ensures
        last as int == last_offset(total as int, limit as int),
        last <= total,
{
    proof {
        lemma_last_offset_bounds(total as int, limit as int);
    }
    if limit > 0 {
        let step: u64 = limit as u64;
        (total / step) * step
    } else {
        0
    }
}

/// Computes the link windows of the page `(offset, limit)` among `total`
/// tasks.
pub fn page_links(offset: u64, limit: i64, total: u64) -> (links: PageLinks)
    ensures
        links == page_links_of(offset as int, limit as int, total as int),
        links.first == (PageRef { offset: 0, limit }),
        links.last.offset == last_offset(total as int, limit as int),
        links.last.limit == limit,
        links.self_link == (PageRef { offset: offset as i128, limit }),
        links.previous.is_some() <==> offset as int - limit as int >= 0,
        links.previous.is_some() ==> links.previous.unwrap() == (PageRef {
            offset: (offset - limit) as i128,
            limit,
        }),
        links.next.is_some() <==> offset as int + limit as int <= last_offset(
            total as int,
            limit as int,
        ),
        links.next.is_some() ==> links.next.unwrap() == (PageRef {
            offset: (offset + limit) as i128,
            limit,
        }),
{
    let last: u64 = compute_last_offset(total, limit);
    let before: i128 = offset as i128 - limit as i128;
    let after: i128 = offset as i128 + limit as i128;
    let previous = if before >= 0 {
        Some(PageRef { offset: before, limit })
    } else {
        None
    };
    let next = if after <= last as i128 {
        Some(PageRef { offset: after, limit })
    } else {
        None
    };
    PageLinks {
        first: PageRef { offset: 0, limit },
        last: PageRef { offset: last as i128, limit },
        previous,
        next,
        self_link: PageRef { offset: offset as i128, limit },
    }
}

/// Text of the link to the window `(offset, limit)`.
pub open spec fn href_text(offset: int, limit: int) -> Seq<char> {
    "/api/tasks?offset="@ + decimal(offset) + "&limit="@ + decimal(limit)
}

/// Text of the link to `page`.
pub open spec fn page_href(page: PageRef) -> Seq<char> {
    href_text(page.offset as int, page.limit as int)
}

/// Text of the link to `page`, where there is one.
pub open spec fn optional_page_href(page: Option<PageRef>) -> Option<Seq<char>> {
    match page {
        Some(p) => Some(page_href(p)),
        None => None,
    }
}

/// The rendered form of a set of link windows.
pub open spec fn rendered_links(links: PageLinks) -> LinkView {
    LinkView {
        first: page_href(links.first),
        last: page_href(links.last),
        previous: optional_page_href(links.previous),
        next: optional_page_href(links.next),
        self_link: page_href(links.self_link),
    }
}

/// Renders the link to `page`.
pub fn render_href(page: PageRef) -> (link: LinkHref)
    ensures
        link@ == page_href(page),
{
    let mut href = String::from_str("/api/tasks?offset=");
    push_decimal(&mut href, page.offset);
    href.append("&limit=");
    push_decimal(&mut href, page.limit as i128);
    LinkHref { href }
}

/// Renders a set of link windows.
pub fn render_links(links: PageLinks) -> (rendered: Link)
    ensures
        rendered@ == rendered_links(links),
{
    let previous = match links.previous {
        Some(p) => Some(render_href(p)),
        None => None,
    };
    let next = match links.next {
        Some(p) => Some(render_href(p)),
        None => None,
    };
    Link {
        first: render_href(links.first),
        last: render_href(links.last),
        previous,
        next,
        self_link: render_href(links.self_link),
    }
}

} // verus!
