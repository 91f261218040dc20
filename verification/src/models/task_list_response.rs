//! The envelope that a listing returns: a page of task summaries, the
//! numbers that describe the page, and links to the neighbouring pages.

use vstd::prelude::*;

verus! {

/// Summary of one task inside a page.
#[derive(Debug, Clone, PartialEq, Eq)]
pub struct Tasks {
    pub id: String,
    pub title: String,
    pub body: String,
}

/// Mathematical value of a [`Tasks`] summary.
pub struct TasksView {
    pub id: Seq<char>,
    pub title: Seq<char>,
    pub body: Seq<char>,
}

impl View for Tasks {
    type V = TasksView;

    open spec fn view(&self) -> TasksView {
        TasksView { id: self.id@, title: self.title@, body: self.body@ }
    }
}

/// Views of a sequence of summaries, element by element.
pub open spec fn summary_views(page: Seq<Tasks>) -> Seq<TasksView> {
    page.map_values(|t: Tasks| t@)
}

/// The numbers that describe a page. The search and sort descriptors are
/// carried but never set.
#[derive(Debug, Clone, PartialEq, Eq)]
pub struct Meta {
    pub offset: u64,
    pub limit: i64,
    pub total_results: u64,
    pub search_criteria: Option<String>,
    pub sort_by: Option<String>,
}

/// Mathematical value of a [`Meta`].
pub struct MetaView {
    pub offset: int,
    pub limit: int,
    pub total_results: int,
    pub search_criteria: Option<Seq<char>>,
    pub sort_by: Option<Seq<char>>,
}

/// View of an optional text.
pub open spec fn optional_text(text: Option<String>) -> Option<Seq<char>> {
    match text {
        Some(t) => Some(t@),
        None => None,
    }
}

impl View for Meta {
    type V = MetaView;

    open spec fn view(&self) -> MetaView {
        MetaView {
            offset: self.offset as int,
            limit: self.limit as int,
            total_results: self.total_results as int,
            search_criteria: optional_text(self.search_criteria),
            sort_by: optional_text(self.sort_by),
        }
    }
}

/// One link: the target as a query-string URL.
#[derive(Debug, Clone, PartialEq, Eq)]
pub struct LinkHref {
    pub href: String,
}

impl View for LinkHref {
    type V = Seq<char>;

    open spec fn view(&self) -> Seq<char> {
        self.href@
    }
}

/// The links of a page. `previous` and `next` are present only where such a
/// page exists.
#[derive(Debug, Clone, PartialEq, Eq)]
pub struct Link {
    pub first: LinkHref,
    pub last: LinkHref,
    pub previous: Option<LinkHref>,
    pub next: Option<LinkHref>,
    pub self_link: LinkHref,
}

/// Mathematical value of a [`Link`]: the text of each target.
pub struct LinkView {
    pub first: Seq<char>,
    pub last: Seq<char>,
    pub previous: Option<Seq<char>>,
    pub next: Option<Seq<char>>,
    pub self_link: Seq<char>,
}

/// View of an optional link.
pub open spec fn optional_href(link: Option<LinkHref>) -> Option<Seq<char>> {
    match link {
        Some(l) => Some(l@),
        None => None,
    }
}

impl View for Link {
    type V = LinkView;

    open spec fn view(&self) -> LinkView {
        LinkView {
            first: self.first@,
            last: self.last@,
            previous: optional_href(self.previous),
            next: optional_href(self.next),
            self_link: self.self_link@,
        }
    }
}

/// A page of tasks with its description and links.
#[derive(Debug, Clone, PartialEq, Eq)]
pub struct TaskListResponse {
    pub data: Vec<Tasks>,
    pub meta: Meta,
    pub _link: Link,
}

/// Mathematical value of a [`TaskListResponse`].
pub struct TaskListResponseView {
    pub data: Seq<TasksView>,
    pub meta: MetaView,
    pub _link: LinkView,
}

impl View for TaskListResponse {
    type V = TaskListResponseView;

    open spec fn view(&self) -> TaskListResponseView {
        TaskListResponseView {
            data: summary_views(self.data@),
            meta: self.meta@,
            _link: self._link@,
        }
    }
}

} // verus!
