//! Page layouts, the page arithmetic of a paginated response, and the
//! rendering of one page.

use vstd::prelude::*;

use crate::text::{concat_all, concat_range, decimal, decimal_string};

verus! {

/// How the items of a paginated response are grouped into pages.
#[derive(Clone, Copy, Debug, PartialEq, Eq, Structural)]
pub enum PageLayout {
    /// `items_per_page` items on each page, shown as one text.
    Standard { items_per_page: usize },
    /// Items grouped into chunks of `chunk_size`, `chunks_per_page` chunks
    /// on each page, each chunk labelled with the range of items it holds.
    Chunked { chunk_size: usize, chunks_per_page: usize },
}

/// `a / b`, rounded up.
pub open spec fn ceil_div(a: int, b: int) -> int {
    (a + b - 1) / b
}

impl PageLayout {
    /// Every size is positive, and a page's capacity fits in a `usize`.
    pub open spec fn valid(self) -> bool {
        match self {
            PageLayout::Standard { items_per_page } => items_per_page > 0,
            PageLayout::Chunked { chunk_size, chunks_per_page } => chunk_size > 0
                && chunks_per_page > 0 && chunk_size * chunks_per_page <= usize::MAX,
        }
    }

    /// How many items one page shows.
    pub open spec fn capacity(self) -> int {
        match self {
            PageLayout::Standard { items_per_page } => items_per_page as int,
            PageLayout::Chunked { chunk_size, chunks_per_page } => chunk_size * chunks_per_page,
        }
    }

    /// The number of pages for `len` items; no items still make one page.
    pub open spec fn pages_for(self, len: nat) -> int {
        if len == 0 {
            1
        } else {
            ceil_div(len as int, self.capacity())
        }
    }

    /// Whether every size is positive and a page's capacity fits in a `usize`.
    pub fn is_valid(&self) -> (r: bool)
        ensures
            r == self.valid(),
    {
        match *self {
            PageLayout::Standard { items_per_page } => items_per_page > 0,
            PageLayout::Chunked { chunk_size, chunks_per_page } => {
                if chunk_size == 0 || chunks_per_page == 0 {
                    return false;
                }
                proof {
                    let m = usize::MAX as int;
                    let c = chunk_size as int;
                    let p = chunks_per_page as int;
                    assert((p <= m / c) == (c * p <= m))
                        by (nonlinear_arith) requires c > 0, p > 0, m > 0;
                }
                chunks_per_page <= usize::MAX / chunk_size
            },
        }
    }

    /// Computes the number of pages needed to show `len` items.
    pub fn required_pages(&self, len: usize) -> (r: usize)
        requires
            self.valid(),
        ensures
            r == self.pages_for(len as nat),
            1 <= r,
            len > 0 ==> r as int * self.capacity() >= len,
            len > 0 ==> (r as int - 1) * self.capacity() < len,
    {
        let cap: usize = match *self {
            PageLayout::Standard { items_per_page } => items_per_page,
            PageLayout::Chunked { chunk_size, chunks_per_page } => chunk_size * chunks_per_page,
        };
        proof {
            if let PageLayout::Chunked { chunk_size, chunks_per_page } = *self {
                assert(chunk_size * chunks_per_page > 0) by (nonlinear_arith)
                    requires chunk_size > 0, chunks_per_page > 0;
            }
        }
        assert(cap as int == self.capacity() && cap > 0);
        if len == 0 {
            return 1;
        }
        let q = len / cap;
        proof {
            assert(len % cap != 0 ==> q < usize::MAX) by (nonlinear_arith)
                requires q == len / cap, cap > 0, len <= usize::MAX;
        }
        let r = if len % cap != 0 { q + 1 } else { q };
        proof {
            let l = len as int;
            let c = cap as int;
            assert(c > 0);
            assert(l == c * (l / c) + l % c) by (nonlinear_arith) requires c > 0;
            assert(0 <= l % c < c) by (nonlinear_arith) requires c > 0;
            if l % c != 0 {
                assert((l + c - 1) / c == l / c + 1) by (nonlinear_arith)
                    requires c > 0, l == c * (l / c) + l % c, 0 < l % c < c;
            } else {
                assert((l + c - 1) / c == l / c) by (nonlinear_arith)
                    requires c > 0, l == c * (l / c);
            }
            assert(r as int * c >= l) by (nonlinear_arith)
                requires c > 0, l == c * (l / c) + l % c, 0 <= l % c < c,
                    r == (if l % c != 0 { l / c + 1 } else { l / c });
            assert((r as int - 1) * c < l) by (nonlinear_arith)
                requires c > 0, l == c * (l / c) + l % c, 0 <= l % c < c, l > 0,
                    r == (if l % c != 0 { l / c + 1 } else { l / c });
            assert(r >= 1) by (nonlinear_arith)
                requires c > 0, l == c * (l / c) + l % c, 0 <= l % c < c, l > 0,
                    r == (if l % c != 0 { l / c + 1 } else { l / c });
        }
        r
    }
}

/// When the footer shows "page X of Y".
#[derive(Clone, Copy, Debug, PartialEq, Eq, Structural)]
pub enum ShowPageCount {
    Always,
    WhenSeveralPages,
    Never,
}

/// Who may turn the pages of a response.
#[derive(Clone, Copy, Debug, PartialEq, Eq, Structural)]
pub enum PageChangePermission {
    /// Only the user whose command produced the response.
    Interactor,
    Everyone,
}

/// The colour of every page's embed.
pub const PAGE_COLOUR: u32 = 6_282_735;

/// The page after `page`, wrapping from the last page to the first.
pub open spec fn spec_next_page(page: int, pages: int) -> int {
    if page + 1 > pages {
        1
    } else {
        page + 1
    }
}

/// The page before `page`, wrapping from the first page to the last.
pub open spec fn spec_previous_page(page: int, pages: int) -> int {
    if page - 1 < 1 {
        pages
    } else {
        page - 1
    }
}

/// Turns to the next page.
pub fn next_page(page: usize, required_pages: usize) -> (r: usize)
    requires
        1 <= page <= required_pages,
    ensures
        r == spec_next_page(page as int, required_pages as int),
        1 <= r <= required_pages,
{
    if page >= required_pages {
        1
    } else {
        page + 1
    }
}

/// Turns to the previous page.
pub fn previous_page(page: usize, required_pages: usize) -> (r: usize)
    requires
        1 <= page <= required_pages,
    ensures
        r == spec_previous_page(page as int, required_pages as int),
        1 <= r <= required_pages,
{
    if page <= 1 {
        required_pages
    } else {
        page - 1
    }
}

/// Whether the footer shows the page count.
pub open spec fn shows_count(policy: ShowPageCount, pages: int) -> bool {
    match policy {
        ShowPageCount::Always => true,
        ShowPageCount::WhenSeveralPages => pages > 1,
        ShowPageCount::Never => false,
    }
}

/// The footer text of page `page` of `pages`.
pub open spec fn footer_text(page: nat, pages: nat) -> Seq<char> {
    "page "@ + decimal(page) + " of "@ + decimal(pages)
}

/// `min(x, bound)`.
pub open spec fn clamp(x: int, bound: int) -> int {
    if x < bound {
        x
    } else {
        bound
    }
}

/// The text of page `page` in a standard layout.
pub open spec fn standard_text(items: Seq<Seq<char>>, per_page: int, page: int) -> Seq<char> {
    let start = clamp((page - 1) * per_page, items.len() as int);
    let end = clamp(start + per_page, items.len() as int);
    concat_all(items.subrange(start, end))
}

/// The number of chunks of `chunk_size` that `len` items make.
pub open spec fn chunk_count(len: int, chunk_size: int) -> int {
    ceil_div(len, chunk_size)
}

/// The 1-based number of the last item of chunk `i`.
pub open spec fn chunk_last(len: int, chunk_size: int, i: int) -> int {
    clamp((i + 1) * chunk_size, len)
}

/// The label of chunk `i`: the range of the items it holds, counted from one.
pub open spec fn chunk_label(len: int, chunk_size: int, i: int) -> Seq<char> {
    decimal((i * chunk_size + 1) as nat) + "\u{2013}"@ + decimal(chunk_last(len, chunk_size, i) as nat)
}

/// The text of chunk `i`.
pub open spec fn chunk_text(items: Seq<Seq<char>>, chunk_size: int, i: int) -> Seq<char> {
    concat_all(items.subrange(i * chunk_size, chunk_last(items.len() as int, chunk_size, i)))
}

/// The first chunk on page `page`.
pub open spec fn first_chunk(chunks_per_page: int, page: int) -> int {
    (page - 1) * chunks_per_page
}

/// The number of chunks on page `page`.
pub open spec fn chunks_on_page(len: int, chunk_size: int, chunks_per_page: int, page: int) -> int {
    let first = first_chunk(chunks_per_page, page);
    let last = clamp(first + chunks_per_page, chunk_count(len, chunk_size));
    if last > first {
        last - first
    } else {
        0
    }
}

/// The labelled fields of page `page` in a chunked layout.
pub open spec fn chunked_fields(
    items: Seq<Seq<char>>,
    chunk_size: int,
    chunks_per_page: int,
    page: int,
) -> Seq<(Seq<char>, Seq<char>)> {
    let first = first_chunk(chunks_per_page, page);
    Seq::new(
        chunks_on_page(items.len() as int, chunk_size, chunks_per_page, page) as nat,
        |k: int|
            (
                chunk_label(items.len() as int, chunk_size, first + k),
                chunk_text(items, chunk_size, first + k),
            ),
    )
}

/// One labelled part of a page.
#[derive(Clone, Debug)]
pub struct PageField {
    pub name: String,
    pub value: String,
}

impl PageField {
    pub open spec fn view(self) -> (Seq<char>, Seq<char>) {
        (self.name@, self.value@)
    }
}

/// The views of `fields`.
pub open spec fn field_views(fields: Seq<PageField>) -> Seq<(Seq<char>, Seq<char>)> {
    fields.map_values(|f: PageField| f.view())
}

/// What one page of a paginated response shows.
#[derive(Clone, Debug)]
pub struct PageView {
    pub title: Option<String>,
    /// The text of a standard page.
    pub description: Option<String>,
    /// The chunks of a chunked page.
    pub fields: Vec<PageField>,
    pub footer: Option<String>,
}

/// The abstract content of a page.
pub struct PageContent {
    pub title: Option<Seq<char>>,
    pub description: Option<Seq<char>>,
    pub fields: Seq<(Seq<char>, Seq<char>)>,
    pub footer: Option<Seq<char>>,
}

/// The view of an optional string.
pub open spec fn opt_view(s: Option<String>) -> Option<Seq<char>> {
    match s {
        Some(t) => Some(t@),
        None => None,
    }
}

impl PageView {
    pub open spec fn view(self) -> PageContent {
        PageContent {
            title: opt_view(self.title),
            description: opt_view(self.description),
            fields: field_views(self.fields@),
            footer: opt_view(self.footer),
        }
    }
}

/// The configuration of a paginated response: what it shows, how, and for
/// how long it can be navigated.
#[derive(Clone, Debug)]
pub struct PaginatedList {
    pub title: Option<String>,
    pub layout: PageLayout,
    /// The items, each already formatted as text.
    pub data: Vec<String>,
    pub show_page_count: ShowPageCount,
    pub page_change_perm: PageChangePermission,
    /// How long, in milliseconds, the response can be navigated.
    pub timeout_millis: u64,
    /// Whether the message is deleted when navigation ends.
    pub delete_when_dropped: bool,
}

/// The default number of items on a standard page.
pub const DEFAULT_ITEMS_PER_PAGE: usize = 5;

/// The default navigation time: fifteen minutes.
pub const DEFAULT_TIMEOUT_MILLIS: u64 = 900_000;

impl PaginatedList {
    pub open spec fn wf(self) -> bool {
        self.layout.valid()
    }

    /// The items as text.
    pub open spec fn items(self) -> Seq<Seq<char>> {
        self.data@.map_values(|d: String| d@)
    }

    /// The number of pages that the items take.
    pub open spec fn pages(self) -> int {
        self.layout.pages_for(self.data@.len())
    }

    /// What page `page` shows.
    pub open spec fn page_content(self, page: int) -> PageContent {
        let pages = self.pages();
        PageContent {
            title: opt_view(self.title),
            description: match self.layout {
                PageLayout::Standard { items_per_page } => Some(
                    standard_text(self.items(), items_per_page as int, page),
                ),
                PageLayout::Chunked { .. } => None,
            },
            fields: match self.layout {
                PageLayout::Standard { .. } => Seq::empty(),
                PageLayout::Chunked { chunk_size, chunks_per_page } => chunked_fields(
                    self.items(),
                    chunk_size as int,
                    chunks_per_page as int,
                    page,
                ),
            },
            footer: if shows_count(self.show_page_count, pages) {
                Some(footer_text(page as nat, pages as nat))
            } else {
                None
            },
        }
    }

    /// A list with every option at its default: no title, five items to a
    /// standard page, no items, the page count shown only when there are
    /// several pages, navigation open to everyone, fifteen minutes of
    /// navigation, and the message kept when navigation ends.
    pub fn new() -> (r: PaginatedList)
        ensures
            r.title is None,
            r.layout == (PageLayout::Standard { items_per_page: DEFAULT_ITEMS_PER_PAGE }),
            r.data@.len() == 0,
            r.show_page_count == ShowPageCount::WhenSeveralPages,
            r.page_change_perm == PageChangePermission::Everyone,
            r.timeout_millis == DEFAULT_TIMEOUT_MILLIS,
            !r.delete_when_dropped,
            r.wf(),
    {
        PaginatedList {
            title: None,
            layout: PageLayout::Standard { items_per_page: DEFAULT_ITEMS_PER_PAGE },
            data: Vec::new(),
            show_page_count: ShowPageCount::WhenSeveralPages,
            page_change_perm: PageChangePermission::Everyone,
            timeout_millis: DEFAULT_TIMEOUT_MILLIS,
            delete_when_dropped: false,
        }
    }

    /// Sets the title.
    pub fn title(&mut self, title: &str) -> (r: &mut PaginatedList)
        ensures
            r.title matches Some(t) && t@ == title@,
            *r == (PaginatedList { title: r.title, ..*old(self) }),
            *final(self) == *final(r),
    {
        self.title = Some(String::from_str(title));
        self
    }

    /// Sets how items are grouped into pages.
    pub fn layout(&mut self, layout: PageLayout) -> (r: &mut PaginatedList)
        ensures
            *r == (PaginatedList { layout, ..*old(self) }),
            *final(self) == *final(r),
    {
        self.layout = layout;
        self
    }

    /// Sets the items, each already formatted as text.
    pub fn data(&mut self, data: Vec<String>) -> (r: &mut PaginatedList)
        ensures
            *r == (PaginatedList { data, ..*old(self) }),
            *final(self) == *final(r),
    {
        self.data = data;
        self
    }

    /// Sets when the page count is shown.
    pub fn show_page_count(&mut self, show_page_count: ShowPageCount) -> (r: &mut PaginatedList)
        ensures
            *r == (PaginatedList { show_page_count, ..*old(self) }),
            *final(self) == *final(r),
    {
        self.show_page_count = show_page_count;
        self
    }

    /// Sets who may turn the pages.
    pub fn page_change_permission(&mut self, permission: PageChangePermission) -> (r: &mut PaginatedList)
        ensures
            *r == (PaginatedList { page_change_perm: permission, ..*old(self) }),
            *final(self) == *final(r),
    {
        self.page_change_perm = permission;
        self
    }

    /// Sets how long, in milliseconds, the response can be navigated.
    pub fn timeout(&mut self, millis: u64) -> (r: &mut PaginatedList)
        ensures
            *r == (PaginatedList { timeout_millis: millis, ..*old(self) }),
            *final(self) == *final(r),
    {
        self.timeout_millis = millis;
        self
    }

    /// Sets whether the message is deleted when navigation ends.
    pub fn delete_when_dropped(&mut self, delete: bool) -> (r: &mut PaginatedList)
        ensures
            *r == (PaginatedList { delete_when_dropped: delete, ..*old(self) }),
            *final(self) == *final(r),
    {
        self.delete_when_dropped = delete;
        self
    }

    /// The number of pages that the items take.
    pub fn required_pages(&self) -> (r: usize)
        requires
            self.wf(),
        ensures
            r == self.pages(),
            r >= 1,
    {
        self.layout.required_pages(self.data.len())
    }

    /// Renders page `page` of `required_pages`.
    pub fn create_page(&self, page: usize, required_pages: usize) -> (r: PageView)
        requires
            self.wf(),
            required_pages == self.pages(),
            1 <= page <= required_pages,
        ensures
            r.view() == self.page_content(page as int),
    {
        let title = match &self.title {
            Some(t) => Some(t.clone()),
            None => None,
        };
        let len = self.data.len();
        let mut fields: Vec<PageField> = Vec::new();
        let description = match self.layout {
            PageLayout::Standard { items_per_page } => {
                let start = self.page_start(page, items_per_page, required_pages);
                let end = if len - start < items_per_page { len } else { start + items_per_page };
                Some(concat_range(&self.data, start, end))
            },
            PageLayout::Chunked { chunk_size, chunks_per_page } => {
                fields = self.chunk_fields(page, chunk_size, chunks_per_page, required_pages);
                None
            },
        };
        let footer = if self.shows_count(required_pages) {
            let mut f = String::from_str("page ");
            f.append(decimal_string(page).as_str());
            f.append(" of ");
            f.append(decimal_string(required_pages).as_str());
            Some(f)
        } else {
            None
        };
        let r = PageView { title, description, fields, footer };
        proof {
            assert(r.view().fields =~= self.page_content(page as int).fields);
        }
        r
    }

    /// The labelled chunks of `page` in a chunked layout.
    fn chunk_fields(
        &self,
        page: usize,
        chunk_size: usize,
        chunks_per_page: usize,
        required_pages: usize,
    ) -> (r: Vec<PageField>)
        requires
            self.wf(),
            self.layout == (PageLayout::Chunked { chunk_size, chunks_per_page }),
            required_pages == self.pages(),
            1 <= page <= required_pages,
        ensures
            field_views(r@) == chunked_fields(
                self.items(),
                chunk_size as int,
                chunks_per_page as int,
                page as int,
            ),
    {
        let ghost items = self.items();
        let len = self.data.len();
        proof {
            assert(len % chunk_size != 0 ==> len / chunk_size < usize::MAX) by (nonlinear_arith)
                requires chunk_size > 0, len <= usize::MAX;
        }
        let count = if len % chunk_size != 0 { len / chunk_size + 1 } else { len / chunk_size };
        proof {
            let l = len as int;
            let c = chunk_size as int;
            assert(l == c * (l / c) + l % c) by (nonlinear_arith) requires c > 0;
            assert(0 <= l % c < c) by (nonlinear_arith) requires c > 0;
            if l % c != 0 {
                assert((l + c - 1) / c == l / c + 1) by (nonlinear_arith)
                    requires c > 0, l == c * (l / c) + l % c, 0 < l % c < c;
            } else {
                assert((l + c - 1) / c == l / c) by (nonlinear_arith)
                    requires c > 0, l == c * (l / c);
            }
            assert(count == chunk_count(l, c));
            assert(count as int * c < l + c) by (nonlinear_arith)
                requires c > 0, l == c * (l / c) + l % c, 0 <= l % c < c,
                    count == (if l % c != 0 { l / c + 1 } else { l / c });
        }
        let first = if page - 1 > count / chunks_per_page {
            count
        } else {
            proof {
                assert((page - 1) * chunks_per_page <= count) by (nonlinear_arith)
                    requires page - 1 <= count / chunks_per_page, chunks_per_page > 0;
            }
            let f = (page - 1) * chunks_per_page;
            if f > count { count } else { f }
        };
        let last = if count - first < chunks_per_page { count } else { first + chunks_per_page };
        let ghost expected = chunked_fields(items, chunk_size as int, chunks_per_page as int, page as int);
        proof {
            if first < count {
                assert(first == first_chunk(chunks_per_page as int, page as int)) by (nonlinear_arith)
                    requires
                        first < count,
                        page - 1 <= count / chunks_per_page ==> (first == (if (page - 1) * chunks_per_page > count { count as int } else { (page - 1) * chunks_per_page })),
                        page - 1 > count / chunks_per_page ==> first == count,
                        chunks_per_page > 0;
            } else {
                assert(first_chunk(chunks_per_page as int, page as int) >= count) by (nonlinear_arith)
                    requires
                        first >= count,
                        page - 1 <= count / chunks_per_page ==> (first == (if (page - 1) * chunks_per_page > count { count as int } else { (page - 1) * chunks_per_page })),
                        page - 1 > count / chunks_per_page ==> first == count,
                        chunks_per_page > 0;
            }
            assert(expected.len() == last - first);
        }
        let mut fields: Vec<PageField> = Vec::new();
        let mut i = first;
        while i < last
            invariant
                first <= i <= last <= count,
                count == chunk_count(len as int, chunk_size as int),
                count as int * chunk_size < len + chunk_size,
                len == self.data@.len(),
                items == self.items(),
                chunk_size > 0,
                expected.len() == last - first,
                first < last ==> first == first_chunk(chunks_per_page as int, page as int),
                expected == chunked_fields(items, chunk_size as int, chunks_per_page as int, page as int),
                field_views(fields@) == expected.subrange(0, i - first),
            decreases last - i,
        {
            proof {
                assert(i * chunk_size < len) by (nonlinear_arith)
                    requires i < count, count * chunk_size < len + chunk_size, chunk_size > 0;
            }
            let start = i * chunk_size;
            let end = if len - start < chunk_size { len } else { start + chunk_size };
            let mut name = decimal_string(start + 1);
            name.append("\u{2013}");
            name.append(decimal_string(end).as_str());
            let value = concat_range(&self.data, start, end);
            let field = PageField { name, value };
            let ghost old_fields = fields@;
            fields.push(field);
            proof {
                assert(fields@ == old_fields.push(field));
                assert(field_views(old_fields) == expected.subrange(0, i - first));
                assert(end == chunk_last(len as int, chunk_size as int, i as int)) by (nonlinear_arith)
                    requires
                        start == i * chunk_size,
                        end == (if len - start < chunk_size { len as int } else { start + chunk_size }),
                        start < len;
                assert(expected[i - first] == (
                    chunk_label(len as int, chunk_size as int, i as int),
                    chunk_text(items, chunk_size as int, i as int),
                ));
                assert(field.view() == expected[i - first]);
                assert(field_views(old_fields).len() == old_fields.len());
                assert(old_fields.len() == i - first);
                assert(fields@.len() == i + 1 - first);
                assert forall|j: int| 0 <= j < i + 1 - first implies #[trigger] field_views(fields@)[j]
                    == expected.subrange(0, i + 1 - first)[j] by {
                    if j < i - first {
                        assert(fields@[j] == old_fields[j]);
                        assert(field_views(old_fields)[j] == expected.subrange(0, i - first)[j]);
                    }
                }
                assert(field_views(fields@)
                    =~= expected.subrange(0, i + 1 - first));
            }
            i = i + 1;
        }
        proof {
            assert(expected.subrange(0, last - first) =~= expected);
        }
        fields
    }

    fn shows_count(&self, required_pages: usize) -> (r: bool)
        ensures
            r == shows_count(self.show_page_count, required_pages as int),
    {
        match self.show_page_count {
            ShowPageCount::Always => true,
            ShowPageCount::WhenSeveralPages => required_pages > 1,
            ShowPageCount::Never => false,
        }
    }

    /// The index of the first item on `page`, at most the number of items.
    fn page_start(&self, page: usize, per_page: usize, required_pages: usize) -> (r: usize)
        requires
            self.wf(),
            required_pages == self.pages(),
            1 <= page <= required_pages,
            per_page > 0,
            per_page as int <= self.layout.capacity(),
        ensures
            r == clamp((page - 1) * per_page, self.data@.len() as int),
    {
        let len = self.data.len();
        if (page - 1) > len / per_page {
            proof {
                assert((page - 1) * per_page >= len) by (nonlinear_arith)
                    requires page - 1 > len / per_page, per_page > 0;
            }
            len
        } else {
            proof {
                assert((page - 1) * per_page <= len) by (nonlinear_arith)
                    requires page - 1 <= len / per_page, per_page > 0;
            }
            let s = (page - 1) * per_page;
            if s > len { len } else { s }
        }
    }
}

impl Default for PaginatedList {
    fn default() -> (r: PaginatedList)
        ensures
            r.title is None,
            r.layout == (PageLayout::Standard { items_per_page: DEFAULT_ITEMS_PER_PAGE }),
            r.data@.len() == 0,
            r.show_page_count == ShowPageCount::WhenSeveralPages,
            r.page_change_perm == PageChangePermission::Everyone,
            r.timeout_millis == DEFAULT_TIMEOUT_MILLIS,
            !r.delete_when_dropped,
    {
        PaginatedList::new()
    }
}

} // verus!
