use holo_bot::pagination::{
    next_page, previous_page, PageChangePermission, PageLayout, PaginatedList, ShowPageCount,
};

fn items(n: usize) -> Vec<String> {
    (1..=n).map(|i| format!("item {}\n", i)).collect()
}

fn list(n: usize, layout: PageLayout) -> PaginatedList {
    let mut l = PaginatedList::new();
    l.data = items(n);
    l.layout = layout;
    l
}

#[test]
fn defaults_match_documentation() {
    let l = PaginatedList::new();
    assert!(l.title.is_none());
    assert_eq!(l.layout, PageLayout::Standard { items_per_page: 5 });
    assert!(l.data.is_empty());
    assert_eq!(l.show_page_count, ShowPageCount::WhenSeveralPages);
    assert_eq!(l.page_change_perm, PageChangePermission::Everyone);
    assert_eq!(l.timeout_millis, 15 * 60 * 1000);
    assert!(!l.delete_when_dropped);
}

#[test]
fn required_pages_is_ceiling_for_standard() {
    let layout = PageLayout::Standard { items_per_page: 5 };
    assert_eq!(layout.required_pages(23), 5);
    assert_eq!(layout.required_pages(25), 5);
    assert_eq!(layout.required_pages(26), 6);
    assert_eq!(layout.required_pages(1), 1);
}

#[test]
fn required_pages_is_ceiling_for_chunked() {
    let layout = PageLayout::Chunked { chunk_size: 2, chunks_per_page: 2 };
    assert_eq!(layout.required_pages(7), 2);
    assert_eq!(layout.required_pages(8), 2);
    assert_eq!(layout.required_pages(9), 3);
}

#[test]
fn empty_data_makes_one_page() {
    assert_eq!(PageLayout::Standard { items_per_page: 5 }.required_pages(0), 1);
    let l = list(0, PageLayout::Standard { items_per_page: 5 });
    let page = l.create_page(1, l.required_pages());
    assert_eq!(page.description.as_deref(), Some(""));
    assert!(page.footer.is_none());
}

#[test]
fn largest_sizes_do_not_overflow() {
    let layout = PageLayout::Standard { items_per_page: usize::MAX };
    assert_eq!(layout.required_pages(usize::MAX), 1);
    let layout = PageLayout::Standard { items_per_page: 1 };
    assert_eq!(layout.required_pages(usize::MAX), usize::MAX);
}

#[test]
fn twenty_three_items_five_per_page_wrap_after_five_next() {
    let l = list(23, PageLayout::Standard { items_per_page: 5 });
    let pages = l.required_pages();
    assert_eq!(pages, 5);
    let mut page = 1;
    for _ in 0..5 {
        page = next_page(page, pages);
    }
    assert_eq!(page, 1);
}

#[test]
fn next_presses_wrap_modulo_pages() {
    let pages = 4;
    let mut page = 1;
    for n in 1..=11usize {
        page = next_page(page, pages);
        assert_eq!(page, 1 + n % pages);
    }
}

#[test]
fn previous_from_first_page_goes_to_last() {
    assert_eq!(previous_page(1, 5), 5);
    assert_eq!(previous_page(3, 5), 2);
    assert_eq!(next_page(5, 5), 1);
}

#[test]
fn standard_page_shows_its_slice() {
    let l = list(23, PageLayout::Standard { items_per_page: 5 });
    let page = l.create_page(2, 5);
    assert_eq!(
        page.description.as_deref(),
        Some("item 6\nitem 7\nitem 8\nitem 9\nitem 10\n")
    );
    assert!(page.fields.is_empty());
    let last = l.create_page(5, 5);
    assert_eq!(last.description.as_deref(), Some("item 21\nitem 22\nitem 23\n"));
}

#[test]
fn seven_items_in_chunks_of_two() {
    let l = list(7, PageLayout::Chunked { chunk_size: 2, chunks_per_page: 2 });
    assert_eq!(l.required_pages(), 2);
    let first = l.create_page(1, 2);
    let labels: Vec<&str> = first.fields.iter().map(|f| f.name.as_str()).collect();
    assert_eq!(labels, vec!["1\u{2013}2", "3\u{2013}4"]);
    let second = l.create_page(2, 2);
    let labels: Vec<&str> = second.fields.iter().map(|f| f.name.as_str()).collect();
    assert_eq!(labels, vec!["5\u{2013}6", "7\u{2013}7"]);
    assert_eq!(second.fields[0].value, "item 5\nitem 6\n");
    assert_eq!(second.fields[1].value, "item 7\n");
    assert!(second.description.is_none());
}

#[test]
fn footer_follows_policy() {
    let mut l = list(23, PageLayout::Standard { items_per_page: 5 });
    l.title = Some("Live streams".to_string());
    let page = l.create_page(3, 5);
    assert_eq!(page.footer.as_deref(), Some("page 3 of 5"));
    assert_eq!(page.title.as_deref(), Some("Live streams"));

    l.show_page_count = ShowPageCount::Never;
    assert!(l.create_page(3, 5).footer.is_none());

    let mut single = list(3, PageLayout::Standard { items_per_page: 5 });
    assert!(single.create_page(1, 1).footer.is_none());
    single.show_page_count = ShowPageCount::Always;
    assert_eq!(single.create_page(1, 1).footer.as_deref(), Some("page 1 of 1"));
}

#[test]
fn page_numbers_print_in_decimal() {
    let l = list(120, PageLayout::Standard { items_per_page: 1 });
    let page = l.create_page(107, 120);
    assert_eq!(page.footer.as_deref(), Some("page 107 of 120"));
    assert_eq!(page.description.as_deref(), Some("item 107\n"));
}

#[test]
fn builders_set_each_option() {
    let mut l = PaginatedList::default();
    l.title("Streams")
        .layout(PageLayout::Chunked { chunk_size: 3, chunks_per_page: 1 })
        .data(items(4))
        .show_page_count(ShowPageCount::Always)
        .page_change_permission(PageChangePermission::Interactor)
        .timeout(1_000)
        .delete_when_dropped(true);
    assert_eq!(l.title.as_deref(), Some("Streams"));
    assert_eq!(l.layout, PageLayout::Chunked { chunk_size: 3, chunks_per_page: 1 });
    assert_eq!(l.data.len(), 4);
    assert_eq!(l.show_page_count, ShowPageCount::Always);
    assert_eq!(l.page_change_perm, PageChangePermission::Interactor);
    assert_eq!(l.timeout_millis, 1_000);
    assert!(l.delete_when_dropped);
    assert_eq!(l.required_pages(), 2);
}

#[test]
fn layouts_are_validated() {
    assert!(PageLayout::Standard { items_per_page: 1 }.is_valid());
    assert!(!PageLayout::Standard { items_per_page: 0 }.is_valid());
    assert!(!PageLayout::Chunked { chunk_size: 0, chunks_per_page: 2 }.is_valid());
    assert!(!PageLayout::Chunked { chunk_size: 2, chunks_per_page: usize::MAX }.is_valid());
    assert!(PageLayout::Chunked { chunk_size: 1, chunks_per_page: usize::MAX }.is_valid());
}
