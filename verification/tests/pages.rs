use todo_service::page::paginate;

fn numbers(count: u32) -> Vec<u32> {
    (0..count).collect()
}

#[test]
fn first_page_holds_the_first_items() {
    assert_eq!(paginate(numbers(25), 1, 10), vec![0, 1, 2, 3, 4, 5, 6, 7, 8, 9]);
}

#[test]
fn second_page_follows_the_first() {
    assert_eq!(paginate(numbers(25), 2, 10), vec![10, 11, 12, 13, 14, 15, 16, 17, 18, 19]);
}

#[test]
fn last_page_may_be_short() {
    assert_eq!(paginate(numbers(25), 3, 10), vec![20, 21, 22, 23, 24]);
}

#[test]
fn page_starts_at_page_minus_one_times_limit() {
    // (3 - 1) * 4 = 8, and 8 + 4 = 12
    assert_eq!(paginate(numbers(20), 3, 4), vec![8, 9, 10, 11]);
}

#[test]
fn page_ends_where_the_list_ends() {
    // (2 - 1) * 7 = 7, and min(7 + 7, 10) = 10
    assert_eq!(paginate(numbers(10), 2, 7), vec![7, 8, 9]);
}

#[test]
fn page_that_starts_at_the_end_is_empty() {
    assert_eq!(paginate(numbers(20), 3, 10), Vec::<u32>::new());
}

#[test]
fn page_far_behind_the_end_is_empty() {
    assert_eq!(paginate(numbers(20), 100, 10), Vec::<u32>::new());
}

#[test]
fn page_zero_is_the_first_page() {
    assert_eq!(paginate(numbers(5), 0, 2), vec![0, 1]);
    assert_eq!(paginate(numbers(5), 0, 2), paginate(numbers(5), 1, 2));
}

#[test]
fn limit_zero_shows_nothing() {
    assert_eq!(paginate(numbers(5), 1, 0), Vec::<u32>::new());
    assert_eq!(paginate(numbers(5), 3, 0), Vec::<u32>::new());
}

#[test]
fn empty_list_has_only_empty_pages() {
    assert_eq!(paginate(numbers(0), 1, 10), Vec::<u32>::new());
    assert_eq!(paginate(numbers(0), 7, 3), Vec::<u32>::new());
}

#[test]
fn limit_longer_than_the_list_shows_everything() {
    assert_eq!(paginate(numbers(3), 1, 10), vec![0, 1, 2]);
    assert_eq!(paginate(numbers(3), 1, usize::MAX), vec![0, 1, 2]);
}

#[test]
fn start_beyond_the_machine_word_is_behind_the_end() {
    assert_eq!(paginate(numbers(3), usize::MAX, usize::MAX), Vec::<u32>::new());
    assert_eq!(paginate(numbers(3), 3, usize::MAX), Vec::<u32>::new());
}

#[test]
fn pages_never_exceed_the_limit_and_cover_the_list() {
    for total in 0..12u32 {
        for limit in 1..5usize {
            let mut seen = Vec::new();
            let mut page = 1;
            loop {
                let shown = paginate(numbers(total), page, limit);
                assert!(shown.len() <= limit);
                if shown.is_empty() {
                    break;
                }
                seen.extend(shown);
                page += 1;
            }
            assert_eq!(seen, numbers(total));
        }
    }
}
