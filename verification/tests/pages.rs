use guardianboot::pages::{page_count, ImageExtent, PAGE_SIZE};

#[test]
fn page_scenarios() {
    assert_eq!(PAGE_SIZE, 4096);
    assert_eq!(page_count(4096, PAGE_SIZE), 1);
    assert_eq!(page_count(4097, PAGE_SIZE), 2);
    assert_eq!(page_count(0, PAGE_SIZE), 1);
}

#[test]
fn page_count_is_the_rounded_up_quotient_and_at_least_one() {
    for page_size in [1usize, 2, 3, 512, 4096, 65536] {
        for length in 0usize..=(3 * page_size + 2).min(20_000) {
            let ceil = length / page_size + usize::from(length % page_size != 0);
            assert_eq!(page_count(length, page_size), ceil.max(1));
        }
    }
}

#[test]
fn page_count_at_the_edges() {
    assert_eq!(page_count(1, 4096), 1);
    assert_eq!(page_count(4095, 4096), 1);
    assert_eq!(page_count(8192, 4096), 2);
    assert_eq!(page_count(8193, 4096), 3);
    assert_eq!(page_count(usize::MAX, 1), usize::MAX);
    assert_eq!(page_count(usize::MAX, usize::MAX), 1);
    assert_eq!(page_count(usize::MAX, 2), usize::MAX / 2 + 1);
    assert_eq!(page_count(usize::MAX, 4096), usize::MAX / 4096 + 1);
}

#[test]
fn extent_of_a_file() {
    assert_eq!(ImageExtent::for_length(0), Some(ImageExtent { length: 0, pages: 1, bytes: 4096 }));
    assert_eq!(ImageExtent::for_length(1), Some(ImageExtent { length: 1, pages: 1, bytes: 4096 }));
    assert_eq!(ImageExtent::for_length(4096), Some(ImageExtent { length: 4096, pages: 1, bytes: 4096 }));
    assert_eq!(ImageExtent::for_length(4097), Some(ImageExtent { length: 4097, pages: 2, bytes: 8192 }));
    assert_eq!(
        ImageExtent::for_length(50_000_000),
        Some(ImageExtent { length: 50_000_000, pages: 12_208, bytes: 50_003_968 })
    );
}

#[test]
fn extent_that_does_not_fit() {
    assert_eq!(ImageExtent::for_length(u64::MAX), None);
    assert_eq!(ImageExtent::for_length(u64::MAX - 4094), None);
    let most = (usize::MAX / 4096) as u64 * 4096;
    assert_eq!(
        ImageExtent::for_length(most),
        Some(ImageExtent { length: most as usize, pages: usize::MAX / 4096, bytes: most as usize })
    );
    assert_eq!(ImageExtent::for_length(most + 1), None);
}
