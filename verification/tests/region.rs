use cauldron::region::{readable_region_next, readable_region_start, RegionStep};

const PAGE: usize = 0x1000;

/// Runs the scan with a predicate that says which pages can be read.
fn scan(addr: usize, limit: usize, elem_size: usize, readable: impl Fn(usize) -> bool) -> (usize, Vec<usize>) {
    let mut asked = Vec::new();
    let mut step = readable_region_start(addr, limit, elem_size, PAGE);
    loop {
        match step {
            RegionStep::Query(page) => {
                asked.push(page);
                step = readable_region_next(addr, limit, elem_size, PAGE, page, readable(page));
            }
            RegionStep::Done(n) => return (n, asked),
        }
    }
}

#[test]
fn scan_starts_at_the_page_of_the_first_byte() {
    assert_eq!(readable_region_start(0x1234, 4, 8, PAGE), RegionStep::Query(0x1000));
    assert_eq!(readable_region_start(0x2000, 1, 1, PAGE), RegionStep::Query(0x2000));
}

#[test]
fn whole_run_when_every_page_is_readable() {
    let (n, asked) = scan(0x1ff8, 512, 8, |_| true);
    assert_eq!(n, 512);
    assert_eq!(asked, vec![0x1000, 0x2000]);
    let (n, asked) = scan(0x1ff8, 514, 8, |_| true);
    assert_eq!(n, 514);
    assert_eq!(asked, vec![0x1000, 0x2000, 0x3000]);
}

#[test]
fn run_is_cut_at_the_first_unreadable_page() {
    let (n, asked) = scan(0x1ff8, 512, 8, |p| p != 0x2000);
    assert_eq!(n, 1);
    assert_eq!(asked, vec![0x1000, 0x2000]);
}

#[test]
fn unreadable_first_page_gives_nothing() {
    let (n, asked) = scan(0x1ff8, 512, 8, |p| p != 0x1000);
    assert_eq!(n, 0);
    assert_eq!(asked, vec![0x1000]);
}

#[test]
fn run_within_one_page_asks_once() {
    let (n, asked) = scan(0x5010, 16, 8, |_| true);
    assert_eq!(n, 16);
    assert_eq!(asked, vec![0x5000]);
}

#[test]
fn partial_values_are_not_counted() {
    // The third page starts 0x1004 bytes after the run: 0x200 whole values of 8 bytes.
    let (n, _) = scan(0x0ffc, 0x400, 8, |p| p < 0x2000);
    assert_eq!(n, (0x2000 - 0x0ffc) / 8);
}
