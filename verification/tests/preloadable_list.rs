use peertube_viewer::preloadable_list::{AsyncLoader, PreloadableList};

/// Numbers from `offset` on, a hundred of them in all.
struct Numbers;

impl AsyncLoader for Numbers {
    type Data = usize;
    type Error = String;

    fn data(&self, step: usize, offset: usize) -> Result<(Vec<usize>, usize), String> {
        if offset >= 100 {
            return Err("past the end".into());
        }
        Ok(((offset..(offset + step).min(100)).collect(), 100))
    }
}

fn values(page: &[std::sync::Arc<usize>]) -> Vec<usize> {
    page.iter().map(|a| **a).collect()
}

#[test]
fn pages_come_in_order_and_back() {
    let mut list = PreloadableList::new(Numbers, 30);
    list.ensure_init().unwrap();
    assert_eq!(values(list.current()), (0..30).collect::<Vec<_>>());
    assert_eq!(list.expected_total(), 100);
    assert_eq!(values(list.try_next().unwrap()), (30..60).collect::<Vec<_>>());
    assert_eq!(list.offset(), 30);
    assert_eq!(values(list.prev()), (0..30).collect::<Vec<_>>());
    assert_eq!(list.offset(), 0);
    assert_eq!(values(list.prev()), (0..30).collect::<Vec<_>>());
    assert_eq!(values(list.try_next().unwrap()), (30..60).collect::<Vec<_>>());
    assert_eq!(list.current_len(), 30);
    assert_eq!(list.step(), 30);
}

#[test]
fn a_preloaded_page_is_used() {
    let mut list = PreloadableList::new(Numbers, 50);
    list.ensure_init().unwrap();
    assert_eq!(list.preload_next(), Some((50, 50)));
    assert!(list.has_pending());
    assert_eq!(list.preload_next(), None);
    list.set_preloaded(Ok((vec![7, 8], 2)));
    assert_eq!(values(list.try_next().unwrap()), vec![7, 8]);
    assert_eq!(list.expected_total(), 2);
}

#[test]
fn a_failed_fetch_is_reported() {
    let mut list = PreloadableList::new(Numbers, 100);
    list.ensure_init().unwrap();
    assert_eq!(list.try_next().unwrap_err(), "past the end");
}

#[test]
fn the_next_request_is_the_page_after_the_current_one() {
    let mut list = PreloadableList::new(Numbers, 30);
    assert_eq!(list.next_request(), Some((30, 0)));
    list.ensure_init().unwrap();
    assert_eq!(list.next_request(), Some((30, 30)));
    let answer = Numbers.data(30, 30);
    assert_eq!(values(list.try_next_with(Some(answer)).unwrap()), (30..60).collect::<Vec<_>>());
    assert_eq!(list.offset(), 30);
    assert_eq!(list.next_request(), Some((30, 60)));
    list.prev();
    assert_eq!(list.next_request(), None);
    assert_eq!(values(list.try_next_with(None).unwrap()), (30..60).collect::<Vec<_>>());
    assert_eq!(list.offset(), 30);
}

#[test]
fn a_kept_result_replaces_the_request() {
    let mut list = PreloadableList::new(Numbers, 10);
    list.ensure_init().unwrap();
    assert_eq!(list.preload_next(), Some((10, 10)));
    list.set_preloaded(Err("busy".into()));
    assert_eq!(list.next_request(), None);
    assert_eq!(list.try_next_with(None).unwrap_err(), "busy");
    assert_eq!(list.offset(), 10);

    let mut list = PreloadableList::new(Numbers, 10);
    list.ensure_init().unwrap();
    list.preload_next();
    list.set_preloaded(Ok((vec![1, 2], 12)));
    assert_eq!(list.next_request(), None);
    assert_eq!(values(list.try_next_with(None).unwrap()), vec![1, 2]);
    assert_eq!(list.expected_total(), 12);
}
