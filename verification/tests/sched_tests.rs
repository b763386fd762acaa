use receivetn::sched::DownloadScheduler;

fn urls(n: usize) -> Vec<String> {
    let mut v = Vec::new();
    let mut i: usize = 0;
    while i < n {
        v.push(format!("http://e/{}", i));
        i += 1;
    }
    v
}

#[test]
fn at_most_two_transfers_are_in_flight() {
    let mut s = DownloadScheduler::new(urls(5), 2);
    let mut in_flight: Vec<String> = Vec::new();
    let mut seen: Vec<String> = Vec::new();
    let mut max_in_flight: usize = 0;
    loop {
        while let Some(u) = s.start_next() {
            in_flight.push(u);
        }
        if in_flight.len() > max_in_flight {
            max_in_flight = in_flight.len();
        }
        assert!(in_flight.len() <= 2);
        match in_flight.pop() {
            Some(u) => {
                seen.push(u);
                s.complete(true);
            },
            None => break,
        }
    }
    assert!(s.all_done());
    assert_eq!(max_in_flight, 2);
    assert_eq!(seen.len(), 5);
    assert_eq!(s.failed_count(), 0);
}

#[test]
fn one_failure_does_not_stop_the_others() {
    let mut s = DownloadScheduler::new(urls(5), 2);
    let mut completed: usize = 0;
    let mut started: Vec<String> = Vec::new();
    loop {
        while let Some(u) = s.start_next() {
            started.push(u);
        }
        if started.is_empty() {
            break;
        }
        let u = started.remove(0);
        // the second URL's fetch fails; the rest succeed
        s.complete(u != "http://e/1");
        completed += 1;
    }
    assert!(s.all_done());
    assert_eq!(completed, 5);
    assert_eq!(s.failed_count(), 1);
}

#[test]
fn nothing_starts_beyond_the_queue() {
    let mut s = DownloadScheduler::new(urls(1), 3);
    assert_eq!(s.start_next().unwrap(), "http://e/0");
    assert!(s.start_next().is_none());
    assert!(!s.all_done());
    s.complete(true);
    assert!(s.all_done());
    assert!(s.start_next().is_none());
}
