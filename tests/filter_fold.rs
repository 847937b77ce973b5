use stream_combinators::{FilterFold, FoldStep, Poll};

/// Feeds `events` to `fold` one by one and collects what it reports; a `Pull`
/// moves on to the next event, as a driver within one outer poll would.
fn drive<A, T, U, E, F>(fold: &mut FilterFold<A, F>, events: Vec<Poll<T, E>>) -> Vec<Poll<U, E>>
where
    F: Fn(A, Option<T>) -> (A, Option<U>),
{
    let mut reports = Vec::new();
    for ev in events {
        match fold.poll(ev) {
            FoldStep::Pull => {}
            FoldStep::Report(p) => reports.push(p),
        }
    }
    reports
}

fn items<T>(xs: Vec<T>) -> Vec<Poll<T, ()>> {
    let mut evs: Vec<Poll<T, ()>> = xs.into_iter().map(Poll::Item).collect();
    evs.push(Poll::End);
    evs
}

fn pairing(acc: Option<i32>, x: Option<i32>) -> (Option<i32>, Option<(i32, i32)>) {
    match (acc, x) {
        (Some(prev), Some(v)) => (None, Some((prev, v))),
        (None, Some(v)) => (Some(v), None),
        (acc, None) => (acc, None),
    }
}

/// Assembles bytes into lines; the flush emits what is left, if anything.
fn lines(mut buf: Vec<u8>, x: Option<u8>) -> (Vec<u8>, Option<String>) {
    match x {
        Some(b'\n') => (Vec::new(), Some(String::from_utf8(buf).unwrap())),
        Some(b) => {
            buf.push(b);
            (buf, None)
        }
        None if !buf.is_empty() => (Vec::new(), Some(String::from_utf8(buf).unwrap())),
        None => (buf, None),
    }
}

/// Assembles bytes into lines and ignores what is left at the end.
fn lines_no_flush(mut buf: Vec<u8>, x: Option<u8>) -> (Vec<u8>, Option<String>) {
    match x {
        Some(b'\n') => (Vec::new(), Some(String::from_utf8(buf).unwrap())),
        Some(b) => {
            buf.push(b);
            (buf, None)
        }
        None => (buf, None),
    }
}

#[test]
fn pairs_consecutive_items() {
    let mut fold = FilterFold::new(None, pairing);
    let out = drive(&mut fold, items(vec![0, 1, 2, 3, 4, 5]));
    assert_eq!(
        out,
        vec![Poll::Item((0, 1)), Poll::Item((2, 3)), Poll::Item((4, 5)), Poll::End]
    );
    assert!(fold.is_consumed());
}

#[test]
fn odd_leftover_is_not_paired() {
    let mut fold = FilterFold::new(None, pairing);
    let out = drive(&mut fold, items(vec![0, 1, 2, 3, 4]));
    assert_eq!(out, vec![Poll::Item((0, 1)), Poll::Item((2, 3)), Poll::End]);
}

#[test]
fn empty_source_calls_flush_and_ends() {
    let mut fold = FilterFold::new(7, |acc: i32, x: Option<i32>| match x {
        Some(v) => (acc + v, None),
        None => (acc, Some(acc)),
    });
    let out = drive(&mut fold, items(Vec::new()));
    assert_eq!(out, vec![Poll::Item(7)]);
    assert_eq!(fold.poll::<i32, i32, ()>(Poll::Pending), FoldStep::Report(Poll::End));
}

#[test]
fn flush_emits_running_sum() {
    let mut fold = FilterFold::new(0, |acc: i32, x: Option<i32>| match x {
        Some(v) => (acc + v, None),
        None => (acc, Some(acc)),
    });
    let out = drive(&mut fold, items(vec![1, 2, 3, 4]));
    assert_eq!(out, vec![Poll::Item(10)]);
}

#[test]
fn assembles_lines() {
    let mut fold = FilterFold::new(Vec::new(), lines_no_flush);
    let out = drive(&mut fold, items(b"ab\ncd\n".to_vec()));
    assert_eq!(
        out,
        vec![Poll::Item("ab".to_string()), Poll::Item("cd".to_string()), Poll::End]
    );
}

#[test]
fn flush_emits_last_line_without_newline() {
    let mut fold = FilterFold::new(Vec::new(), lines);
    let out = drive(&mut fold, items(b"ab\ncd".to_vec()));
    assert_eq!(out, vec![Poll::Item("ab".to_string()), Poll::Item("cd".to_string())]);
    assert!(fold.is_consumed());
    assert_eq!(fold.poll::<u8, String, ()>(Poll::Item(b'x')), FoldStep::Report(Poll::End));
}

#[test]
fn flush_with_trailing_newline_adds_nothing() {
    let mut fold = FilterFold::new(Vec::new(), lines);
    let out = drive(&mut fold, items(b"ab\ncd\n".to_vec()));
    assert_eq!(
        out,
        vec![Poll::Item("ab".to_string()), Poll::Item("cd".to_string()), Poll::End]
    );
}

#[test]
fn every_poll_after_end_reports_end() {
    let mut fold = FilterFold::new(None, pairing);
    let out = drive(&mut fold, items(vec![1, 2]));
    assert_eq!(out, vec![Poll::Item((1, 2)), Poll::End]);
    for ev in vec![Poll::Item(3), Poll::Pending, Poll::End, Poll::Failure(())] {
        assert_eq!(fold.poll(ev), FoldStep::Report(Poll::End));
    }
    assert!(fold.is_consumed());
}

#[test]
fn failure_is_reported_at_once_without_flush() {
    let mut fold = FilterFold::new(Vec::new(), lines);
    let evs = vec![
        Poll::Item(b'a'),
        Poll::Item(b'b'),
        Poll::Failure("broken"),
        Poll::Item(b'\n'),
        Poll::End,
    ];
    let out = drive(&mut fold, evs);
    assert_eq!(out, vec![Poll::Failure("broken"), Poll::End, Poll::End]);
}

#[test]
fn pending_keeps_state_and_results() {
    let ready = drive(&mut FilterFold::new(None, pairing), items(vec![0, 1, 2, 3]));

    let mut fold = FilterFold::new(None, pairing);
    let mut out = Vec::new();
    for (i, ev) in items(vec![0, 1, 2, 3]).into_iter().enumerate() {
        if i % 2 == 0 {
            assert_eq!(fold.poll::<i32, (i32, i32), ()>(Poll::Pending), FoldStep::Report(Poll::Pending));
            assert!(!fold.is_consumed());
        }
        if let FoldStep::Report(p) = fold.poll(ev) {
            out.push(p);
        }
    }
    assert_eq!(out, ready);
    assert_eq!(out, vec![Poll::Item((0, 1)), Poll::Item((2, 3)), Poll::End]);
}

#[test]
fn item_without_output_asks_for_more() {
    let mut fold = FilterFold::new(None, pairing);
    assert_eq!(fold.poll::<i32, (i32, i32), ()>(Poll::Item(4)), FoldStep::Pull);
    assert_eq!(fold.poll::<i32, (i32, i32), ()>(Poll::Item(5)), FoldStep::Report(Poll::Item((4, 5))));
}
