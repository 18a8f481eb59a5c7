use qrusst::sliding::SlidingBuffer;

fn buffer(window: usize, overlap: usize) -> SlidingBuffer<i32> {
    SlidingBuffer::new(window, overlap).unwrap()
}

#[test]
fn overlap_must_be_shorter_than_window() {
    assert!(SlidingBuffer::<i32>::new(4, 4).is_none());
    assert!(SlidingBuffer::<i32>::new(0, 0).is_none());
    assert!(SlidingBuffer::<i32>::new(4, 3).is_some());
}

#[test]
fn window_completes_after_window_size_samples() {
    let mut b = buffer(4, 1);
    assert_eq!(b.shift_size(), 3);
    assert_eq!(b.push(1), None);
    assert_eq!(b.push(2), None);
    assert_eq!(b.push(3), None);
    assert_eq!(b.push(4), Some(vec![1, 2, 3, 4]));
    assert_eq!(b.len(), 1);
}

#[test]
fn each_shift_gives_one_more_window() {
    let mut b = buffer(4, 1);
    for s in 1..4 {
        assert_eq!(b.push(s), None);
    }
    assert_eq!(b.push(4), Some(vec![1, 2, 3, 4]));
    assert_eq!(b.push(5), None);
    assert_eq!(b.push(6), None);
    assert_eq!(b.push(7), Some(vec![4, 5, 6, 7]));
    assert_eq!(b.push(8), None);
}

#[test]
fn fewer_than_a_shift_gives_nothing() {
    let mut b = buffer(111, 22);
    let first: Vec<i32> = (0..111).collect();
    assert_eq!(b.push_packet(&first).len(), 1);
    let short: Vec<i32> = (111..199).collect();
    assert!(b.push_packet(&short).is_empty());
    assert_eq!(b.push_packet(&vec![199]).len(), 1);
}

#[test]
fn exactly_a_shift_gives_one_window() {
    let mut b = buffer(111, 22);
    let first: Vec<i32> = (0..111).collect();
    assert_eq!(b.push_packet(&first), vec![first.clone()]);
    let shift: Vec<i32> = (111..200).collect();
    let frames = b.push_packet(&shift);
    assert_eq!(frames.len(), 1);
    let expected: Vec<i32> = (89..200).collect();
    assert_eq!(frames[0], expected);
}

#[test]
fn overlap_is_left_after_every_window() {
    let mut b = buffer(10, 3);
    let mut windows = 0;
    for s in 0..100 {
        if b.push(s).is_some() {
            windows += 1;
            assert_eq!(b.len(), 3);
        }
        assert!(b.len() < 10);
    }
    assert_eq!(windows, 13);
}

#[test]
fn zero_overlap_keeps_nothing() {
    let mut b = buffer(3, 0);
    assert_eq!(b.push_packet(&vec![1, 2, 3, 4]), vec![vec![1, 2, 3]]);
    assert_eq!(b.len(), 1);
}

#[test]
fn windows_do_not_depend_on_packet_sizes() {
    let stream: Vec<i32> = (0..250).collect();
    let mut whole = buffer(20, 7);
    let at_once = whole.push_packet(&stream);
    let mut pieces = buffer(20, 7);
    let mut piecewise: Vec<Vec<i32>> = Vec::new();
    for chunk in stream.chunks(9) {
        piecewise.extend(pieces.push_packet(&chunk.to_vec()));
    }
    assert_eq!(at_once, piecewise);
    assert_eq!(whole.len(), pieces.len());
    for (j, w) in at_once.iter().enumerate() {
        let start = j * 13;
        assert_eq!(w.as_slice(), &stream[start..start + 20]);
    }
}

#[test]
fn same_samples_give_identical_windows() {
    let stream: Vec<i32> = (0..64).map(|n| (n * 37) % 11).collect();
    let mut a = buffer(16, 5);
    let mut b = buffer(16, 5);
    assert_eq!(a.push_packet(&stream), b.push_packet(&stream));
}

#[test]
fn clear_drops_gathered_samples() {
    let mut b = buffer(4, 1);
    b.push_packet(&vec![1, 2]);
    b.clear();
    assert_eq!(b.len(), 0);
    assert_eq!(b.push_packet(&vec![5, 6, 7, 8]), vec![vec![5, 6, 7, 8]]);
    assert_eq!(b.window_size(), 4);
    assert_eq!(b.overlap_samples(), 1);
}
