use audio_sharing_pc::thread_buffer::{FillStatus, ThreadQueue};

#[test]
fn fresh_queue_is_open_and_empty() {
    let mut q = ThreadQueue::new();
    assert!(q.is_open());
    let mut scratch: Vec<u8> = Vec::new();
    assert_eq!(q.fill_buffer(&mut scratch), FillStatus::Empty);
    assert!(scratch.is_empty());
}

#[test]
fn blocks_are_observed_in_write_order() {
    let mut q = ThreadQueue::new();
    q.write_data(&[1, 2, 3]);
    q.write_data(&[4, 5]);
    let mut scratch: Vec<u8> = Vec::new();
    assert_eq!(q.fill_buffer(&mut scratch), FillStatus::Filled);
    assert_eq!(scratch, vec![1, 2, 3, 4, 5]);
}

#[test]
fn drain_takes_at_most_one_chunk() {
    let mut q = ThreadQueue::new();
    let big = vec![7u8; 5000];
    q.write_data(&big);
    let mut scratch: Vec<u8> = Vec::new();
    assert_eq!(q.fill_buffer(&mut scratch), FillStatus::Filled);
    assert_eq!(scratch.len(), 4096);
    assert_eq!(q.fill_buffer(&mut scratch), FillStatus::Filled);
    assert_eq!(scratch.len(), 5000);
    assert!(scratch.iter().all(|&b| b == 7));
    assert_eq!(q.fill_buffer(&mut scratch), FillStatus::Empty);
}

#[test]
fn drain_appends_to_scratch_in_order() {
    let mut q = ThreadQueue::new();
    q.write_data(&[1, 2]);
    let mut scratch: Vec<u8> = vec![0];
    assert_eq!(q.fill_buffer(&mut scratch), FillStatus::Filled);
    assert_eq!(scratch, vec![0, 1, 2]);
}

#[test]
fn write_after_close_is_never_observed() {
    let mut q = ThreadQueue::new();
    q.write_data(&[1, 2, 3]);
    q.close();
    q.write_data(&[9, 9, 9]);
    let mut scratch: Vec<u8> = Vec::new();
    assert_eq!(q.fill_buffer(&mut scratch), FillStatus::Closed);
    assert!(scratch.is_empty());
}

#[test]
fn closed_stays_closed_forever() {
    let mut q = ThreadQueue::new();
    q.close();
    assert!(!q.is_open());
    let mut scratch: Vec<u8> = Vec::new();
    assert_eq!(q.fill_buffer(&mut scratch), FillStatus::Closed);
    q.write_data(&[1]);
    assert!(!q.is_open());
    assert_eq!(q.fill_buffer(&mut scratch), FillStatus::Closed);
    q.close();
    assert_eq!(q.fill_buffer(&mut scratch), FillStatus::Closed);
    assert!(scratch.is_empty());
}
