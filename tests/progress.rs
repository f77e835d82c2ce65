use gofile_api::progress::{UploadProgress, UploadedMessage};

fn msg(uuid: u128, uploaded: u64) -> UploadedMessage {
    UploadedMessage { uuid, uploaded }
}

#[test]
fn new_progress_starts_at_zero() {
    let p = UploadProgress::new(7, 100);
    assert_eq!((p.uuid, p.uploaded, p.total), (7, 0, 100));
}

#[test]
fn chunks_add_up() {
    let mut p = UploadProgress::new(7, 100);
    assert_eq!(p.on_chunk(30), vec![msg(7, 30)]);
    assert_eq!(p.on_chunk(50), vec![msg(7, 80)]);
    assert_eq!(p.uploaded, 80);
}

#[test]
fn reaching_the_total_reports_it_twice() {
    let mut p = UploadProgress::new(7, 100);
    p.on_chunk(60);
    assert_eq!(p.on_chunk(40), vec![msg(7, 100), msg(7, 100)]);
}

#[test]
fn count_saturates_at_total() {
    let mut p = UploadProgress::new(1, 100);
    p.on_chunk(90);
    assert_eq!(p.on_chunk(50), vec![msg(1, 100), msg(1, 100)]);
    assert_eq!(p.on_chunk(10), vec![msg(1, 100), msg(1, 100)]);
    assert_eq!(p.uploaded, 100);
}

#[test]
fn count_never_goes_down() {
    let mut p = UploadProgress::new(2, 1000);
    let mut last: u64 = 0;
    for len in [0usize, 10, 0, 300, 1, 5000, 3] {
        for m in p.on_chunk(len) {
            assert!(m.uploaded >= last);
            assert!(m.uploaded <= 1000);
            last = m.uploaded;
        }
    }
    assert_eq!(last, 1000);
}

#[test]
fn empty_file_is_complete_on_any_chunk() {
    let mut p = UploadProgress::new(3, 0);
    assert_eq!(p.on_chunk(0), vec![msg(3, 0), msg(3, 0)]);
}

#[test]
fn largest_total_does_not_overflow() {
    let mut p = UploadProgress::new(4, u64::MAX);
    p.on_chunk(usize::MAX);
    assert_eq!(p.uploaded, usize::MAX as u64);
    assert_eq!(p.on_chunk(usize::MAX), vec![msg(4, u64::MAX), msg(4, u64::MAX)]);
}
