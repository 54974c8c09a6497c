use engine::cli::{floor_percent_allowed, tally_outcomes};
use engine::{preview_rename, FileResult, Outcome, PendingFiles};

#[test]
fn pending_files_settle_in_order_and_forget_vanished_ones() {
    let mut q = PendingFiles::new();
    q.track("/w/a.jpg".to_string(), 2);
    q.track("/w/b.jpg".to_string(), 2);
    q.track("/w/a.jpg".to_string(), 2); // already waiting
    q.track("/w/c.jpg".to_string(), 1);
    assert_eq!(q.len(), 3);
    assert_eq!(q.paths(), vec!["/w/a.jpg", "/w/b.jpg", "/w/c.jpg"]);

    // c settles at once (one sample needed); a and b need a second equal sample.
    let ready = q.poll(&vec![Some(10), Some(20), Some(5)]);
    assert_eq!(ready, vec!["/w/c.jpg"]);
    assert_eq!(q.paths(), vec!["/w/a.jpg", "/w/b.jpg"]);

    // b vanished; a settles.
    let ready = q.poll(&vec![Some(10), None]);
    assert_eq!(ready, vec!["/w/a.jpg"]);
    assert_eq!(q.len(), 0);
}

#[test]
fn a_growing_file_keeps_waiting() {
    let mut q = PendingFiles::new();
    q.track("/w/big.png".to_string(), 2);
    assert!(q.poll(&vec![Some(100)]).is_empty());
    assert!(q.poll(&vec![Some(200)]).is_empty());
    assert!(q.poll(&vec![Some(0)]).is_empty());
    assert!(q.poll(&vec![Some(300)]).is_empty());
    assert_eq!(q.poll(&vec![Some(300)]), vec!["/w/big.png"]);
}

#[test]
fn floor_percent_is_fifty_to_a_hundred() {
    assert!(!floor_percent_allowed(49));
    assert!(floor_percent_allowed(50));
    assert!(floor_percent_allowed(100));
    assert!(!floor_percent_allowed(101));
}

fn result(outcome: Outcome) -> FileResult {
    FileResult {
        input: "/x.jpg".to_string(),
        output: None,
        original_bytes: 1,
        outcome,
    }
}

#[test]
fn tally_counts_each_result_once() {
    let results = vec![
        result(Outcome::Compressed {
            final_bytes: 1,
            quality: None,
            width: 1,
            height: 1,
            downscaled: false,
        }),
        result(Outcome::SkippedUnderCap { bytes: 3 }),
        result(Outcome::SkippedCollision),
        result(Outcome::Unreachable {
            reason: "r".to_string(),
        }),
        result(Outcome::Failed {
            reason: "f".to_string(),
        }),
        result(Outcome::Cancelled),
    ];
    let t = tally_outcomes(&results);
    assert_eq!((t.compressed, t.skipped, t.failed), (1, 2, 3));
    let none = tally_outcomes(&Vec::new());
    assert_eq!((none.compressed, none.skipped, none.failed), (0, 0, 0));
}

#[test]
fn preview_rename_uses_sequence_one() {
    assert_eq!(
        preview_rename("{name}-{seq:00}-{w}x{h}-{date}", "IMG_1", 640, 480, "2024-01-02"),
        "IMG_1-01-640x480-2024-01-02"
    );
}
