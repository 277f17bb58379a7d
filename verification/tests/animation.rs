use std::time::{Duration, Instant};

use glazewm::animation::{animation_progress_at, Progress};
use glazewm::geometry::{Point, Rect};

fn share(progress: Progress) -> f64 {
    progress.elapsed as f64 / progress.duration as f64
}

fn nanos(duration: Duration) -> u64 {
    duration.as_nanos() as u64
}

#[test]
fn test_animation_progress() {
    let clock = Instant::now();
    let start = 0;
    let duration = Duration::from_millis(100);

    let now = nanos(Duration::from_millis(50) + clock.elapsed());
    let progress = share(animation_progress_at(start, nanos(duration), now));
    assert!((progress - 0.5).abs() < 0.1);
}

#[test]
fn test_interpolate_rect() {
    let start = Rect::from_xy(0, 0, 100, 100);
    let end = Rect::from_xy(100, 100, 200, 200);

    let mid = start.interpolate(&end, Progress { elapsed: 1, duration: 2 });
    assert_eq!(mid.x(), 50);
    assert_eq!(mid.y(), 50);
    assert_eq!(mid.width(), 150);
    assert_eq!(mid.height(), 150);
}

#[test]
fn progress_handles_submillisecond_and_zero_durations() {
    let start = nanos(Duration::from_secs(1));
    let progress = animation_progress_at(
        start,
        nanos(Duration::from_micros(500)),
        start + nanos(Duration::from_micros(250)),
    );
    assert!((share(progress) - 0.5).abs() < 1e-6);
    assert_eq!(share(animation_progress_at(start, 0, start)), 1.0);
    assert_eq!(
        share(animation_progress_at(
            start,
            nanos(Duration::from_millis(100)),
            start - nanos(Duration::from_millis(1)),
        )),
        0.0,
    );
}

#[test]
fn progress_never_runs_backwards() {
    let mut last = 0.0;
    for now in (0..300).step_by(7) {
        let progress = animation_progress_at(50, 200, now);
        assert!(share(progress) >= last);
        assert_eq!(progress.is_finished(), now >= 250);
        last = share(progress);
    }
    assert_eq!(last, 1.0);
}

#[test]
fn interpolation_moves_every_edge_towards_its_end() {
    let start = Rect { left: 10, top: -10, right: 20, bottom: 7 };
    let end = Rect { left: 0, top: 10, right: 23, bottom: 7 };
    let third = start.interpolate(&end, Progress { elapsed: 1, duration: 3 });
    assert_eq!(third, Rect { left: 7, top: -4, right: 21, bottom: 7 });
    assert_eq!(start.interpolate(&end, Progress { elapsed: 0, duration: 3 }), start);
    assert_eq!(start.interpolate(&end, Progress { elapsed: 3, duration: 3 }), end);
    let wide = Rect { left: i32::MIN, top: i32::MAX, right: 0, bottom: 0 };
    let other = Rect { left: i32::MAX, top: i32::MIN, right: 0, bottom: 0 };
    let far = wide.interpolate(&other, Progress { elapsed: u64::MAX, duration: u64::MAX });
    assert_eq!(far, other);
}

#[test]
fn rectangles_know_their_centre_and_contents() {
    let rect = Rect::from_xy(100, 50, 21, 10);
    assert_eq!(rect.center_point(), Point { x: 110, y: 55 });
    assert!(rect.contains_point(&Point { x: 100, y: 60 }));
    assert!(!rect.contains_point(&Point { x: 99, y: 55 }));
    assert!(rect.same_size(&Rect::from_xy(0, 0, 21, 10)));
    assert!(!rect.same_size(&Rect::from_xy(0, 0, 21, 11)));
    let everything = Rect { left: i32::MIN, top: i32::MIN, right: i32::MAX, bottom: i32::MAX };
    assert_eq!(everything.center_point(), Point { x: -1, y: -1 });
}
