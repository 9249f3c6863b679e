use wallpaper_engine_plasma::scheduler::{Action, Scheduler, IDLE_SECS, NO_IMAGES_SECS};
use wallpaper_engine_plasma::service::start_directory_loop;
use wallpaper_engine_plasma::state::{RotationConfig, DEFAULT_PERIOD_SECS};
use wallpaper_engine_plasma::FillMode;

fn listing(names: &[&str]) -> Vec<String> {
    names.iter().map(|n| n.to_string()).collect()
}

fn applied_path(action: Action) -> (String, u32, FillMode, u64) {
    match action {
        Action::Apply { wallpaper, secs } => {
            (wallpaper.path, wallpaper.screen, wallpaper.fill_mode, secs)
        }
        Action::NoImages { .. } => panic!("expected an image to be applied"),
    }
}

#[test]
fn new_config_has_safe_defaults() {
    let c = RotationConfig::new();
    assert!(!c.enabled());
    assert_eq!(c.directory(), None);
    assert_eq!(c.period_secs(), DEFAULT_PERIOD_SECS);
    assert_eq!(c.period_secs(), 3600);
    assert_eq!(c.screen(), 0);
    assert_eq!(c.fill_mode(), FillMode::Crop);
    assert!(!c.is_rotating());
}

#[test]
fn start_then_snapshot_shows_exact_fields() {
    let mut c = RotationConfig::new();
    assert!(c.start_rotation("/tmp/wp".to_string(), 3, FillMode::Tile, 42));
    let s = c.snapshot();
    assert!(s.enabled());
    assert_eq!(s.directory(), Some("/tmp/wp".to_string()));
    assert_eq!(s.screen(), 3);
    assert_eq!(s.fill_mode(), FillMode::Tile);
    assert_eq!(s.period_secs(), 42);
    assert!(s.is_rotating());
}

#[test]
fn stop_then_snapshot_shows_disabled() {
    let mut fresh = RotationConfig::new();
    assert!(fresh.stop_rotation());
    assert!(!fresh.snapshot().enabled());

    let mut c = RotationConfig::new();
    c.start_rotation("/pics".to_string(), 1, FillMode::Pad, 7);
    assert!(c.stop_rotation());
    let s = c.snapshot();
    assert!(!s.enabled());
    assert_eq!(s.directory(), Some("/pics".to_string()));
    assert_eq!(s.screen(), 1);
    assert_eq!(s.fill_mode(), FillMode::Pad);
    assert_eq!(s.period_secs(), 7);
}

#[test]
fn last_command_wins_in_either_order() {
    let mut a = RotationConfig::new();
    a.start_rotation("/old".to_string(), 9, FillMode::Fit, 99);
    a.stop_rotation();
    a.start_rotation("/new".to_string(), 2, FillMode::Stretch, 5);
    assert!(a.enabled());
    assert_eq!(a.directory(), Some("/new".to_string()));
    assert_eq!(a.screen(), 2);
    assert_eq!(a.fill_mode(), FillMode::Stretch);
    assert_eq!(a.period_secs(), 5);

    let mut b = RotationConfig::new();
    b.start_rotation("/old".to_string(), 9, FillMode::Fit, 99);
    b.start_rotation("/new".to_string(), 2, FillMode::Stretch, 5);
    b.stop_rotation();
    assert!(!b.enabled());
    assert_eq!(b.directory(), Some("/new".to_string()));
    assert_eq!(b.screen(), 2);
    assert_eq!(b.fill_mode(), FillMode::Stretch);
    assert_eq!(b.period_secs(), 5);
}

#[test]
fn directory_loop_refuses_unknown_fill_mode() {
    let mut c = RotationConfig::new();
    assert!(!start_directory_loop(&mut c, "/tmp/wp".to_string(), 0, 7, 2));
    assert!(!c.enabled());
    assert_eq!(c.directory(), None);
    assert_eq!(c.fill_mode(), FillMode::Crop);

    assert!(start_directory_loop(&mut c, "/tmp/wp".to_string(), 1, 6, 2));
    assert!(c.enabled());
    assert_eq!(c.fill_mode(), FillMode::Pad);
    assert_eq!(c.screen(), 1);
}

#[test]
fn idle_scheduler_lists_nothing_and_resets() {
    let mut sched = Scheduler::new();
    let c = RotationConfig::new();
    assert_eq!(sched.decide(&c), None);
    assert_eq!(sched.cursor(), 0);
    assert_eq!(IDLE_SECS, 5);

    // a stopped rotation is idle too, and the cursor starts over
    let mut c = RotationConfig::new();
    c.start_rotation("/d".to_string(), 0, FillMode::Crop, 1);
    assert_eq!(sched.decide(&c), Some("/d".to_string()));
    let entries = listing(&["/d/x.png", "/d/y.png"]);
    sched.act(&c, &entries);
    assert_eq!(sched.cursor(), 1);
    c.stop_rotation();
    assert_eq!(sched.decide(&c), None);
    assert_eq!(sched.cursor(), 0);
}

#[test]
fn empty_listing_takes_fallback_path() {
    let mut c = RotationConfig::new();
    c.start_rotation("/empty".to_string(), 0, FillMode::Crop, 2);
    let mut sched = Scheduler::new();
    let entries = listing(&["/empty/notes.txt", "/empty/README", "/empty/.png"]);
    for _ in 0..3 {
        assert_eq!(sched.decide(&c), Some("/empty".to_string()));
        match sched.act(&c, &entries) {
            Action::NoImages { secs } => assert_eq!(secs, NO_IMAGES_SECS),
            other => panic!("unexpected {:?}", other),
        }
        assert_eq!(sched.cursor(), 0);
    }
    assert_eq!(NO_IMAGES_SECS, 10);
}

#[test]
fn empty_listing_resets_cursor() {
    let mut c = RotationConfig::new();
    c.start_rotation("/d".to_string(), 0, FillMode::Crop, 2);
    let mut sched = Scheduler::new();
    sched.act(&c, &listing(&["/d/a.png", "/d/b.png", "/d/c.png"]));
    sched.act(&c, &listing(&["/d/a.png", "/d/b.png", "/d/c.png"]));
    assert_eq!(sched.cursor(), 2);
    sched.act(&c, &listing(&[]));
    assert_eq!(sched.cursor(), 0);
}

#[test]
fn cycles_visit_listing_in_order_and_wrap() {
    let mut c = RotationConfig::new();
    c.start_rotation("/d".to_string(), 0, FillMode::Crop, 1);
    let entries = listing(&["/d/1.png", "/d/skip.gif", "/d/2.jpg", "/d/3.jpeg"]);
    let mut sched = Scheduler::new();
    let mut seen = Vec::new();
    for _ in 0..7 {
        seen.push(applied_path(sched.act(&c, &entries)).0);
    }
    assert_eq!(
        seen,
        vec!["/d/1.png", "/d/2.jpg", "/d/3.jpeg", "/d/1.png", "/d/2.jpg", "/d/3.jpeg", "/d/1.png"]
    );
}

#[test]
fn shrunk_listing_wraps_cursor() {
    let mut c = RotationConfig::new();
    c.start_rotation("/d".to_string(), 0, FillMode::Crop, 1);
    let mut sched = Scheduler::new();
    let big = listing(&["/d/a.png", "/d/b.png", "/d/c.png"]);
    sched.act(&c, &big);
    sched.act(&c, &big);
    sched.act(&c, &big);
    assert_eq!(sched.cursor(), 3);
    let small = listing(&["/d/a.png", "/d/b.png"]);
    assert_eq!(applied_path(sched.act(&c, &small)).0, "/d/a.png");
    assert_eq!(sched.cursor(), 1);
}

#[test]
fn rotation_scenario_two_images_every_two_seconds() {
    let mut c = RotationConfig::new();
    assert!(c.start_rotation("/tmp/wp".to_string(), 0, FillMode::Crop, 2));
    let mut sched = Scheduler::new();
    let entries = listing(&["/tmp/wp/a.png", "/tmp/wp/b.jpg"]);
    let expected = ["/tmp/wp/a.png", "/tmp/wp/b.jpg", "/tmp/wp/a.png", "/tmp/wp/b.jpg"];
    for want in expected {
        let dir = sched.decide(&c.snapshot()).expect("rotation is on");
        assert_eq!(dir, "/tmp/wp");
        let (path, screen, fill, secs) = applied_path(sched.act(&c, &entries));
        assert_eq!(path, want);
        assert_eq!(screen, 0);
        assert_eq!(fill, FillMode::Crop);
        assert_eq!(fill.to_u8(), 2);
        assert_eq!(secs, 2);
    }
}

#[test]
fn new_directory_starts_from_first_image() {
    let mut c = RotationConfig::new();
    c.start_rotation("/one".to_string(), 0, FillMode::Crop, 1);
    let mut sched = Scheduler::new();
    let one = listing(&["/one/a.png", "/one/b.png", "/one/c.png"]);
    assert_eq!(sched.decide(&c), Some("/one".to_string()));
    sched.act(&c, &one);
    assert_eq!(sched.decide(&c), Some("/one".to_string()));
    sched.act(&c, &one);
    assert_eq!(sched.cursor(), 2);

    c.start_rotation("/two".to_string(), 0, FillMode::Crop, 1);
    assert_eq!(sched.decide(&c), Some("/two".to_string()));
    assert_eq!(sched.cursor(), 0);
    let two = listing(&["/two/x.jpg", "/two/y.jpg"]);
    assert_eq!(applied_path(sched.act(&c, &two)).0, "/two/x.jpg");
}
