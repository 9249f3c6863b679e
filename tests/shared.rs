use wallpaper_engine_plasma::shared::SharedConfig;
use wallpaper_engine_plasma::FillMode;

#[test]
fn shared_config_starts_idle() {
    let shared = SharedConfig::new();
    let s = shared.snapshot();
    assert!(!s.enabled());
    assert_eq!(s.directory(), None);
    assert_eq!(s.period_secs(), 3600);
    assert_eq!(s.fill_mode(), FillMode::Crop);
}

#[test]
fn shared_config_start_and_stop() {
    let shared = SharedConfig::new();
    assert!(shared.start_directory_loop("/tmp/wp".to_string(), 1, 2, 2));
    let s = shared.snapshot();
    assert!(s.enabled());
    assert_eq!(s.directory(), Some("/tmp/wp".to_string()));
    assert_eq!(s.screen(), 1);
    assert_eq!(s.fill_mode(), FillMode::Crop);
    assert_eq!(s.period_secs(), 2);

    assert!(shared.stop_loop());
    let s = shared.snapshot();
    assert!(!s.enabled());
    assert_eq!(s.directory(), Some("/tmp/wp".to_string()));
    assert!(shared.stop_loop());
    assert!(!shared.snapshot().enabled());
}

#[test]
fn shared_config_refuses_unknown_fill_mode() {
    let shared = SharedConfig::new();
    assert!(!shared.start_directory_loop("/tmp/wp".to_string(), 0, 9, 2));
    let s = shared.snapshot();
    assert!(!s.enabled());
    assert_eq!(s.directory(), None);
}

#[test]
fn shared_config_keeps_last_whole_record() {
    let shared = SharedConfig::new();
    shared.start_directory_loop("/a".to_string(), 1, 0, 10);
    shared.start_directory_loop("/b".to_string(), 2, 6, 20);
    let s = shared.snapshot();
    assert_eq!(s.directory(), Some("/b".to_string()));
    assert_eq!(s.screen(), 2);
    assert_eq!(s.fill_mode(), FillMode::Pad);
    assert_eq!(s.period_secs(), 20);
}
