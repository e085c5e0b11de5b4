use ping_monitor::probe::ProbeSettings;

#[test]
fn standard_settings() {
    assert_eq!(
        ProbeSettings::standard(),
        ProbeSettings {
            timeout_secs: 1,
            interval_secs: 1,
            ttl: 128,
            dont_fragment: true,
            payload: vec![1, 2, 3, 4],
        }
    );
}
