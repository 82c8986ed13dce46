use milyai::session::{
    has_learn_urls, is_blank, is_exit, learn_interval, DEFAULT_LEARN_INTERVAL_SECS,
    VOICE_COOLDOWN_MS,
};
use milyai::settings::Settings;
use milyai::text::decimal;

#[test]
fn console_ends_on_exit_or_quit() {
    for line in ["exit", "quit", "EXIT", "Quit\n", "  exit \r\n", "\tqUiT"] {
        assert!(is_exit(line), "{line:?}");
    }
    for line in ["", "\n", "exit now", "quit!", "ex it", "exi", "q"] {
        assert!(!is_exit(line), "{line:?}");
    }
}

#[test]
fn blank_is_white_space_or_nothing() {
    for text in ["", " ", "\n", "\t \u{a0}\u{3000}"] {
        assert!(is_blank(text), "{text:?}");
    }
    for text in ["a", " a ", "\u{200b}", "."] {
        assert!(!is_blank(text), "{text:?}");
    }
}

#[test]
fn learning_rests_an_hour_by_default() {
    let mut settings = Settings::default();
    assert_eq!(learn_interval(&settings), 3600);
    assert_eq!(DEFAULT_LEARN_INTERVAL_SECS, 3600);
    settings.learn_interval_secs = Some(5);
    assert_eq!(learn_interval(&settings), 5);
    settings.learn_interval_secs = Some(0);
    assert_eq!(learn_interval(&settings), 0);
    assert_eq!(VOICE_COOLDOWN_MS, 800);
}

#[test]
fn learning_needs_at_least_one_url() {
    let mut settings = Settings::default();
    assert!(!has_learn_urls(&settings));
    settings.learn_urls = Some(Vec::new());
    assert!(!has_learn_urls(&settings));
    settings.learn_urls = Some(vec!["https://site.test/".to_string()]);
    assert!(has_learn_urls(&settings));
}

#[test]
fn decimal_agrees_with_std() {
    for n in [0u64, 1, 9, 10, 11, 99, 100, 404, 65_535, 1_000_000, u64::MAX] {
        assert_eq!(decimal(n), n.to_string());
    }
}
