use snapmark_core::watcher::export_format_for_extension;
use snapmark_core::watcher::expand_user_path;
use snapmark_core::watcher::is_image_file;
use snapmark_core::watcher::is_screenshot_file_name;
use snapmark_core::watcher::latest_screenshot_file;
use snapmark_core::watcher::str_starts_with;
use snapmark_core::watcher::ExportFormat;
use snapmark_core::watcher::FileEntry;
use snapmark_core::watcher::ScreenshotPollState;

fn entry(name: &str, modified_ms: u64) -> FileEntry {
    FileEntry { name: String::from(name), modified_ms, is_file: true }
}

#[test]
fn image_files_are_recognized_by_extension() {
    assert!(is_image_file("Screenshot 2024.png"));
    assert!(is_image_file("photo.JPG"));
    assert!(is_image_file("photo.jpeg"));
    assert!(is_image_file("scan.TIFF"));
    assert!(!is_image_file("notes.txt"));
    assert!(!is_image_file("png"));
    assert!(!is_image_file(".png"));
    assert!(!is_image_file("archive.png.gz"));
    assert!(!is_image_file("noext."));
}

#[test]
fn screenshot_names_match_known_prefixes() {
    assert!(is_screenshot_file_name("Screenshot 2024-05-01 at 10.00.00.png"));
    assert!(is_screenshot_file_name("Screen Shot 2021.png"));
    assert!(is_screenshot_file_name("Снимок экрана 2024.png"));
    assert!(is_screenshot_file_name("スクリーンショット 2024.png"));
    assert!(is_screenshot_file_name("Captura de pantalla.png"));
    assert!(is_screenshot_file_name("Bildschirmfoto.png"));
    assert!(!is_screenshot_file_name("IMG_0001.png"));
    assert!(!is_screenshot_file_name("screenshot lowercase.png"));
}

#[test]
fn starts_with_compares_whole_characters() {
    assert!(str_starts_with("Screenshot", "Screen"));
    assert!(!str_starts_with("Screen", "Screenshot"));
    assert!(str_starts_with("Снимок экрана 1", "Снимок"));
    assert!(!str_starts_with("Снимок", "Сни́мок"));
}

#[test]
fn tilde_paths_expand_against_home() {
    assert_eq!(expand_user_path("~", Some("/home/u")), "/home/u");
    assert_eq!(expand_user_path("~/shots", Some("/home/u")), "/home/u/shots");
    assert_eq!(expand_user_path("~/shots", None), "~/shots");
    assert_eq!(expand_user_path("/tmp/x", Some("/home/u")), "/tmp/x");
    assert_eq!(expand_user_path("~", None), "~");
}

#[test]
fn latest_pick_prefers_newest_and_breaks_ties_by_name() {
    let entries = vec![
        entry("Screenshot a.png", 100),
        entry("Screenshot b.png", 300),
        entry("Screenshot c.png", 200),
        entry("notes.txt", 999),
        FileEntry { name: String::from("Screenshot dir.png"), modified_ms: 999, is_file: false },
    ];
    assert_eq!(latest_screenshot_file(&entries, false), Some(1));

    // an equally new file under a different name displaces the pick
    let tie = vec![entry("Screenshot a.png", 100), entry("Screenshot b.png", 100)];
    assert_eq!(latest_screenshot_file(&tie, false), Some(1));

    // without the loose match a plain image name is not considered
    let plain = vec![entry("IMG.png", 500)];
    assert_eq!(latest_screenshot_file(&plain, false), None);
    assert_eq!(latest_screenshot_file(&plain, true), Some(0));
}

#[test]
fn poll_reports_a_new_file_once_and_remembers_it() {
    let mut poll = ScreenshotPollState::new(Some((100, String::from("Screenshot a.png"))), None);
    let entries = vec![entry("Screenshot a.png", 100)];
    // nothing newer than the baseline
    assert_eq!(poll.poll_new_screenshot_path(&entries, 0), None);

    let newer = vec![entry("Screenshot a.png", 100), entry("Screenshot b.png", 150)];
    assert_eq!(
        poll.poll_new_screenshot_path(&newer, 0),
        Some(String::from("Screenshot b.png"))
    );
    // the reported file became the baseline
    assert_eq!(poll.poll_new_screenshot_path(&newer, 0), None);
}

#[test]
fn capture_signal_stays_armed_for_the_grace_period() {
    let mut poll = ScreenshotPollState::new(None, None);
    assert!(!poll.is_screenshot_signal_active(0));
    poll.observe_screencapture_signal(1000, true);
    assert!(poll.is_screenshot_signal_active(1000));
    // the tool stopped: the grace period restarts
    poll.observe_screencapture_signal(1500, false);
    assert!(poll.is_screenshot_signal_active(3400));
    assert!(!poll.is_screenshot_signal_active(3600));
    // an expired signal is cleared on the next observation
    poll.observe_screencapture_signal(4000, false);
    assert!(!poll.is_screenshot_signal_active(4000));
}

#[test]
fn fingerprints_deduplicate_emitted_images() {
    let mut poll = ScreenshotPollState::new(None, None);
    assert!(poll.should_emit_payload(42));
    assert!(!poll.should_emit_payload(42));
    assert!(poll.should_emit_payload(43));
    assert!(!poll.should_emit_payload(43));
}

#[test]
fn clipboard_is_polled_only_when_the_counter_moves() {
    let mut poll = ScreenshotPollState::new(None, Some(7));
    assert!(!poll.should_poll_clipboard(Some(7)));
    assert!(poll.should_poll_clipboard(Some(8)));
    assert!(!poll.should_poll_clipboard(Some(8)));
    // without a counter the clipboard is always worth a look
    assert!(poll.should_poll_clipboard(None));
}

#[test]
fn export_format_follows_the_extension() {
    assert_eq!(export_format_for_extension("jpg"), ExportFormat::Jpeg);
    assert_eq!(export_format_for_extension("JPEG"), ExportFormat::Jpeg);
    assert_eq!(export_format_for_extension("png"), ExportFormat::Png);
    assert_eq!(export_format_for_extension("webp"), ExportFormat::Png);
    assert_eq!(export_format_for_extension(""), ExportFormat::Png);
}
