use yolo::archive::{decompress_shader, ArchiveError};
use yolo::watcher::{on_file_event, FileEvent, WatchAction, DEBOUNCE_MS, SETTLE_MS};
use yolo::window::{SurfaceMode, Window, DEFAULT_HEIGHT, DEFAULT_WIDTH};

#[test]
fn modification_reloads_after_settling() {
    assert_eq!(on_file_event(FileEvent::Modified), WatchAction::Reload { settle_ms: 100 });
    assert_eq!(SETTLE_MS, 100);
    assert_eq!(DEBOUNCE_MS, 2000);
}

#[test]
fn other_events_wait_report_or_finish() {
    assert_eq!(on_file_event(FileEvent::Notice), WatchAction::Wait);
    assert_eq!(on_file_event(FileEvent::Removed), WatchAction::Wait);
    assert_eq!(on_file_event(FileEvent::AttributesChanged), WatchAction::Wait);
    assert_eq!(on_file_event(FileEvent::Failed), WatchAction::Report);
    assert_eq!(on_file_event(FileEvent::Closed), WatchAction::Finish);
}

#[test]
fn window_keeps_its_settings() {
    let w = Window::new([DEFAULT_WIDTH, DEFAULT_HEIGHT], "yolo".to_string(), true, 4, false, false);
    assert_eq!(w.resolution, [1024, 786]);
    assert_eq!(w.title, "yolo");
    assert!(w.vsync);
    assert_eq!(w.msaa, 4);
    assert_eq!(w.surface_mode(), SurfaceMode::Windowed { width: 1024, height: 786, decorated: true });
}

#[test]
fn borderless_window_has_no_decorations() {
    let w = Window::new([640, 480], "yolo".to_string(), false, 0, true, false);
    assert_eq!(w.surface_mode(), SurfaceMode::Windowed { width: 640, height: 480, decorated: false });
}

#[test]
fn fullscreen_wins_over_size() {
    let w = Window::new([640, 480], "yolo".to_string(), false, 0, true, true);
    assert_eq!(w.surface_mode(), SurfaceMode::Fullscreen);
}

#[test]
fn gzip_shader_is_decompressed() {
    let data: Vec<u8> = vec![
        31, 139, 8, 0, 0, 0, 0, 0, 2, 3, 43, 203, 207, 76, 81, 200, 77, 204, 204, 211, 208, 84, 168, 174,
        229, 2, 0, 123, 164, 66, 211, 15, 0, 0, 0,
    ];
    assert_eq!(decompress_shader(&data), Ok("void main() {}\n".to_string()));
}

#[test]
fn plain_text_is_no_archive() {
    assert_eq!(decompress_shader(b"void main() {}\n"), Err(ArchiveError::NotGzipText));
    assert_eq!(decompress_shader(b""), Err(ArchiveError::NotGzipText));
}

#[test]
fn archive_of_non_utf8_bytes_is_refused() {
    let data: Vec<u8> = vec![31, 139, 8, 0, 0, 0, 0, 0, 2, 3, 251, 255, 15, 0, 150, 48, 248, 136, 2, 0, 0, 0];
    assert_eq!(decompress_shader(&data), Err(ArchiveError::NotGzipText));
}
