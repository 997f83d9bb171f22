use rizzo_pii::log::{chrono_timestamp, format_timestamp, log_entry_in, log_line, timestamp_at, tlog};
use rizzo_pii::paths::{config_dir, config_dir_in, config_file, log_dir_in, log_file, sidecar_exe};
use std::path::{Path, PathBuf};
use std::time::{Duration, SystemTime, UNIX_EPOCH};

#[test]
fn sidecar_stands_below_the_resources() {
    assert_eq!(
        sidecar_exe(Path::new("/opt/app")),
        Path::new("/opt/app").join("backend").join("pii-backend").join("pii-backend.exe")
    );
}

#[test]
fn sidecar_fixes_its_directory() {
    let dirs = ["", ".", "..", "/", "/opt", "/opt/app", "/opt/app/.", "./a", "a/../b", "a b", "\u{e8}", "C:",
        "//opt/app", "///opt", "\\\\?\\C:\\app", "\\\\server\\share"];
    for dir in dirs {
        let exe = sidecar_exe(Path::new(dir));
        assert_eq!(exe.ancestors().nth(3), Some(Path::new(dir)));
        assert_eq!(
            exe.strip_prefix(dir).unwrap(),
            Path::new("backend").join("pii-backend").join("pii-backend.exe")
        );
        let parts: Vec<_> = exe.iter().collect();
        let base: Vec<_> = Path::new(dir).iter().collect();
        assert_eq!(parts[..base.len()], base[..]);
        assert_eq!(parts.len(), base.len() + 3);
        for other in dirs {
            let same = Path::new(dir) == Path::new(other);
            assert_eq!(exe == sidecar_exe(Path::new(other)), same);
        }
    }
}

#[test]
fn configuration_directory() {
    assert_eq!(config_dir_in(Some(PathBuf::from("/d"))), Path::new("/d").join("rizzo-pii"));
    assert_eq!(config_dir_in(None), Path::new(".").join("rizzo-pii"));
    let base = dirs::data_local_dir().unwrap_or_else(|| PathBuf::from("."));
    assert_eq!(config_dir(), base.join("rizzo-pii"));
    assert_eq!(config_file(&PathBuf::from("/d")), Path::new("/d").join("config.json"));
}

#[test]
fn log_directory() {
    assert_eq!(log_dir_in(Some(PathBuf::from("/h"))), Path::new("/h").join("rizzo-pii"));
    assert_eq!(log_dir_in(None), PathBuf::from("rizzo-pii"));
    assert_eq!(log_file(&PathBuf::from("/h")), Path::new("/h").join("tauri.log"));
}

#[test]
fn timestamps_have_three_fraction_digits() {
    assert_eq!(format_timestamp(0, 0), "0.000");
    assert_eq!(format_timestamp(1700000000, 7), "1700000000.007");
    assert_eq!(format_timestamp(12, 45), "12.045");
    assert_eq!(format_timestamp(12, 999), "12.999");
}

#[test]
fn moments_are_told_since_the_epoch() {
    assert_eq!(timestamp_at(UNIX_EPOCH), "0.000");
    assert_eq!(timestamp_at(UNIX_EPOCH + Duration::from_millis(61_045)), "61.045");
    assert_eq!(timestamp_at(UNIX_EPOCH - Duration::from_secs(5)), "0.000");
}

#[test]
fn current_time_is_told() {
    let before = SystemTime::now().duration_since(UNIX_EPOCH).unwrap().as_secs();
    let stamp = chrono_timestamp();
    let after = SystemTime::now().duration_since(UNIX_EPOCH).unwrap().as_secs();
    let (secs, millis) = stamp.split_once('.').unwrap();
    let secs: u64 = secs.parse().unwrap();
    assert!(before <= secs && secs <= after);
    assert_eq!(millis.len(), 3);
}

#[test]
fn lines_of_the_log() {
    assert_eq!(log_line("12.045", "avvio"), "[12.045] avvio\n");
    let entry = log_entry_in(Some(PathBuf::from("/h")), "1.000", "x");
    assert_eq!(entry.dir, Path::new("/h").join("rizzo-pii"));
    assert_eq!(entry.path, Path::new("/h").join("rizzo-pii").join("tauri.log"));
    assert_eq!(entry.line, "[1.000] x\n");
}

#[test]
fn log_of_the_user() {
    let entry = tlog("retry_backend: chiamato");
    let home = dirs::home_dir().unwrap_or_default();
    assert_eq!(entry.dir, home.join("rizzo-pii"));
    assert_eq!(entry.path, entry.dir.join("tauri.log"));
    assert!(entry.line.starts_with('['));
    assert!(entry.line.ends_with("] retry_backend: chiamato\n"));
}
