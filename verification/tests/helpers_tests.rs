use iced_video::helpers::helper_functions::{secs_to_hhmmss, window_title};

#[test]
fn clock_text_under_a_minute() {
    assert_eq!(secs_to_hhmmss(0), "0:00");
    assert_eq!(secs_to_hhmmss(5), "0:05");
    assert_eq!(secs_to_hhmmss(59), "0:59");
}

#[test]
fn clock_text_minutes() {
    assert_eq!(secs_to_hhmmss(60), "1:00");
    assert_eq!(secs_to_hhmmss(90), "1:30");
    assert_eq!(secs_to_hhmmss(125), "2:05");
    assert_eq!(secs_to_hhmmss(3599), "59:59");
}

#[test]
fn clock_text_hours() {
    assert_eq!(secs_to_hhmmss(3600), "1:00:00");
    assert_eq!(secs_to_hhmmss(3725), "1:02:05");
    assert_eq!(secs_to_hhmmss(86399), "23:59:59");
    assert_eq!(secs_to_hhmmss(360000), "100:00:00");
}

#[test]
fn clock_text_largest() {
    let max = u64::MAX;
    let h = max / 3600;
    let m = (max % 3600) / 60;
    let s = max % 60;
    assert_eq!(secs_to_hhmmss(max), format!("{}:{:02}:{:02}", h, m, s));
}

fn read_back(text: &str) -> u64 {
    text.split(':').fold(0u64, |acc, part| acc * 60 + part.parse::<u64>().unwrap())
}

#[test]
fn clock_text_reads_back() {
    for secs in [0u64, 1, 59, 60, 61, 119, 120, 3599, 3600, 3601, 7322, 99999] {
        assert_eq!(read_back(&secs_to_hhmmss(secs)), secs);
    }
}

#[test]
fn title_with_windows_path() {
    assert_eq!(
        window_title(Some("C:\\Videos\\movie.mp4"), "Video Player"),
        "movie.mp4 - Video Player"
    );
}

#[test]
fn title_without_backslash() {
    assert_eq!(
        window_title(Some("file:///home/me/movie.mp4"), "Video Player"),
        "file:///home/me/movie.mp4 - Video Player"
    );
}

#[test]
fn title_trailing_backslash() {
    assert_eq!(window_title(Some("C:\\Videos\\"), "Video Player"), " - Video Player");
}

#[test]
fn title_without_source() {
    assert_eq!(window_title(None, "Video Player"), "Video Player");
}

#[test]
fn title_with_unicode() {
    assert_eq!(window_title(Some("D:\\films\\été.mkv"), "Lecteur"), "été.mkv - Lecteur");
}
