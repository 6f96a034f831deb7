use vredditor::ytdl::{
    default_codec, info_command_args, info_run_outcome, merge_command_args, merge_outcome, YTFormat, YTInfo,
};

fn fmt(id: &str, url: &str) -> YTFormat {
    YTFormat {
        format: format!("{} - x", id),
        id: id.to_string(),
        note: None,
        url: url.to_string(),
        filesize: None,
        ext: "mp4".to_string(),
    }
}

fn info(format_id: &str) -> YTInfo {
    YTInfo {
        formats: vec![
            fmt("v1", "https://v.example/a.m3u8"),
            fmt("a1", "https://a.example/audio.m4a"),
            fmt("v1", "https://v.example/second"),
        ],
        id: "vid".to_string(),
        format_id: format_id.to_string(),
        format: "x".to_string(),
        vcodec: default_codec(),
        acodec: default_codec(),
    }
}

#[test]
fn get_format_finds_first() {
    let i = info("v1+a1");
    assert_eq!(i.get_format("v1").unwrap().url, "https://v.example/a.m3u8");
    assert_eq!(i.get_format("a1").unwrap().url, "https://a.example/audio.m4a");
    assert!(i.get_format("zz").is_none());
}

#[test]
fn chosen_formats() {
    let i = info("v1+a1");
    let (v, a) = i.chosen_format();
    assert_eq!(v.unwrap().id, "v1");
    assert_eq!(a.unwrap().id, "a1");
    let i = info("v1");
    let (v, a) = i.chosen_format();
    assert!(v.is_some());
    assert!(a.is_none());
}

#[test]
fn download_urls_rewrite_hls() {
    let i = info("v1+a1");
    assert_eq!(
        i.download_urls(),
        Ok(("https://v.example/a.ts".to_string(), "https://a.example/audio.m4a".to_string()))
    );
    assert_eq!(
        info("v1").download_urls(),
        Err("unknown video format specifier with (true, false)".to_string())
    );
    assert_eq!(
        info("zz+a1").download_urls(),
        Err("unknown video format specifier with (false, true)".to_string())
    );
}

#[test]
fn command_lines() {
    assert_eq!(default_codec(), "none");
    assert_eq!(
        info_command_args("https://x", &vec!["-f".to_string(), "best".to_string()]),
        vec!["--restrict-filenames", "-J", "--write-info-json", "https://x", "-f", "best"]
    );
    assert_eq!(
        merge_command_args("v.ts", "a.m4a", "out"),
        vec!["-y", "-i", "v.ts", "-i", "a.m4a", "-c", "copy", "-f", "mp4", "out"]
    );
}

#[test]
fn run_outcomes() {
    assert_eq!(info_run_outcome(true, "u"), Ok(()));
    assert_eq!(info_run_outcome(false, "u"), Err("failed to run youtube-dl on u".to_string()));
    assert_eq!(merge_outcome(true, "x"), Ok(()));
    assert_eq!(merge_outcome(false, "oops"), Err("failed to transcode:\noops".to_string()));
}
