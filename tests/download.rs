use wallpaper_changer::download::{plan_fetch, AssetKind, FetchAction, FetchError, FetchSession};
use wallpaper_changer::models::{WHImageData, WHImageThumbnailImageData};

fn image(id: &str, file_type: &str) -> WHImageData {
    WHImageData {
        id: id.to_string(),
        url: format!("https://wallhaven.cc/w/{}", id),
        short_url: format!("https://whvn.cc/{}", id),
        uploader: None,
        views: 1,
        favorites: 0,
        source: String::new(),
        purity: "sfw".to_string(),
        category: "general".to_string(),
        dimension_x: 1920,
        dimension_y: 1080,
        resolution: "1920x1080".to_string(),
        ratio: "1.78".to_string(),
        file_size: 1000,
        file_type: file_type.to_string(),
        created_at: "2024-01-01 00:00:00".to_string(),
        colors: vec![],
        path: format!("https://w.wallhaven.cc/full/{}.png", id),
        thumbs: WHImageThumbnailImageData {
            large: format!("https://th.wallhaven.cc/lg/{}.jpg", id),
            original: format!("https://th.wallhaven.cc/orig/{}.jpg", id),
            small: format!("https://th.wallhaven.cc/small/{}.jpg", id),
        },
        tags: None,
    }
}

#[test]
fn plan_for_thumbnail_and_original() {
    let img = image("abc123", "image/png");
    let t = plan_fetch(&img, "/c/thumbs", AssetKind::Thumbnail);
    assert_eq!(t.path, "/c/thumbs/wallhaven-abc123.png");
    assert_eq!(t.partial_path, "/c/thumbs/wallhaven-abc123.png.part");
    assert_eq!(t.url, "https://th.wallhaven.cc/small/abc123.jpg");
    assert_eq!(t.dir, "/c/thumbs");
    let o = plan_fetch(&img, "/c/walls", AssetKind::Original);
    assert_eq!(o.path, "/c/walls/wallhaven-abc123.png");
    assert_eq!(o.url, "https://w.wallhaven.cc/full/abc123.png");
}

#[test]
fn cached_file_is_used_without_download() {
    let img = image("abc123", "image/png");
    for _ in 0..2 {
        let (mut s, first) = FetchSession::begin(&img, "/c", AssetKind::Thumbnail);
        assert!(matches!(&first, FetchAction::CheckExists(p) if p == "/c/wallhaven-abc123.png"));
        let next = s.step(true);
        assert!(matches!(&next, FetchAction::Finish(Ok(p)) if p == "/c/wallhaven-abc123.png"));
    }
}

#[test]
fn miss_downloads_then_commits() {
    let img = image("q1", "image/jpeg");
    let (mut s, _) = FetchSession::begin(&img, "/c", AssetKind::Original);
    assert!(matches!(s.step(false), FetchAction::CreateDir(d) if d == "/c"));
    assert!(matches!(s.step(true), FetchAction::Download(u) if u == "https://w.wallhaven.cc/full/q1.png"));
    assert!(matches!(s.step(true), FetchAction::WritePartial(p) if p == "/c/wallhaven-q1.jpg.part"));
    assert!(matches!(s.step(true),
        FetchAction::Commit { from, to } if from == "/c/wallhaven-q1.jpg.part" && to == "/c/wallhaven-q1.jpg"));
    assert!(matches!(s.step(true), FetchAction::Finish(Ok(p)) if p == "/c/wallhaven-q1.jpg"));
    assert!(matches!(s.step(false), FetchAction::Finish(Ok(p)) if p == "/c/wallhaven-q1.jpg"));
}

#[test]
fn directory_failure_is_reported() {
    let img = image("q1", "image/jpeg");
    let (mut s, _) = FetchSession::begin(&img, "/c", AssetKind::Thumbnail);
    s.step(false);
    assert!(matches!(s.step(false), FetchAction::Finish(Err(FetchError::DirectoryCreate))));
}

#[test]
fn network_failure_is_reported() {
    let img = image("q1", "image/jpeg");
    let (mut s, _) = FetchSession::begin(&img, "/c", AssetKind::Thumbnail);
    s.step(false);
    s.step(true);
    assert!(matches!(s.step(false), FetchAction::Finish(Err(FetchError::Network))));
}

#[test]
fn write_failure_removes_partial_file() {
    let img = image("q1", "image/gif");
    let (mut s, _) = FetchSession::begin(&img, "/c", AssetKind::Thumbnail);
    s.step(false);
    s.step(true);
    s.step(true);
    assert!(matches!(s.step(false), FetchAction::RemovePartial(p) if p == "/c/wallhaven-q1.gif.part"));
    assert!(matches!(s.step(true), FetchAction::Finish(Err(FetchError::Write))));
}

#[test]
fn failed_rename_removes_partial_file() {
    let img = image("q1", "image/gif");
    let (mut s, _) = FetchSession::begin(&img, "/c", AssetKind::Thumbnail);
    s.step(false);
    s.step(true);
    s.step(true);
    s.step(true);
    assert!(matches!(s.step(false), FetchAction::RemovePartial(p) if p == "/c/wallhaven-q1.gif.part"));
    assert!(matches!(s.step(false), FetchAction::Finish(Err(FetchError::Write))));
}

#[test]
fn distinct_ids_give_distinct_files() {
    let ids = ["a1", "b2", "c3"];
    let mut paths: Vec<String> = ids
        .iter()
        .map(|id| plan_fetch(&image(id, "image/png"), "/c", AssetKind::Thumbnail).path)
        .collect();
    paths.sort();
    paths.dedup();
    assert_eq!(paths.len(), 3);
}
