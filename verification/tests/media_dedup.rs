use rexit::cache::LookupCache;
use rexit::dedup::DedupLog;
use rexit::media::{
    absorb_response, extension_of_content_type, is_http_url, is_mxc_url, plan_fetch,
    resolve_media_url, FetchPlan, Image, MediaError,
};

const DOWNLOAD_BASE: &str =
    "https://matrix.redditspace.com/_matrix/media/r0/download/reddit.com/";

#[test]
fn image_from_keeps_its_parts() {
    let img = Image::from("abc".to_string(), "png".to_string(), vec![1, 2, 3]);
    assert_eq!(img.id, "abc");
    assert_eq!(img.extension, "png");
    assert_eq!(img.data, vec![1, 2, 3]);
}

#[test]
fn mxc_url_is_recognized() {
    assert!(is_mxc_url(&"mxc://reddit.com/abc123".to_string()));
    assert!(!is_mxc_url(&"https://reddit.com/abc123".to_string()));
    assert!(is_http_url(&"https://reddit.com/abc123".to_string()));
    assert!(is_http_url(&"http://reddit.com/abc123".to_string()));
    assert!(!is_http_url(&"mxc://reddit.com/abc123".to_string()));
}

#[test]
fn mxc_url_is_rewritten_onto_download_base() {
    let r = resolve_media_url(&"mxc://reddit.com/abc123".to_string());
    assert_eq!(r.id, "abc123");
    assert_eq!(r.download_url, format!("{DOWNLOAD_BASE}abc123"));
}

#[test]
fn direct_url_keeps_itself_and_takes_last_segment() {
    let url = "https://preview.redd.it/some/path/pic051a.jpg?width=640&s=abc".to_string();
    let r = resolve_media_url(&url);
    assert_eq!(r.download_url, url);
    assert_eq!(r.id, "pic051a.jpg");
}

#[test]
fn direct_url_skips_empty_trailing_segment() {
    let r = resolve_media_url(&"https://example.com/a/b/".to_string());
    assert_eq!(r.id, "b");
}

#[test]
fn content_types_map_to_extensions() {
    assert_eq!(extension_of_content_type("image/jpeg").unwrap(), "jpeg");
    assert_eq!(extension_of_content_type("image/png").unwrap(), "png");
    assert_eq!(extension_of_content_type("image/gif").unwrap(), "gif");
    assert!(matches!(
        extension_of_content_type("image/webp"),
        Err(MediaError::UnsupportedContentType)
    ));
    assert!(matches!(
        extension_of_content_type("text/html"),
        Err(MediaError::UnsupportedContentType)
    ));
    assert!(matches!(
        extension_of_content_type("nonsense"),
        Err(MediaError::UnsupportedContentType)
    ));
}

#[test]
fn dedup_log_hydrates_and_answers() {
    let log = DedupLog::from_lines(vec![
        "mxc://reddit.com/one".to_string(),
        "mxc://reddit.com/two".to_string(),
    ]);
    assert_eq!(log.len(), 2);
    assert!(log.contains("mxc://reddit.com/one"));
    assert!(log.contains("mxc://reddit.com/two"));
    assert!(!log.contains("mxc://reddit.com/three"));
}

#[test]
fn dedup_log_only_grows() {
    let mut log = DedupLog::new();
    assert!(!log.contains("mxc://reddit.com/a"));
    log.record("mxc://reddit.com/a".to_string());
    assert!(log.contains("mxc://reddit.com/a"));
    log.record("mxc://reddit.com/b".to_string());
    assert!(log.contains("mxc://reddit.com/a"));
    assert!(log.contains("mxc://reddit.com/b"));
    assert_eq!(log.len(), 2);
}

#[test]
fn logged_url_is_never_fetched_again() {
    let url = "mxc://reddit.com/seen".to_string();
    let log = DedupLog::from_lines(vec![url.clone()]);
    let cache = LookupCache::new(16);
    assert!(matches!(plan_fetch(&url, &log, &cache), FetchPlan::SkipLogged));
}

#[test]
fn second_fetch_of_same_url_issues_no_request() {
    let url = "mxc://reddit.com/fresh".to_string();
    let mut log = DedupLog::new();
    let mut cache = LookupCache::new(16);

    let (download_url, id) = match plan_fetch(&url, &log, &cache) {
        FetchPlan::Get { download_url, id } => (download_url, id),
        _ => panic!("a first fetch must be requested"),
    };
    assert_eq!(download_url, format!("{DOWNLOAD_BASE}fresh"));

    let img = absorb_response(
        &mut log,
        &mut cache,
        &url,
        id,
        &"image/png".to_string(),
        vec![9, 9],
    )
    .unwrap();
    assert_eq!(img.extension, "png");
    assert_eq!(img.id, "fresh");

    match plan_fetch(&url, &log, &cache) {
        FetchPlan::Get { .. } => panic!("the second fetch must not issue a request"),
        _ => {}
    }

    let fresh_cache = LookupCache::new(16);
    assert!(matches!(
        plan_fetch(&url, &log, &fresh_cache),
        FetchPlan::SkipLogged
    ));
}

#[test]
fn cached_artifact_is_reused_within_the_run() {
    let url = "https://i.redd.it/zzz.png".to_string();
    let log = DedupLog::new();
    let mut cache = LookupCache::new(16);
    cache.remember_media(
        url.clone(),
        Image::from("zzz.png".to_string(), "png".to_string(), vec![7]),
    );
    match plan_fetch(&url, &log, &cache) {
        FetchPlan::UseCached { img } => {
            assert_eq!(img.id, "zzz.png");
            assert_eq!(img.data, vec![7]);
        }
        _ => panic!("the cached artifact must be reused"),
    }
}

#[test]
fn unsupported_content_type_writes_no_dedup_entry() {
    let url = "mxc://reddit.com/webp1".to_string();
    let mut log = DedupLog::new();
    let mut cache = LookupCache::new(16);
    let r = absorb_response(
        &mut log,
        &mut cache,
        &url,
        "webp1".to_string(),
        &"image/webp".to_string(),
        vec![1],
    );
    assert!(matches!(r, Err(MediaError::UnsupportedContentType)));
    assert_eq!(log.len(), 0);
    assert!(!log.contains(&url));
    assert!(matches!(plan_fetch(&url, &log, &cache), FetchPlan::Get { .. }));
}

#[test]
fn cache_remembers_and_evicts_when_full() {
    let mut cache = LookupCache::new(2);
    cache.remember_name("@a:reddit.com".to_string(), "A".to_string());
    cache.remember_name("@b:reddit.com".to_string(), "B".to_string());
    assert_eq!(cache.display_name("@a:reddit.com").unwrap(), "A");
    assert_eq!(cache.display_name("@b:reddit.com").unwrap(), "B");
    cache.remember_name("@c:reddit.com".to_string(), "C".to_string());
    assert_eq!(cache.display_name("@c:reddit.com").unwrap(), "C");
    assert!(cache.display_name("@a:reddit.com").is_none());
    assert_eq!(cache.display_name("@b:reddit.com").unwrap(), "B");
}

#[test]
fn touching_a_name_saves_it_from_eviction() {
    let mut cache = LookupCache::new(2);
    cache.remember_name("@a:reddit.com".to_string(), "A".to_string());
    cache.remember_name("@b:reddit.com".to_string(), "B".to_string());
    cache.touch_name("@a:reddit.com");
    cache.remember_name("@c:reddit.com".to_string(), "C".to_string());
    assert_eq!(cache.display_name("@a:reddit.com").unwrap(), "A");
    assert!(cache.display_name("@b:reddit.com").is_none());
    assert_eq!(cache.display_name("@c:reddit.com").unwrap(), "C");
}

#[test]
fn name_and_media_maps_are_independent() {
    let mut cache = LookupCache::new(4);
    cache.remember_name("@a:reddit.com".to_string(), "A".to_string());
    cache.remember_media(
        "mxc://reddit.com/m".to_string(),
        Image::from("m".to_string(), "gif".to_string(), vec![]),
    );
    assert_eq!(cache.display_name("@a:reddit.com").unwrap(), "A");
    assert!(cache.display_name("mxc://reddit.com/m").is_none());
    assert!(cache.media("@a:reddit.com").is_none());
    assert_eq!(cache.media("mxc://reddit.com/m").unwrap().extension, "gif");
}

#[test]
fn mxc_id_is_first_segment_after_server() {
    let r = resolve_media_url(&"mxc://reddit.com/abc/extra".to_string());
    assert_eq!(r.id, "abc");
    assert_eq!(r.download_url, format!("{DOWNLOAD_BASE}abc"));
}

#[test]
fn direct_url_without_path_has_empty_id() {
    let r = resolve_media_url(&"https://example.com".to_string());
    assert_eq!(r.id, "");
    assert_eq!(r.download_url, "https://example.com");
}

#[test]
fn content_type_with_parameters_is_not_accepted() {
    assert!(matches!(
        extension_of_content_type("image/png; charset=binary"),
        Err(MediaError::UnsupportedContentType)
    ));
}

#[test]
fn media_map_evicts_least_recently_used_artifact() {
    let mut cache = LookupCache::new(2);
    cache.remember_media(
        "mxc://r/a".to_string(),
        Image::from("a".to_string(), "png".to_string(), vec![]),
    );
    cache.remember_media(
        "mxc://r/b".to_string(),
        Image::from("b".to_string(), "png".to_string(), vec![]),
    );
    cache.touch_media("mxc://r/a");
    cache.remember_media(
        "mxc://r/c".to_string(),
        Image::from("c".to_string(), "png".to_string(), vec![]),
    );
    assert!(cache.media("mxc://r/a").is_some());
    assert!(cache.media("mxc://r/b").is_none());
    assert!(cache.media("mxc://r/c").is_some());
}
