use url_cache::error::decimal;
use url_cache::error::CacheError;
use url_cache::fetch::download_failure;
use url_cache::fetch::download_result;
use url_cache::fetch::is_remote_url;
use url_cache::fetch::is_success_status;
use url_cache::fetch::FetchOutcome;
use url_cache::greet::greet;
use url_cache::key::CacheKey;
use url_cache::store::join;
use url_cache::store::total_size;
use url_cache::store::CacheStore;
use url_cache::store::EntryInfo;

#[test]
fn join_puts_one_separator_between_directory_and_name() {
    assert_eq!(join("/tmp/cache", "images"), "/tmp/cache/images");
    assert_eq!(join("/tmp/cache/", "images"), "/tmp/cache/images");
    assert_eq!(join("", "images"), "images");
    assert_eq!(join("/", "images"), "/images");
    assert_eq!(join("缓存", "a.png"), "缓存/a.png");
}

#[test]
fn store_lives_in_the_images_directory() {
    let store = CacheStore::new("/home/u/.cache/app");
    assert_eq!(store.dir(), "/home/u/.cache/app/images");
}

#[test]
fn entry_path_is_directory_and_file_name() {
    let store = CacheStore::new("/home/u/.cache/app");
    let key = CacheKey::derive("http://x/a.JPG?x=1");
    assert_eq!(
        store.path_for(&key),
        "/home/u/.cache/app/images/211149796e9a9c6a509ff8ed788f1c9f616ab58d64f4a4be84aa7c7f99992d5a.jpg"
    );
}

#[test]
fn total_size_adds_regular_files_only() {
    assert_eq!(total_size(&[]), 0);
    let entries = [
        EntryInfo::File { len: 10 },
        EntryInfo::Other,
        EntryInfo::Unreadable,
        EntryInfo::File { len: 0 },
        EntryInfo::File { len: 4096 },
        EntryInfo::Other,
    ];
    assert_eq!(total_size(&entries), 4106);
    assert_eq!(total_size(&[EntryInfo::Other, EntryInfo::Unreadable]), 0);
}

#[test]
fn total_size_stops_at_the_largest_number() {
    let entries = [
        EntryInfo::File { len: u64::MAX - 1 },
        EntryInfo::File { len: 1 },
    ];
    assert_eq!(total_size(&entries), u64::MAX);
    let entries = [
        EntryInfo::File { len: u64::MAX },
        EntryInfo::File { len: 5 },
        EntryInfo::File { len: 7 },
    ];
    assert_eq!(total_size(&entries), u64::MAX);
}

#[test]
fn only_http_and_https_urls_are_remote() {
    assert!(is_remote_url("http://example.com/a.png"));
    assert!(is_remote_url("https://example.com/a.png"));
    assert!(is_remote_url("http://"));
    assert!(!is_remote_url("file:///local/path"));
    assert!(!is_remote_url("/abs/local/path"));
    assert!(!is_remote_url("HTTP://example.com"));
    assert!(!is_remote_url("http:/example.com"));
    assert!(!is_remote_url("https:/"));
    assert!(!is_remote_url(" http://example.com"));
    assert!(!is_remote_url("ftp://example.com"));
    assert!(!is_remote_url(""));
}

#[test]
fn success_is_200_to_299() {
    assert!(!is_success_status(199));
    assert!(is_success_status(200));
    assert!(is_success_status(204));
    assert!(is_success_status(299));
    assert!(!is_success_status(300));
    assert!(!is_success_status(404));
    assert!(!is_success_status(0));
    assert!(!is_success_status(u16::MAX));
}

#[test]
fn download_result_tells_each_failure_apart() {
    assert_eq!(
        download_result(FetchOutcome::Response { status: 200, body: vec![1, 2, 3] }),
        Ok(vec![1, 2, 3])
    );
    assert_eq!(
        download_result(FetchOutcome::Response { status: 204, body: vec![] }),
        Ok(vec![])
    );
    assert_eq!(
        download_result(FetchOutcome::Response { status: 404, body: vec![1] }),
        Err(CacheError::Http(404))
    );
    assert_eq!(
        download_result(FetchOutcome::Response { status: 301, body: vec![] }),
        Err(CacheError::Http(301))
    );
    assert_eq!(
        download_result(FetchOutcome::Unreachable("dns".to_string())),
        Err(CacheError::Network("dns".to_string()))
    );
    assert_eq!(
        download_result(FetchOutcome::BodyLost { status: 200, detail: "reset".to_string() }),
        Err(CacheError::Network("reset".to_string()))
    );
    assert_eq!(
        download_result(FetchOutcome::BodyLost { status: 500, detail: "reset".to_string() }),
        Err(CacheError::Http(500))
    );
}

#[test]
fn decimal_writes_numbers_without_padding() {
    assert_eq!(decimal(0), "0");
    assert_eq!(decimal(7), "7");
    assert_eq!(decimal(10), "10");
    assert_eq!(decimal(404), "404");
    assert_eq!(decimal(65535), "65535");
}

#[test]
fn messages_name_the_failure() {
    assert_eq!(CacheError::Io("创建缓存目录失败: denied".to_string()).message(), "创建缓存目录失败: denied");
    assert_eq!(CacheError::Network("下载图片失败: timeout".to_string()).message(), "下载图片失败: timeout");
    assert_eq!(CacheError::Http(503).message(), "下载失败，HTTP 状态码: 503");
    assert_eq!(CacheError::PathEncoding.message(), "路径转换失败");
}

#[test]
fn download_failure_names_the_reason_without_taking_the_outcome() {
    let outcome = FetchOutcome::Response { status: 200, body: vec![1, 2] };
    assert_eq!(download_failure(&outcome), None);
    assert_eq!(download_result(outcome), Ok(vec![1, 2]));
    let outcome = FetchOutcome::Response { status: 403, body: vec![] };
    assert_eq!(download_failure(&outcome), Some(CacheError::Http(403)));
    let outcome = FetchOutcome::Unreachable("tls".to_string());
    assert_eq!(download_failure(&outcome), Some(CacheError::Network("tls".to_string())));
    let outcome = FetchOutcome::BodyLost { status: 200, detail: "cut".to_string() };
    assert_eq!(download_failure(&outcome), Some(CacheError::Network("cut".to_string())));
    let outcome = FetchOutcome::BodyLost { status: 500, detail: "cut".to_string() };
    assert_eq!(download_failure(&outcome), Some(CacheError::Http(500)));
}

#[test]
fn greeting_wraps_the_name() {
    assert_eq!(greet("Ada"), "Hello, Ada! You've been greeted from Rust!");
    assert_eq!(greet(""), "Hello, ! You've been greeted from Rust!");
    assert_eq!(greet("世界"), "Hello, 世界! You've been greeted from Rust!");
}
