use std::collections::BTreeMap;

use url_cache::error::CacheError;
use url_cache::fetch::FetchOutcome;
use url_cache::key::get_cache_filename;
use url_cache::maintain::Clearer;
use url_cache::maintain::Measurer;
use url_cache::protocol::Reply;
use url_cache::protocol::Request;
use url_cache::protocol::Step;
use url_cache::resolve::Resolver;
use url_cache::store::EntryInfo;

/// A directory in memory, with a count of the requests it has served.
struct Disk {
    root: String,
    dir: String,
    present: bool,
    files: BTreeMap<String, Vec<u8>>,
    subdirs: usize,
    remote: BTreeMap<String, (u16, Vec<u8>)>,
    fetches: usize,
    asked: usize,
}

fn disk(root: &str) -> Disk {
    Disk {
        root: root.to_string(),
        dir: format!("{}/images", root),
        present: false,
        files: BTreeMap::new(),
        subdirs: 0,
        remote: BTreeMap::new(),
        fetches: 0,
        asked: 0,
    }
}

fn answer(disk: &mut Disk, request: Request) -> Reply {
    disk.asked += 1;
    match request {
        Request::LocateCache => Reply::Located(Ok(disk.root.clone())),
        Request::EnsureDir { dir } => {
            assert_eq!(dir, disk.dir);
            disk.present = true;
            Reply::Completed(Ok(()))
        }
        Request::Exists { path } => {
            Reply::Exists(disk.present && (path == disk.dir || disk.files.contains_key(&path)))
        }
        Request::Fetch { url } => {
            disk.fetches += 1;
            match disk.remote.get(&url) {
                Some((status, body)) => {
                    Reply::Fetched(FetchOutcome::Response { status: *status, body: body.clone() })
                }
                None => Reply::Fetched(FetchOutcome::Unreachable("no route".to_string())),
            }
        }
        Request::Write { path, bytes } => {
            if disk.present {
                disk.files.insert(path, bytes);
                Reply::Completed(Ok(()))
            } else {
                Reply::Completed(Err(CacheError::Io("no directory".to_string())))
            }
        }
        Request::RemoveDir { dir } => {
            assert_eq!(dir, disk.dir);
            disk.present = false;
            disk.files.clear();
            disk.subdirs = 0;
            Reply::Completed(Ok(()))
        }
        Request::ListDir { dir } => {
            assert_eq!(dir, disk.dir);
            if disk.present {
                let mut entries: Vec<EntryInfo> = disk
                    .files
                    .values()
                    .map(|bytes| EntryInfo::File { len: bytes.len() as u64 })
                    .collect();
                for _ in 0..disk.subdirs {
                    entries.push(EntryInfo::Other);
                }
                Reply::Listed(Some(entries))
            } else {
                Reply::Listed(None)
            }
        }
    }
}

fn resolve(disk: &mut Disk, url: &str) -> Result<String, CacheError> {
    let (mut resolver, mut step) = Resolver::start(url.to_string());
    loop {
        match step {
            Step::Finish(result) => {
                assert!(resolver.is_finished());
                return result;
            }
            Step::Ask(request) => {
                assert!(!resolver.is_finished());
                let reply = answer(disk, request);
                step = resolver.step(reply).expect("the reply answers the request");
            }
        }
    }
}

fn cache_size(disk: &mut Disk) -> Result<u64, CacheError> {
    let (mut measurer, mut step) = Measurer::start();
    loop {
        match step {
            Step::Finish(result) => {
                assert!(measurer.is_finished());
                return result;
            }
            Step::Ask(request) => {
                let reply = answer(disk, request);
                step = measurer.step(reply).expect("the reply answers the request");
            }
        }
    }
}

fn clear_cache(disk: &mut Disk) -> Result<(), CacheError> {
    let (mut clearer, mut step) = Clearer::start();
    loop {
        match step {
            Step::Finish(result) => {
                assert!(clearer.is_finished());
                return result;
            }
            Step::Ask(request) => {
                let reply = answer(disk, request);
                step = clearer.step(reply).expect("the reply answers the request");
            }
        }
    }
}

#[test]
fn local_references_come_back_unchanged_and_ask_nothing() {
    for reference in ["file:///local/path", "/abs/local/path", "", "C:\\pictures\\a.png"] {
        let mut d = disk("/cache");
        assert_eq!(resolve(&mut d, reference), Ok(reference.to_string()));
        assert_eq!(d.asked, 0);
        assert_eq!(d.fetches, 0);
        assert!(!d.present);
        assert!(d.files.is_empty());
    }
}

#[test]
fn first_resolve_fetches_once_and_second_not_at_all() {
    let url = "https://example.com/media/clip.MP4";
    let mut d = disk("/cache");
    d.remote.insert(url.to_string(), (200, vec![9, 8, 7]));
    let path = format!("/cache/images/{}", get_cache_filename(url));
    assert_eq!(
        path,
        "/cache/images/719bba906b7ef7d0e27d5f05f702d2670918327a707d0bc6a0fcfdaa735f5512.mp4"
    );

    assert_eq!(resolve(&mut d, url), Ok(path.clone()));
    assert_eq!(d.fetches, 1);
    assert_eq!(d.asked, 5);
    assert_eq!(d.files.get(&path), Some(&vec![9, 8, 7]));
    assert_eq!(d.files.len(), 1);

    d.remote.clear();
    assert_eq!(resolve(&mut d, url), Ok(path.clone()));
    assert_eq!(d.fetches, 1);
    assert_eq!(d.asked, 8);
    assert_eq!(d.files.get(&path), Some(&vec![9, 8, 7]));
    assert_eq!(d.files.len(), 1);
}

#[test]
fn failed_fetch_gives_the_url_back() {
    let url = "https://example.com/gone.png";
    let mut d = disk("/cache");
    assert_eq!(resolve(&mut d, url), Ok(url.to_string()));
    assert_eq!(d.fetches, 1);
    assert!(d.files.is_empty());

    d.remote.insert(url.to_string(), (404, b"not found".to_vec()));
    assert_eq!(resolve(&mut d, url), Ok(url.to_string()));
    assert_eq!(d.fetches, 2);
    assert!(d.files.is_empty());
}

#[test]
fn requests_come_in_order() {
    let url = "http://x/a.JPG?x=1";
    let path =
        "/cache/images/211149796e9a9c6a509ff8ed788f1c9f616ab58d64f4a4be84aa7c7f99992d5a.jpg";
    let (mut resolver, step) = Resolver::start(url.to_string());
    assert_eq!(step, Step::Ask(Request::LocateCache));
    assert_eq!(
        resolver.step(Reply::Located(Ok("/cache".to_string()))),
        Some(Step::Ask(Request::EnsureDir { dir: "/cache/images".to_string() }))
    );
    assert_eq!(
        resolver.step(Reply::Completed(Ok(()))),
        Some(Step::Ask(Request::Exists { path: path.to_string() }))
    );
    assert_eq!(
        resolver.step(Reply::Exists(false)),
        Some(Step::Ask(Request::Fetch { url: url.to_string() }))
    );
    assert_eq!(
        resolver.step(Reply::Fetched(FetchOutcome::Response { status: 200, body: vec![1, 2] })),
        Some(Step::Ask(Request::Write { path: path.to_string(), bytes: vec![1, 2] }))
    );
    assert_eq!(resolver.step(Reply::Completed(Ok(()))), Some(Step::Finish(Ok(path.to_string()))));
    assert!(resolver.is_finished());
    assert_eq!(resolver.step(Reply::Completed(Ok(()))), None);
    assert_eq!(resolver.step(Reply::Exists(true)), None);
}

#[test]
fn failed_write_gives_the_url_back() {
    let url = "http://x/a.png";
    let (mut resolver, _) = Resolver::start(url.to_string());
    resolver.step(Reply::Located(Ok("/cache".to_string())));
    resolver.step(Reply::Completed(Ok(())));
    resolver.step(Reply::Exists(false));
    resolver.step(Reply::Fetched(FetchOutcome::Response { status: 200, body: vec![1] }));
    assert_eq!(
        resolver.step(Reply::Completed(Err(CacheError::Io("disk full".to_string())))),
        Some(Step::Finish(Ok(url.to_string())))
    );
    assert!(resolver.is_finished());
}

#[test]
fn cache_directory_that_cannot_be_made_gives_the_url_back() {
    let url = "http://x/a.png";
    let (mut resolver, _) = Resolver::start(url.to_string());
    resolver.step(Reply::Located(Ok("/cache".to_string())));
    assert_eq!(
        resolver.step(Reply::Completed(Err(CacheError::Io("denied".to_string())))),
        Some(Step::Finish(Ok(url.to_string())))
    );
    assert!(resolver.is_finished());
}

#[test]
fn cache_that_cannot_be_located_gives_the_url_back() {
    let url = "https://example.com/a.png";
    for error in [
        CacheError::Io("no cache directory".to_string()),
        CacheError::Network("offline".to_string()),
        CacheError::Http(500),
    ] {
        let (mut resolver, _) = Resolver::start(url.to_string());
        assert_eq!(
            resolver.step(Reply::Located(Err(error))),
            Some(Step::Finish(Ok(url.to_string())))
        );
        assert!(resolver.is_finished());
    }
}

#[test]
fn cache_path_that_is_not_text_is_the_one_error_of_a_resolution() {
    let (mut resolver, _) = Resolver::start("http://x/a.png".to_string());
    assert_eq!(
        resolver.step(Reply::Located(Err(CacheError::PathEncoding))),
        Some(Step::Finish(Err(CacheError::PathEncoding)))
    );
    assert!(resolver.is_finished());
}

#[test]
fn replies_report_their_failure() {
    assert_eq!(Reply::Completed(Ok(())).failure(), None);
    assert_eq!(Reply::Exists(false).failure(), None);
    assert_eq!(Reply::Listed(None).failure(), None);
    assert_eq!(Reply::Located(Ok("/cache".to_string())).failure(), None);
    assert_eq!(
        Reply::Located(Err(CacheError::PathEncoding)).failure(),
        Some("路径转换失败".to_string())
    );
    assert_eq!(
        Reply::Completed(Err(CacheError::Io("disk full".to_string()))).failure(),
        Some("disk full".to_string())
    );
    assert_eq!(
        Reply::Fetched(FetchOutcome::Response { status: 200, body: vec![1] }).failure(),
        None
    );
    assert_eq!(
        Reply::Fetched(FetchOutcome::Response { status: 404, body: vec![] }).failure(),
        Some("下载失败，HTTP 状态码: 404".to_string())
    );
    assert_eq!(
        Reply::Fetched(FetchOutcome::Unreachable("dns".to_string())).failure(),
        Some("dns".to_string())
    );
    assert_eq!(
        Reply::Fetched(FetchOutcome::BodyLost { status: 200, detail: "reset".to_string() })
            .failure(),
        Some("reset".to_string())
    );
    assert_eq!(
        Reply::Fetched(FetchOutcome::BodyLost { status: 502, detail: "reset".to_string() })
            .failure(),
        Some("下载失败，HTTP 状态码: 502".to_string())
    );
}

#[test]
fn replies_of_the_wrong_kind_are_ignored() {
    let (mut resolver, _) = Resolver::start("http://x/a.png".to_string());
    assert_eq!(resolver.step(Reply::Completed(Ok(()))), None);
    assert!(resolver.step(Reply::Located(Ok("/cache".to_string()))).is_some());
    assert_eq!(resolver.step(Reply::Located(Ok("/cache".to_string()))), None);
    assert_eq!(resolver.step(Reply::Exists(true)), None);
    assert_eq!(resolver.step(Reply::Listed(None)), None);
    assert_eq!(
        resolver.step(Reply::Fetched(FetchOutcome::Unreachable("x".to_string()))),
        None
    );
    assert!(!resolver.is_finished());
    assert!(resolver.step(Reply::Completed(Ok(()))).is_some());
    assert_eq!(resolver.step(Reply::Completed(Ok(()))), None);
}

#[test]
fn cache_hit_returns_the_path_without_fetching() {
    let url = "http://x/a.png";
    let (mut resolver, _) = Resolver::start(url.to_string());
    resolver.step(Reply::Located(Ok("/cache".to_string())));
    resolver.step(Reply::Completed(Ok(())));
    let expected = format!("/cache/images/{}", get_cache_filename(url));
    assert_eq!(resolver.step(Reply::Exists(true)), Some(Step::Finish(Ok(expected))));
}

#[test]
fn size_is_the_sum_of_the_files_in_the_directory() {
    let mut d = disk("/cache");
    assert_eq!(cache_size(&mut d), Ok(0));
    assert!(d.present);
    d.files.insert("/cache/images/a.bin".to_string(), vec![0; 10]);
    d.files.insert("/cache/images/b.png".to_string(), vec![0; 300]);
    d.files.insert("/cache/images/c.pdf".to_string(), vec![]);
    d.subdirs = 2;
    assert_eq!(cache_size(&mut d), Ok(310));
}

#[test]
fn size_steps_follow_the_directory() {
    let dir = "/cache/images".to_string();
    let (mut measurer, step) = Measurer::start();
    assert_eq!(step, Step::Ask(Request::LocateCache));
    assert_eq!(
        measurer.step(Reply::Located(Ok("/cache/".to_string()))),
        Some(Step::Ask(Request::EnsureDir { dir: dir.clone() }))
    );
    assert_eq!(
        measurer.step(Reply::Completed(Ok(()))),
        Some(Step::Ask(Request::Exists { path: dir.clone() }))
    );
    assert_eq!(
        measurer.step(Reply::Exists(true)),
        Some(Step::Ask(Request::ListDir { dir: dir.clone() }))
    );
    assert_eq!(
        measurer.step(Reply::Listed(Some(vec![
            EntryInfo::File { len: 5 },
            EntryInfo::Other,
            EntryInfo::Unreadable,
            EntryInfo::File { len: 6 },
        ]))),
        Some(Step::Finish(Ok(11)))
    );
    assert_eq!(measurer.step(Reply::Listed(None)), None);

    let (mut measurer, _) = Measurer::start();
    measurer.step(Reply::Located(Ok("/cache".to_string())));
    measurer.step(Reply::Completed(Ok(())));
    assert_eq!(measurer.step(Reply::Exists(false)), Some(Step::Finish(Ok(0))));

    let (mut measurer, _) = Measurer::start();
    measurer.step(Reply::Located(Ok("/cache".to_string())));
    measurer.step(Reply::Completed(Ok(())));
    measurer.step(Reply::Exists(true));
    assert_eq!(measurer.step(Reply::Listed(None)), Some(Step::Finish(Ok(0))));

    let (mut measurer, _) = Measurer::start();
    measurer.step(Reply::Located(Ok("/cache".to_string())));
    assert_eq!(
        measurer.step(Reply::Completed(Err(CacheError::Io("denied".to_string())))),
        Some(Step::Finish(Ok(0)))
    );
    assert!(measurer.is_finished());

    let (mut measurer, _) = Measurer::start();
    assert_eq!(
        measurer.step(Reply::Located(Err(CacheError::Io("no cache directory".to_string())))),
        Some(Step::Finish(Err(CacheError::Io("no cache directory".to_string()))))
    );
}

#[test]
fn clear_then_size_is_zero_and_the_directory_is_writable() {
    let mut d = disk("/cache");
    d.remote.insert("http://x/a.png".to_string(), (200, vec![1; 100]));
    d.remote.insert("http://x/b.png".to_string(), (200, vec![2; 50]));
    resolve(&mut d, "http://x/a.png").unwrap();
    resolve(&mut d, "http://x/b.png").unwrap();
    d.subdirs = 1;
    assert_eq!(cache_size(&mut d), Ok(150));

    assert_eq!(clear_cache(&mut d), Ok(()));
    assert!(d.present);
    assert!(d.files.is_empty());
    assert_eq!(cache_size(&mut d), Ok(0));

    let path = resolve(&mut d, "http://x/a.png").unwrap();
    assert_eq!(d.files.get(&path), Some(&vec![1; 100]));
    assert_eq!(cache_size(&mut d), Ok(100));
}

#[test]
fn clear_steps_remove_and_recreate() {
    let dir = "/cache/images".to_string();
    let (mut clearer, step) = Clearer::start();
    assert_eq!(step, Step::Ask(Request::LocateCache));
    assert_eq!(
        clearer.step(Reply::Located(Ok("/cache".to_string()))),
        Some(Step::Ask(Request::EnsureDir { dir: dir.clone() }))
    );
    assert_eq!(
        clearer.step(Reply::Completed(Ok(()))),
        Some(Step::Ask(Request::Exists { path: dir.clone() }))
    );
    assert_eq!(
        clearer.step(Reply::Exists(true)),
        Some(Step::Ask(Request::RemoveDir { dir: dir.clone() }))
    );
    assert_eq!(
        clearer.step(Reply::Completed(Ok(()))),
        Some(Step::Ask(Request::EnsureDir { dir: dir.clone() }))
    );
    assert_eq!(clearer.step(Reply::Completed(Ok(()))), Some(Step::Finish(Ok(()))));
    assert!(clearer.is_finished());
    assert_eq!(clearer.step(Reply::Completed(Ok(()))), None);
}

#[test]
fn clear_reports_each_failure() {
    let denied = || CacheError::Io("denied".to_string());

    let (mut clearer, _) = Clearer::start();
    assert_eq!(
        clearer.step(Reply::Located(Err(denied()))),
        Some(Step::Finish(Err(denied())))
    );
    assert!(clearer.is_finished());

    let (mut clearer, _) = Clearer::start();
    clearer.step(Reply::Located(Ok("/cache".to_string())));
    assert_eq!(
        clearer.step(Reply::Completed(Err(denied()))),
        Some(Step::Finish(Err(denied())))
    );

    let (mut clearer, _) = Clearer::start();
    clearer.step(Reply::Located(Ok("/cache".to_string())));
    clearer.step(Reply::Completed(Ok(())));
    clearer.step(Reply::Exists(true));
    assert_eq!(
        clearer.step(Reply::Completed(Err(denied()))),
        Some(Step::Finish(Err(denied())))
    );

    let (mut clearer, _) = Clearer::start();
    clearer.step(Reply::Located(Ok("/cache".to_string())));
    clearer.step(Reply::Completed(Ok(())));
    clearer.step(Reply::Exists(true));
    clearer.step(Reply::Completed(Ok(())));
    assert_eq!(
        clearer.step(Reply::Completed(Err(denied()))),
        Some(Step::Finish(Err(denied())))
    );

    let (mut clearer, _) = Clearer::start();
    clearer.step(Reply::Located(Ok("/cache".to_string())));
    clearer.step(Reply::Completed(Ok(())));
    assert_eq!(clearer.step(Reply::Exists(false)), Some(Step::Finish(Ok(()))));
}
