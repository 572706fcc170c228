use std::collections::HashSet;

use url_cache::extension::canonical_extension;
use url_cache::hex::encode_hex;
use url_cache::key::extension_of_suffix;
use url_cache::key::extension_of_url;
use url_cache::key::file_name_of;
use url_cache::key::find_suffix;
use url_cache::key::get_cache_filename;
use url_cache::key::CacheKey;
use url_cache::text::chars_of;
use url_cache::text::same_text;

#[test]
fn hex_of_bytes_is_lower_case_two_digits_each() {
    assert_eq!(encode_hex(&[]), "");
    assert_eq!(encode_hex(&[0x00, 0x0a, 0x14, 0x1e, 0xff]), "000a141eff");
    assert_eq!(encode_hex(&[0xde, 0xad, 0xbe, 0xef]), "deadbeef");
}

#[test]
fn digest_is_sha256_of_the_url_bytes() {
    assert_eq!(
        get_cache_filename("abc"),
        "ba7816bf8f01cfea414140de5dae2223b00361a396177a9cb410ff61f20015ad.bin"
    );
    assert_eq!(
        get_cache_filename(""),
        "e3b0c44298fc1c149afbf4c8996fb92427ae41e4649b934ca495991b7852b855.bin"
    );
    let key = CacheKey::derive("abc");
    assert_eq!(key.digest().len(), 32);
    assert_eq!(key.digest()[0], 0xba);
    assert_eq!(key.digest()[31], 0xad);
}

#[test]
fn upper_case_suffix_before_query_maps_to_jpg() {
    assert_eq!(
        get_cache_filename("http://x/a.JPG?x=1"),
        "211149796e9a9c6a509ff8ed788f1c9f616ab58d64f4a4be84aa7c7f99992d5a.jpg"
    );
    assert_eq!(CacheKey::derive("http://x/a.JPG?x=1").extension(), "jpg");
}

#[test]
fn unknown_suffix_maps_to_bin() {
    assert_eq!(
        get_cache_filename("http://x/a.unknownext"),
        "830478a14caca8432992ab51b06cfa00042fd2d969121c4b61883ff17b07265b.bin"
    );
}

#[test]
fn missing_suffix_maps_to_bin() {
    assert_eq!(
        get_cache_filename("http://x/noext"),
        "f16878b52a4863659ab244033999ab47b4b77d0d12633643050ebd0a6c289aea.bin"
    );
    assert_eq!(extension_of_url("http://x/png"), "bin");
    assert_eq!(extension_of_url("http://x.png/file"), "bin");
    assert_eq!(extension_of_url("http://x/a."), "bin");
    assert_eq!(extension_of_url(""), "bin");
}

#[test]
fn file_name_is_64_hex_digits_dot_extension() {
    let name = get_cache_filename("https://example.com/media/clip.MP4");
    assert_eq!(
        name,
        "719bba906b7ef7d0e27d5f05f702d2670918327a707d0bc6a0fcfdaa735f5512.mp4"
    );
    assert_eq!(name.len(), 64 + 1 + 3);
    assert!(name[..64].chars().all(|c| c.is_ascii_digit() || ('a'..='f').contains(&c)));
    assert_eq!(&name[64..65], ".");
}

#[test]
fn only_the_last_suffix_of_the_last_segment_counts() {
    assert_eq!(
        get_cache_filename("https://example.com/a/b/c.tar.gz?download=1"),
        "c9b2778287814351114c18911fa03350ffa7740e935a03b8b9bc80b24c284b16.gz"
    );
    assert_eq!(extension_of_url("https://example.com/v1.2/readme"), "bin");
    assert_eq!(extension_of_url("https://example.com/a.png/b.pdf"), "pdf");
    assert_eq!(extension_of_url("https://example.com/a.png?file=b.pdf"), "png");
    assert_eq!(extension_of_url("https://example.com/a.png?x=/y.zip"), "png");
    assert_eq!(extension_of_url("report.DOCX"), "docx");
}

#[test]
fn non_ascii_urls_are_hashed_by_their_utf8_bytes() {
    assert_eq!(
        get_cache_filename("https://例え.jp/画像.PNG"),
        "c5a7ab5948044268dfea92336b0dc81da37c31e295b889bf2e4789f310fd8bf1.png"
    );
}

#[test]
fn lower_casing_follows_unicode() {
    // U+212A KELVIN SIGN lower-cases to an ordinary `k`.
    assert_eq!(extension_of_url("http://x/film.M\u{212A}V"), "mkv");
}

#[test]
fn jpeg_is_written_jpg_and_every_listed_extension_stays() {
    assert_eq!(canonical_extension("jpeg"), "jpg");
    let kept = [
        "jpg", "png", "gif", "webp", "bmp", "svg", "ico", "mp4", "avi", "mov", "mkv", "webm",
        "flv", "wmv", "m4v", "mp3", "wav", "ogg", "flac", "m4a", "aac", "wma", "pdf", "txt",
        "doc", "docx", "xls", "xlsx", "ppt", "pptx", "csv", "json", "xml", "zip", "rar", "7z",
        "tar", "gz", "js", "ts", "jsx", "tsx", "py", "java", "cpp", "c", "go", "rs", "html",
        "css",
    ];
    for ext in kept {
        assert_eq!(canonical_extension(ext), ext);
    }
    for other in ["", "bin", "exe", "JPG", "jp", "jpgg", "tar.gz", "h", "mp5"] {
        assert_eq!(canonical_extension(other), "bin");
    }
}

#[test]
fn extension_of_suffix_takes_the_lowered_text() {
    assert_eq!(extension_of_suffix(Some("png")), "png");
    assert_eq!(extension_of_suffix(Some("PNG")), "bin");
    assert_eq!(extension_of_suffix(Some("jpeg")), "jpg");
    assert_eq!(extension_of_suffix(None), "bin");
}

#[test]
fn suffix_range_is_found_among_the_characters() {
    let chars = chars_of("http://x/a.JPG?x=1");
    assert_eq!(find_suffix(&chars), Some((11, 14)));
    let chars = chars_of("http://x/noext");
    assert_eq!(find_suffix(&chars), None);
    let chars = chars_of("a.b.c");
    assert_eq!(find_suffix(&chars), Some((4, 5)));
    let chars = chars_of("a.");
    assert_eq!(find_suffix(&chars), Some((2, 2)));
    let chars = chars_of("é.x?.y");
    assert_eq!(find_suffix(&chars), Some((2, 3)));
}

#[test]
fn same_text_compares_characters() {
    assert!(same_text("", ""));
    assert!(same_text("png", "png"));
    assert!(!same_text("png", "pn"));
    assert!(!same_text("png", "pnG"));
    assert!(same_text("画像", "画像"));
}

#[test]
fn deriving_twice_gives_the_same_key() {
    for url in ["http://x/a.JPG?x=1", "https://example.com/", "", "file:///local/path"] {
        assert_eq!(get_cache_filename(url), get_cache_filename(url));
        let first = CacheKey::derive(url);
        let second = CacheKey::derive(url);
        assert_eq!(first.digest(), second.digest());
        assert_eq!(first.extension(), second.extension());
        assert_eq!(first.file_name(), second.file_name());
    }
}

#[test]
fn urls_that_differ_in_one_character_have_different_keys() {
    let base = "https://example.com/media/picture-0000.png?size=large";
    let mut seen = HashSet::new();
    assert!(seen.insert(get_cache_filename(base)));
    let alphabet = ['a', 'Z', '0', '-', '_', '~', 'é'];
    let chars: Vec<char> = base.chars().collect();
    for position in 0..chars.len() {
        for replacement in alphabet {
            if chars[position] == replacement {
                continue;
            }
            let mut changed = chars.clone();
            changed[position] = replacement;
            let url: String = changed.into_iter().collect();
            assert!(seen.insert(get_cache_filename(&url)), "collision for {}", url);
        }
    }
    for n in 0..2000u32 {
        let url = format!("https://example.com/item/{}", n);
        assert!(seen.insert(get_cache_filename(&url)), "collision for {}", url);
        let url = format!("https://example.com/item/{}?v=1", n);
        assert!(seen.insert(get_cache_filename(&url)), "collision for {}", url);
    }
}

#[test]
fn same_content_under_two_urls_has_two_keys() {
    let a = get_cache_filename("https://a.example/logo.png");
    let b = get_cache_filename("https://b.example/logo.png");
    assert_ne!(a, b);
    assert_ne!(a[..64], b[..64]);
}

#[test]
fn query_changes_the_digest_but_not_the_extension() {
    let plain = CacheKey::derive("https://example.com/a.webp");
    let queried = CacheKey::derive("https://example.com/a.webp?w=100");
    assert_ne!(plain.digest(), queried.digest());
    assert_eq!(plain.extension(), "webp");
    assert_eq!(queried.extension(), "webp");
}

#[test]
fn file_name_of_joins_digest_and_extension() {
    assert_eq!(file_name_of(&[0xab, 0x01], "png"), "ab01.png");
    assert_eq!(file_name_of(&[], "bin"), ".bin");
    let key = CacheKey::derive("abc");
    assert_eq!(file_name_of(key.digest(), key.extension()), key.file_name());
}
