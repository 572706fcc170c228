//! The file extensions a cache entry may carry.
//!
//! The extension is cosmetic: it only decides the suffix of the file on disk.
//! A suffix outside the list below is replaced by `bin`.

use vstd::prelude::*;
use crate::text::same_text;

verus! {

pub open spec fn is_image_extension(s: Seq<char>) -> bool {
    s == "jpg"@ || s == "png"@ || s == "gif"@ || s == "webp"@ || s == "bmp"@ || s == "svg"@ || s
        == "ico"@
}

pub open spec fn is_video_extension(s: Seq<char>) -> bool {
    s == "mp4"@ || s == "avi"@ || s == "mov"@ || s == "mkv"@ || s == "webm"@ || s == "flv"@ || s
        == "wmv"@ || s == "m4v"@
}

pub open spec fn is_audio_extension(s: Seq<char>) -> bool {
    s == "mp3"@ || s == "wav"@ || s == "ogg"@ || s == "flac"@ || s == "m4a"@ || s == "aac"@ || s
        == "wma"@
}

pub open spec fn is_document_extension(s: Seq<char>) -> bool {
    s == "pdf"@ || s == "txt"@ || s == "doc"@ || s == "docx"@ || s == "xls"@ || s == "xlsx"@ || s
        == "ppt"@ || s == "pptx"@ || s == "csv"@ || s == "json"@ || s == "xml"@
}

pub open spec fn is_archive_extension(s: Seq<char>) -> bool {
    s == "zip"@ || s == "rar"@ || s == "7z"@ || s == "tar"@ || s == "gz"@
}

pub open spec fn is_code_extension(s: Seq<char>) -> bool {
    s == "js"@ || s == "ts"@ || s == "jsx"@ || s == "tsx"@ || s == "py"@ || s == "java"@ || s
        == "cpp"@ || s == "c"@ || s == "go"@ || s == "rs"@ || s == "html"@ || s == "css"@
}

/// The extensions that are kept as they are.
pub open spec fn is_known_extension(s: Seq<char>) -> bool {
    is_image_extension(s) || is_video_extension(s) || is_audio_extension(s)
        || is_document_extension(s) || is_archive_extension(s) || is_code_extension(s)
}

/// The extension used when a URL shows none that is known.
pub open spec fn generic_extension() -> Seq<char> {
    "bin"@
}

/// The extension stored for a lower-cased URL suffix: `jpeg` is written `jpg`,
/// a known extension stays, anything else becomes `bin`.
pub open spec fn extension_for(lowered: Seq<char>) -> Seq<char> {
    if lowered == "jpeg"@ {
        "jpg"@
    } else if is_known_extension(lowered) {
        lowered
    } else {
        generic_extension()
    }
}

fn image_extension(s: &str) -> (ext: Option<&'static str>)
    ensures
        ext is Some <==> is_image_extension(s@),
        ext matches Some(e) ==> e@ == s@,
{
    if same_text(s, "jpg") {
        Some("jpg")
    } else if same_text(s, "png") {
        Some("png")
    } else if same_text(s, "gif") {
        Some("gif")
    } else if same_text(s, "webp") {
        Some("webp")
    } else if same_text(s, "bmp") {
        Some("bmp")
    } else if same_text(s, "svg") {
        Some("svg")
    } else if same_text(s, "ico") {
        Some("ico")
    } else {
        None
    }
}

fn video_extension(s: &str) -> (ext: Option<&'static str>)
    ensures
        ext is Some <==> is_video_extension(s@),
        ext matches Some(e) ==> e@ == s@,
{
    if same_text(s, "mp4") {
        Some("mp4")
    } else if same_text(s, "avi") {
        Some("avi")
    } else if same_text(s, "mov") {
        Some("mov")
    } else if same_text(s, "mkv") {
        Some("mkv")
    } else if same_text(s, "webm") {
        Some("webm")
    } else if same_text(s, "flv") {
        Some("flv")
    } else if same_text(s, "wmv") {
        Some("wmv")
    } else if same_text(s, "m4v") {
        Some("m4v")
    } else {
        None
    }
}

fn audio_extension(s: &str) -> (ext: Option<&'static str>)
    ensures
        ext is Some <==> is_audio_extension(s@),
        ext matches Some(e) ==> e@ == s@,
{
    if same_text(s, "mp3") {
        Some("mp3")
    } else if same_text(s, "wav") {
        Some("wav")
    } else if same_text(s, "ogg") {
        Some("ogg")
    } else if same_text(s, "flac") {
        Some("flac")
    } else if same_text(s, "m4a") {
        Some("m4a")
    } else if same_text(s, "aac") {
        Some("aac")
    } else if same_text(s, "wma") {
        Some("wma")
    } else {
        None
    }
}

fn document_extension(s: &str) -> (ext: Option<&'static str>)
    ensures
        ext is Some <==> is_document_extension(s@),
        ext matches Some(e) ==> e@ == s@,
{
    if same_text(s, "pdf") {
        Some("pdf")
    } else if same_text(s, "txt") {
        Some("txt")
    } else if same_text(s, "doc") {
        Some("doc")
    } else if same_text(s, "docx") {
        Some("docx")
    } else if same_text(s, "xls") {
        Some("xls")
    } else if same_text(s, "xlsx") {
        Some("xlsx")
    } else if same_text(s, "ppt") {
        Some("ppt")
    } else if same_text(s, "pptx") {
        Some("pptx")
    } else if same_text(s, "csv") {
        Some("csv")
    } else if same_text(s, "json") {
        Some("json")
    } else if same_text(s, "xml") {
        Some("xml")
    } else {
        None
    }
}

fn archive_extension(s: &str) -> (ext: Option<&'static str>)
    ensures
        ext is Some <==> is_archive_extension(s@),
        ext matches Some(e) ==> e@ == s@,
{
    if same_text(s, "zip") {
        Some("zip")
    } else if same_text(s, "rar") {
        Some("rar")
    } else if same_text(s, "7z") {
        Some("7z")
    } else if same_text(s, "tar") {
        Some("tar")
    } else if same_text(s, "gz") {
        Some("gz")
    } else {
        None
    }
}

fn code_extension(s: &str) -> (ext: Option<&'static str>)
    ensures
        ext is Some <==> is_code_extension(s@),
        ext matches Some(e) ==> e@ == s@,
{
    if same_text(s, "js") {
        Some("js")
    } else if same_text(s, "ts") {
        Some("ts")
    } else if same_text(s, "jsx") {
        Some("jsx")
    } else if same_text(s, "tsx") {
        Some("tsx")
    } else if same_text(s, "py") {
        Some("py")
    } else if same_text(s, "java") {
        Some("java")
    } else if same_text(s, "cpp") {
        Some("cpp")
    } else if same_text(s, "c") {
        Some("c")
    } else if same_text(s, "go") {
        Some("go")
    } else if same_text(s, "rs") {
        Some("rs")
    } else if same_text(s, "html") {
        Some("html")
    } else if same_text(s, "css") {
        Some("css")
    } else {
        None
    }
}

/// Looks a lower-cased URL suffix up in the list of known extensions.
pub fn canonical_extension(lowered: &str) -> (ext: &'static str)
    ensures
        ext@ == extension_for(lowered@),
{
    if same_text(lowered, "jpeg") {
        return "jpg";
    }
    if let Some(ext) = image_extension(lowered) {
        return ext;
    }
    if let Some(ext) = video_extension(lowered) {
        return ext;
    }
    if let Some(ext) = audio_extension(lowered) {
        return ext;
    }
    if let Some(ext) = document_extension(lowered) {
        return ext;
    }
    if let Some(ext) = archive_extension(lowered) {
        return ext;
    }
    if let Some(ext) = code_extension(lowered) {
        return ext;
    }
    "bin"
}

/// Whatever the suffix, the stored extension is a known one or `bin`, and
/// storing it again changes nothing.
pub proof fn lemma_extension_for_is_canonical(lowered: Seq<char>)
    ensures
        is_known_extension(extension_for(lowered)) || extension_for(lowered)
            == generic_extension(),
        extension_for(extension_for(lowered)) == extension_for(lowered),
        1 <= extension_for(lowered).len() <= 4,
        !extension_for(lowered).contains('.'),
        !extension_for(lowered).contains('/'),
{
    reveal_known_extensions();
    let ext = extension_for(lowered);
    assert forall|i: int| 0 <= i < ext.len() implies ext[i] != '.' && ext[i] != '/' by {}
}

/// Spells out every literal the list of extensions is written with.
pub proof fn reveal_known_extensions()
    ensures
        "jpeg"@ == seq!['j', 'p', 'e', 'g'],
        "bin"@ == seq!['b', 'i', 'n'],
        "jpg"@ == seq!['j', 'p', 'g'],
        "png"@ == seq!['p', 'n', 'g'],
        "gif"@ == seq!['g', 'i', 'f'],
        "webp"@ == seq!['w', 'e', 'b', 'p'],
        "bmp"@ == seq!['b', 'm', 'p'],
        "svg"@ == seq!['s', 'v', 'g'],
        "ico"@ == seq!['i', 'c', 'o'],
        "mp4"@ == seq!['m', 'p', '4'],
        "avi"@ == seq!['a', 'v', 'i'],
        "mov"@ == seq!['m', 'o', 'v'],
        "mkv"@ == seq!['m', 'k', 'v'],
        "webm"@ == seq!['w', 'e', 'b', 'm'],
        "flv"@ == seq!['f', 'l', 'v'],
        "wmv"@ == seq!['w', 'm', 'v'],
        "m4v"@ == seq!['m', '4', 'v'],
        "mp3"@ == seq!['m', 'p', '3'],
        "wav"@ == seq!['w', 'a', 'v'],
        "ogg"@ == seq!['o', 'g', 'g'],
        "flac"@ == seq!['f', 'l', 'a', 'c'],
        "m4a"@ == seq!['m', '4', 'a'],
        "aac"@ == seq!['a', 'a', 'c'],
        "wma"@ == seq!['w', 'm', 'a'],
        "pdf"@ == seq!['p', 'd', 'f'],
        "txt"@ == seq!['t', 'x', 't'],
        "doc"@ == seq!['d', 'o', 'c'],
        "docx"@ == seq!['d', 'o', 'c', 'x'],
        "xls"@ == seq!['x', 'l', 's'],
        "xlsx"@ == seq!['x', 'l', 's', 'x'],
        "ppt"@ == seq!['p', 'p', 't'],
        "pptx"@ == seq!['p', 'p', 't', 'x'],
        "csv"@ == seq!['c', 's', 'v'],
        "json"@ == seq!['j', 's', 'o', 'n'],
        "xml"@ == seq!['x', 'm', 'l'],
        "zip"@ == seq!['z', 'i', 'p'],
        "rar"@ == seq!['r', 'a', 'r'],
        "7z"@ == seq!['7', 'z'],
        "tar"@ == seq!['t', 'a', 'r'],
        "gz"@ == seq!['g', 'z'],
        "js"@ == seq!['j', 's'],
        "ts"@ == seq!['t', 's'],
        "jsx"@ == seq!['j', 's', 'x'],
        "tsx"@ == seq!['t', 's', 'x'],
        "py"@ == seq!['p', 'y'],
        "java"@ == seq!['j', 'a', 'v', 'a'],
        "cpp"@ == seq!['c', 'p', 'p'],
        "c"@ == seq!['c'],
        "go"@ == seq!['g', 'o'],
        "rs"@ == seq!['r', 's'],
        "html"@ == seq!['h', 't', 'm', 'l'],
        "css"@ == seq!['c', 's', 's'],
{
    reveal_strlit("jpeg");
    reveal_strlit("bin");
    reveal_strlit("jpg");
    reveal_strlit("png");
    reveal_strlit("gif");
    reveal_strlit("webp");
    reveal_strlit("bmp");
    reveal_strlit("svg");
    reveal_strlit("ico");
    reveal_strlit("mp4");
    reveal_strlit("avi");
    reveal_strlit("mov");
    reveal_strlit("mkv");
    reveal_strlit("webm");
    reveal_strlit("flv");
    reveal_strlit("wmv");
    reveal_strlit("m4v");
    reveal_strlit("mp3");
    reveal_strlit("wav");
    reveal_strlit("ogg");
    reveal_strlit("flac");
    reveal_strlit("m4a");
    reveal_strlit("aac");
    reveal_strlit("wma");
    reveal_strlit("pdf");
    reveal_strlit("txt");
    reveal_strlit("doc");
    reveal_strlit("docx");
    reveal_strlit("xls");
    reveal_strlit("xlsx");
    reveal_strlit("ppt");
    reveal_strlit("pptx");
    reveal_strlit("csv");
    reveal_strlit("json");
    reveal_strlit("xml");
    reveal_strlit("zip");
    reveal_strlit("rar");
    reveal_strlit("7z");
    reveal_strlit("tar");
    reveal_strlit("gz");
    reveal_strlit("js");
    reveal_strlit("ts");
    reveal_strlit("jsx");
    reveal_strlit("tsx");
    reveal_strlit("py");
    reveal_strlit("java");
    reveal_strlit("cpp");
    reveal_strlit("c");
    reveal_strlit("go");
    reveal_strlit("rs");
    reveal_strlit("html");
    reveal_strlit("css");
    assert("jpeg"@ =~= seq!['j', 'p', 'e', 'g']);
    assert("bin"@ =~= seq!['b', 'i', 'n']);
    assert("jpg"@ =~= seq!['j', 'p', 'g']);
    assert("png"@ =~= seq!['p', 'n', 'g']);
    assert("gif"@ =~= seq!['g', 'i', 'f']);
    assert("webp"@ =~= seq!['w', 'e', 'b', 'p']);
    assert("bmp"@ =~= seq!['b', 'm', 'p']);
    assert("svg"@ =~= seq!['s', 'v', 'g']);
    assert("ico"@ =~= seq!['i', 'c', 'o']);
    assert("mp4"@ =~= seq!['m', 'p', '4']);
    assert("avi"@ =~= seq!['a', 'v', 'i']);
    assert("mov"@ =~= seq!['m', 'o', 'v']);
    assert("mkv"@ =~= seq!['m', 'k', 'v']);
    assert("webm"@ =~= seq!['w', 'e', 'b', 'm']);
    assert("flv"@ =~= seq!['f', 'l', 'v']);
    assert("wmv"@ =~= seq!['w', 'm', 'v']);
    assert("m4v"@ =~= seq!['m', '4', 'v']);
    assert("mp3"@ =~= seq!['m', 'p', '3']);
    assert("wav"@ =~= seq!['w', 'a', 'v']);
    assert("ogg"@ =~= seq!['o', 'g', 'g']);
    assert("flac"@ =~= seq!['f', 'l', 'a', 'c']);
    assert("m4a"@ =~= seq!['m', '4', 'a']);
    assert("aac"@ =~= seq!['a', 'a', 'c']);
    assert("wma"@ =~= seq!['w', 'm', 'a']);
    assert("pdf"@ =~= seq!['p', 'd', 'f']);
    assert("txt"@ =~= seq!['t', 'x', 't']);
    assert("doc"@ =~= seq!['d', 'o', 'c']);
    assert("docx"@ =~= seq!['d', 'o', 'c', 'x']);
    assert("xls"@ =~= seq!['x', 'l', 's']);
    assert("xlsx"@ =~= seq!['x', 'l', 's', 'x']);
    assert("ppt"@ =~= seq!['p', 'p', 't']);
    assert("pptx"@ =~= seq!['p', 'p', 't', 'x']);
    assert("csv"@ =~= seq!['c', 's', 'v']);
    assert("json"@ =~= seq!['j', 's', 'o', 'n']);
    assert("xml"@ =~= seq!['x', 'm', 'l']);
    assert("zip"@ =~= seq!['z', 'i', 'p']);
    assert("rar"@ =~= seq!['r', 'a', 'r']);
    assert("7z"@ =~= seq!['7', 'z']);
    assert("tar"@ =~= seq!['t', 'a', 'r']);
    assert("gz"@ =~= seq!['g', 'z']);
    assert("js"@ =~= seq!['j', 's']);
    assert("ts"@ =~= seq!['t', 's']);
    assert("jsx"@ =~= seq!['j', 's', 'x']);
    assert("tsx"@ =~= seq!['t', 's', 'x']);
    assert("py"@ =~= seq!['p', 'y']);
    assert("java"@ =~= seq!['j', 'a', 'v', 'a']);
    assert("cpp"@ =~= seq!['c', 'p', 'p']);
    assert("c"@ =~= seq!['c']);
    assert("go"@ =~= seq!['g', 'o']);
    assert("rs"@ =~= seq!['r', 's']);
    assert("html"@ =~= seq!['h', 't', 'm', 'l']);
    assert("css"@ =~= seq!['c', 's', 's']);
}

} // verus!
