//! What kind of file a link delivers, by its extension: descriptions for
//! hover hints, the File Type column, and which names are web pages.
use crate::i18n::{english, opt_str, translated, Catalogue, Texts};
use crate::text::{
    after_last, ascii_lower, ascii_upper, before_either, behind_last, cat3, chars_of, is_digit,
    lower, rsplit_once, same, split_last, up_to_either, upper,
};
use vstd::prelude::*;
use vstd::utf8::{encode_utf8, valid_utf8};

verus! {

/// English description for a known lower-case extension.
pub open spec fn description(ext: Seq<char>) -> Option<Seq<char>> {
    if ext == "zip"@ {
        Some("ZIP archive"@)
    } else if ext == "rar"@ {
        Some("RAR archive"@)
    } else if ext == "7z"@ {
        Some("7-Zip archive"@)
    } else if ext == "tar"@ {
        Some("tar archive"@)
    } else if ext == "gz"@ {
        Some("gzip-compressed file"@)
    } else if ext == "bz2"@ {
        Some("bzip2-compressed file"@)
    } else if ext == "xz"@ {
        Some("XZ-compressed file"@)
    } else if ext == "zst"@ {
        Some("Zstandard-compressed file"@)
    } else if ext == "tar.gz"@ || ext == "tgz"@ {
        Some("gzip-compressed tar archive"@)
    } else if ext == "tar.bz2"@ || ext == "tbz2"@ {
        Some("bzip2-compressed tar archive"@)
    } else if ext == "tar.xz"@ || ext == "txz"@ {
        Some("XZ-compressed tar archive"@)
    } else if ext == "tar.zst"@ {
        Some("Zstandard-compressed tar archive"@)
    } else if ext == "dmg"@ {
        Some("Apple Disk Image (macOS)"@)
    } else if ext == "pkg"@ {
        Some("Installer package (macOS)"@)
    } else if ext == "exe"@ {
        Some("Executable program (Windows)"@)
    } else if ext == "msi"@ {
        Some("Windows Installer package"@)
    } else if ext == "msix"@ {
        Some("Windows app package"@)
    } else if ext == "apk"@ {
        Some("Android app package"@)
    } else if ext == "ipa"@ {
        Some("iOS app package"@)
    } else if ext == "deb"@ {
        Some("Debian/Ubuntu software package"@)
    } else if ext == "rpm"@ {
        Some("RPM software package (Fedora/RHEL)"@)
    } else if ext == "appimage"@ {
        Some("Portable Linux application"@)
    } else if ext == "flatpak"@ {
        Some("Flatpak application bundle (Linux)"@)
    } else if ext == "snap"@ {
        Some("Snap application package (Linux)"@)
    } else if ext == "jar"@ {
        Some("Java application archive"@)
    } else if ext == "iso"@ {
        Some("Disc image"@)
    } else if ext == "img"@ {
        Some("Raw disk image"@)
    } else if ext == "bin"@ {
        Some("Binary file"@)
    } else if ext == "pdf"@ {
        Some("PDF document"@)
    } else if ext == "epub"@ {
        Some("EPUB e-book"@)
    } else if ext == "mobi"@ {
        Some("Kindle e-book"@)
    } else if ext == "doc"@ || ext == "docx"@ {
        Some("Word document"@)
    } else if ext == "xls"@ || ext == "xlsx"@ {
        Some("Excel spreadsheet"@)
    } else if ext == "ppt"@ || ext == "pptx"@ {
        Some("PowerPoint presentation"@)
    } else if ext == "odt"@ {
        Some("OpenDocument text"@)
    } else if ext == "ods"@ {
        Some("OpenDocument spreadsheet"@)
    } else if ext == "odp"@ {
        Some("OpenDocument presentation"@)
    } else if ext == "rtf"@ {
        Some("Rich Text document"@)
    } else if ext == "txt"@ {
        Some("Plain text file"@)
    } else if ext == "csv"@ {
        Some("Comma-separated values"@)
    } else if ext == "json"@ {
        Some("JSON data"@)
    } else if ext == "xml"@ {
        Some("XML data"@)
    } else if ext == "mp3"@ {
        Some("MP3 audio"@)
    } else if ext == "aac"@ || ext == "m4a"@ {
        Some("AAC audio"@)
    } else if ext == "flac"@ {
        Some("FLAC lossless audio"@)
    } else if ext == "ogg"@ || ext == "oga"@ {
        Some("Ogg audio"@)
    } else if ext == "opus"@ {
        Some("Opus audio"@)
    } else if ext == "wav"@ {
        Some("WAV audio"@)
    } else if ext == "wma"@ {
        Some("Windows Media audio"@)
    } else if ext == "mp4"@ || ext == "m4v"@ {
        Some("MPEG-4 video"@)
    } else if ext == "mkv"@ {
        Some("Matroska video"@)
    } else if ext == "webm"@ {
        Some("WebM video"@)
    } else if ext == "avi"@ {
        Some("AVI video"@)
    } else if ext == "mov"@ {
        Some("QuickTime video"@)
    } else if ext == "wmv"@ {
        Some("Windows Media video"@)
    } else if ext == "flv"@ {
        Some("Flash video"@)
    } else if ext == "mpg"@ || ext == "mpeg"@ {
        Some("MPEG video"@)
    } else if ext == "ts"@ {
        Some("MPEG transport stream"@)
    } else if ext == "3gp"@ {
        Some("3GPP mobile video"@)
    } else if ext == "jpg"@ || ext == "jpeg"@ {
        Some("JPEG image"@)
    } else if ext == "png"@ {
        Some("PNG image"@)
    } else if ext == "gif"@ {
        Some("GIF image"@)
    } else if ext == "webp"@ {
        Some("WebP image"@)
    } else if ext == "svg"@ {
        Some("SVG vector image"@)
    } else if ext == "bmp"@ {
        Some("Bitmap image"@)
    } else if ext == "tif"@ || ext == "tiff"@ {
        Some("TIFF image"@)
    } else if ext == "ico"@ {
        Some("Icon image"@)
    } else if ext == "heic"@ {
        Some("HEIC image"@)
    } else if ext == "psd"@ {
        Some("Photoshop document"@)
    } else if ext == "ttf"@ {
        Some("TrueType font"@)
    } else if ext == "otf"@ {
        Some("OpenType font"@)
    } else if ext == "woff"@ || ext == "woff2"@ {
        Some("Web font"@)
    } else if ext == "torrent"@ {
        Some("BitTorrent metadata file"@)
    } else if ext == "html"@ || ext == "htm"@ || ext == "xhtml"@ || ext == "shtml"@ {
        Some("HTML web page"@)
    } else if ext == "php"@ || ext == "asp"@ || ext == "aspx"@ || ext == "jsp"@ {
        Some("Server web page"@)
    } else if ext == "m3u8"@ {
        Some("HLS stream manifest"@)
    } else if ext == "mpd"@ {
        Some("DASH stream manifest"@)
    } else if ext == "meta4"@ || ext == "metalink"@ {
        Some("Metalink mirror list"@)
    } else {
        None
    }
}

/// English description for a known lower-case extension.
///
/// The table sticks to formats that actually travel through a download
/// manager; formats nobody downloads on their own are left out on purpose, so
/// unknown really means unknown.
pub fn describe(ext: &str) -> (r: Option<&'static str>)
    ensures
        opt_str(r) == description(ext@),
{
    if same(ext, "zip") {
        return Some("ZIP archive");
    }
    if same(ext, "rar") {
        return Some("RAR archive");
    }
    if same(ext, "7z") {
        return Some("7-Zip archive");
    }
    if same(ext, "tar") {
        return Some("tar archive");
    }
    if same(ext, "gz") {
        return Some("gzip-compressed file");
    }
    if same(ext, "bz2") {
        return Some("bzip2-compressed file");
    }
    if same(ext, "xz") {
        return Some("XZ-compressed file");
    }
    if same(ext, "zst") {
        return Some("Zstandard-compressed file");
    }
    if same(ext, "tar.gz") || same(ext, "tgz") {
        return Some("gzip-compressed tar archive");
    }
    if same(ext, "tar.bz2") || same(ext, "tbz2") {
        return Some("bzip2-compressed tar archive");
    }
    if same(ext, "tar.xz") || same(ext, "txz") {
        return Some("XZ-compressed tar archive");
    }
    if same(ext, "tar.zst") {
        return Some("Zstandard-compressed tar archive");
    }
    if same(ext, "dmg") {
        return Some("Apple Disk Image (macOS)");
    }
    if same(ext, "pkg") {
        return Some("Installer package (macOS)");
    }
    if same(ext, "exe") {
        return Some("Executable program (Windows)");
    }
    if same(ext, "msi") {
        return Some("Windows Installer package");
    }
    if same(ext, "msix") {
        return Some("Windows app package");
    }
    if same(ext, "apk") {
        return Some("Android app package");
    }
    if same(ext, "ipa") {
        return Some("iOS app package");
    }
    if same(ext, "deb") {
        return Some("Debian/Ubuntu software package");
    }
    if same(ext, "rpm") {
        return Some("RPM software package (Fedora/RHEL)");
    }
    if same(ext, "appimage") {
        return Some("Portable Linux application");
    }
    if same(ext, "flatpak") {
        return Some("Flatpak application bundle (Linux)");
    }
    if same(ext, "snap") {
        return Some("Snap application package (Linux)");
    }
    if same(ext, "jar") {
        return Some("Java application archive");
    }
    if same(ext, "iso") {
        return Some("Disc image");
    }
    if same(ext, "img") {
        return Some("Raw disk image");
    }
    if same(ext, "bin") {
        return Some("Binary file");
    }
    if same(ext, "pdf") {
        return Some("PDF document");
    }
    if same(ext, "epub") {
        return Some("EPUB e-book");
    }
    if same(ext, "mobi") {
        return Some("Kindle e-book");
    }
    if same(ext, "doc") || same(ext, "docx") {
        return Some("Word document");
    }
    if same(ext, "xls") || same(ext, "xlsx") {
        return Some("Excel spreadsheet");
    }
    if same(ext, "ppt") || same(ext, "pptx") {
        return Some("PowerPoint presentation");
    }
    if same(ext, "odt") {
        return Some("OpenDocument text");
    }
    if same(ext, "ods") {
        return Some("OpenDocument spreadsheet");
    }
    if same(ext, "odp") {
        return Some("OpenDocument presentation");
    }
    if same(ext, "rtf") {
        return Some("Rich Text document");
    }
    if same(ext, "txt") {
        return Some("Plain text file");
    }
    if same(ext, "csv") {
        return Some("Comma-separated values");
    }
    if same(ext, "json") {
        return Some("JSON data");
    }
    if same(ext, "xml") {
        return Some("XML data");
    }
    if same(ext, "mp3") {
        return Some("MP3 audio");
    }
    if same(ext, "aac") || same(ext, "m4a") {
        return Some("AAC audio");
    }
    if same(ext, "flac") {
        return Some("FLAC lossless audio");
    }
    if same(ext, "ogg") || same(ext, "oga") {
        return Some("Ogg audio");
    }
    if same(ext, "opus") {
        return Some("Opus audio");
    }
    if same(ext, "wav") {
        return Some("WAV audio");
    }
    if same(ext, "wma") {
        return Some("Windows Media audio");
    }
    if same(ext, "mp4") || same(ext, "m4v") {
        return Some("MPEG-4 video");
    }
    if same(ext, "mkv") {
        return Some("Matroska video");
    }
    if same(ext, "webm") {
        return Some("WebM video");
    }
    if same(ext, "avi") {
        return Some("AVI video");
    }
    if same(ext, "mov") {
        return Some("QuickTime video");
    }
    if same(ext, "wmv") {
        return Some("Windows Media video");
    }
    if same(ext, "flv") {
        return Some("Flash video");
    }
    if same(ext, "mpg") || same(ext, "mpeg") {
        return Some("MPEG video");
    }
    if same(ext, "ts") {
        return Some("MPEG transport stream");
    }
    if same(ext, "3gp") {
        return Some("3GPP mobile video");
    }
    if same(ext, "jpg") || same(ext, "jpeg") {
        return Some("JPEG image");
    }
    if same(ext, "png") {
        return Some("PNG image");
    }
    if same(ext, "gif") {
        return Some("GIF image");
    }
    if same(ext, "webp") {
        return Some("WebP image");
    }
    if same(ext, "svg") {
        return Some("SVG vector image");
    }
    if same(ext, "bmp") {
        return Some("Bitmap image");
    }
    if same(ext, "tif") || same(ext, "tiff") {
        return Some("TIFF image");
    }
    if same(ext, "ico") {
        return Some("Icon image");
    }
    if same(ext, "heic") {
        return Some("HEIC image");
    }
    if same(ext, "psd") {
        return Some("Photoshop document");
    }
    if same(ext, "ttf") {
        return Some("TrueType font");
    }
    if same(ext, "otf") {
        return Some("OpenType font");
    }
    if same(ext, "woff") || same(ext, "woff2") {
        return Some("Web font");
    }
    if same(ext, "torrent") {
        return Some("BitTorrent metadata file");
    }
    if same(ext, "html") || same(ext, "htm") || same(ext, "xhtml") || same(ext, "shtml") {
        return Some("HTML web page");
    }
    if same(ext, "php") || same(ext, "asp") || same(ext, "aspx") || same(ext, "jsp") {
        return Some("Server web page");
    }
    if same(ext, "m3u8") {
        return Some("HLS stream manifest");
    }
    if same(ext, "mpd") {
        return Some("DASH stream manifest");
    }
    if same(ext, "meta4") || same(ext, "metalink") {
        return Some("Metalink mirror list");
    }
    None
}

// ---------------------------------------------------------- percent escapes

pub open spec fn is_hex(b: u8) -> bool {
    (0x30 <= b && b <= 0x39) || (0x41 <= b && b <= 0x46) || (0x61 <= b && b <= 0x66)
}

/// The value of a hexadecimal digit.
pub open spec fn hex_value(b: u8) -> int {
    if b <= 0x39 {
        b - 0x30
    } else if b <= 0x46 {
        b - 0x41 + 10
    } else {
        b - 0x61 + 10
    }
}

/// Whether `b` begins with a percent escape.
pub open spec fn escape_at_front(b: Seq<u8>) -> bool {
    b.len() >= 3 && b[0] == 0x25 && is_hex(b[1]) && is_hex(b[2])
}

/// `b` with each percent escape replaced by the byte it stands for; what is
/// no escape stays as it is.
pub open spec fn unescaped(b: Seq<u8>) -> Seq<u8>
    decreases b.len(),
{
    if b.len() == 0 {
        seq![]
    } else if escape_at_front(b) {
        seq![(16 * hex_value(b[1]) + hex_value(b[2])) as u8] + unescaped(b.skip(3))
    } else {
        seq![b[0]] + unescaped(b.skip(1))
    }
}

fn hex_digit(b: u8) -> (r: Option<u8>)
    ensures
        r is Some <==> is_hex(b),
        r is Some ==> r->0 == hex_value(b) && r->0 < 16,
{
    if 0x30 <= b && b <= 0x39 {
        Some(b - 0x30)
    } else if 0x41 <= b && b <= 0x46 {
        Some(b - 0x41 + 10)
    } else if 0x61 <= b && b <= 0x66 {
        Some(b - 0x61 + 10)
    } else {
        None
    }
}

fn unescape(b: &[u8]) -> (r: Vec<u8>)
    ensures
        r@ == unescaped(b@),
{
    let mut out: Vec<u8> = Vec::new();
    let mut i: usize = 0;
    assert(b@.skip(0) =~= b@);
    while i < b.len()
        invariant
            i <= b@.len(),
            out@ + unescaped(b@.skip(i as int)) == unescaped(b@),
        decreases b.len() - i,
    {
        let ghost rest = b@.skip(i as int);
        let ghost before = out@;
        let mut step: usize = 1;
        let mut byte: u8 = b[i];
        if b[i] == 0x25 && b.len() - i >= 3 {
            match (hex_digit(b[i + 1]), hex_digit(b[i + 2])) {
                (Some(h), Some(l)) => {
                    byte = 16 * h + l;
                    step = 3;
                },
                _ => {},
            }
        }
        assert(escape_at_front(rest) <==> step == 3);
        out.push(byte);
        proof {
            assert(rest.skip(step as int) =~= b@.skip(i + step));
            assert(unescaped(rest) == seq![byte] + unescaped(rest.skip(step as int)));
            assert(before + (seq![byte] + unescaped(rest.skip(step as int))) =~= out@ + unescaped(
                rest.skip(step as int),
            ));
        }
        i += step;
    }
    assert(b@.skip(i as int) =~= seq![]);
    assert(out@ + unescaped(seq![]) =~= out@);
    out
}

/// The text that `String::from_utf8_lossy` makes of bytes.
pub uninterp spec fn utf8_lossy(b: Seq<u8>) -> Seq<char>;

/// `String::from_utf8_lossy`: valid UTF-8 comes out as the text it encodes;
/// of other bytes nothing is said but that they determine the result.
#[verifier::external_body]
pub(crate) fn from_utf8_lossy(b: &[u8]) -> (r: String)
    ensures
        r@ == utf8_lossy(b@),
        valid_utf8(b@) ==> encode_utf8(r@) == b@,
{
    String::from_utf8_lossy(b).into_owned()
}

/// `s` with its percent escapes decoded.
pub open spec fn decoded(s: Seq<char>) -> Seq<char> {
    utf8_lossy(unescaped(encode_utf8(s)))
}

/// `%20` becomes a space, and so on. Invalid escapes pass through unchanged.
pub fn percent_decode(s: &str) -> (r: String)
    ensures
        r@ == decoded(s@),
{
    let out = unescape(s.as_bytes());
    from_utf8_lossy(&out)
}

// --------------------------------------------------------------- extensions

pub open spec fn is_alphanumeric(c: char) -> bool {
    ('0' <= c && c <= '9') || ('a' <= c && c <= 'z') || ('A' <= c && c <= 'Z')
}

pub open spec fn all_alphanumeric(s: Seq<char>) -> bool {
    forall|i: int| 0 <= i < s.len() ==> is_alphanumeric(#[trigger] s[i])
}

fn alphanumeric(s: &Vec<char>) -> (r: bool)
    ensures
        r == all_alphanumeric(s@),
{
    let mut i: usize = 0;
    while i < s.len()
        invariant
            i <= s@.len(),
            forall|k: int| 0 <= k < i ==> is_alphanumeric(#[trigger] s@[k]),
        decreases s.len() - i,
    {
        let c = s[i];
        if !(('0' <= c && c <= '9') || ('a' <= c && c <= 'z') || ('A' <= c && c <= 'Z')) {
            assert(!is_alphanumeric(s@[i as int]));
            return false;
        }
        i += 1;
    }
    true
}

/// The last segment of a link's path, still with its escapes.
pub open spec fn last_segment(url: Seq<char>) -> Seq<char> {
    behind_last(up_to_either(url, '?', '#'), '/')
}

/// The extension of a decoded file name in lower case: the compound spelling
/// where it is a known one, else what stands behind the last dot, if that is
/// one to eight letters and digits.
pub open spec fn name_ext(name: Seq<char>) -> Option<Seq<char>> {
    match split_last(name, '.') {
        None => None,
        Some((stem, tail)) => if tail.len() == 0 || tail.len() > 8 || !all_alphanumeric(tail) {
            None
        } else {
            match split_last(stem, '.') {
                Some((_, mid)) if description(mid + "."@ + tail) is Some => Some(mid + "."@ + tail),
                _ => Some(tail),
            }
        },
    }
}

/// The extension of the file that a link points at.
pub open spec fn link_ext(url: Seq<char>) -> Option<Seq<char>> {
    name_ext(lower(decoded(last_segment(url))))
}

pub open spec fn opt_text(s: Option<String>) -> Option<Seq<char>> {
    match s {
        Some(s) => Some(s@),
        None => None,
    }
}

/// The extension of a file name that is decoded and in lower case.
pub fn ext_of_name(seg: &str) -> (r: Option<String>)
    ensures
        opt_text(r) == name_ext(seg@),
{
    match rsplit_once(seg, '.') {
        None => None,
        Some((stem, tail)) => {
            let t = chars_of(&tail);
            if t.len() == 0 || t.len() > 8 || !alphanumeric(&t) {
                return None;
            }
            match rsplit_once(&stem, '.') {
                Some((_, mid)) => {
                    let compound = cat3(&mid, ".", &tail);
                    if describe(&compound).is_some() {
                        Some(compound)
                    } else {
                        Some(tail)
                    }
                },
                None => Some(tail),
            }
        },
    }
}

/// Lower-case extension of the file a link points at, compound spellings
/// (`tar.gz`) preferred over the bare last part (`gz`). Query string and
/// fragment are ignored; escapes are decoded.
pub fn url_ext(url: &str) -> (r: Option<String>)
    ensures
        opt_text(r) == link_ext(url@),
{
    let path = before_either(url, '?', '#');
    let seg = after_last(&path, '/');
    let name = ascii_lower(&percent_decode(&seg));
    ext_of_name(&name)
}

/// The hover hint for a link with the given extension.
pub open spec fn hint(ext: Option<Seq<char>>, t: Texts) -> Option<Seq<char>> {
    match ext {
        Some(e) => match description(e) {
            Some(d) => Some(upper(e) + " — "@ + translated(t, d)),
            None => None,
        },
        None => None,
    }
}

/// The hover hint for a link with the given extension.
pub fn hint_for_ext(ext: Option<String>, lang: &Catalogue) -> (r: Option<String>)
    ensures
        opt_text(r) == hint(opt_text(ext), lang@),
{
    match ext {
        Some(e) => match describe(&e) {
            Some(d) => Some(cat3(&ascii_upper(&e), " — ", &lang.tr(d))),
            None => None,
        },
        None => None,
    }
}

/// `DMG — Apple Disk Image (macOS)` when the link's extension is known; none
/// otherwise, since no hint beats a useless one.
pub fn hint_for_url(url: &str, lang: &Catalogue) -> (r: Option<String>)
    ensures
        opt_text(r) == hint(link_ext(url@), lang@),
{
    hint_for_ext(url_ext(url), lang)
}

pub open spec fn all_digits(s: Seq<char>) -> bool {
    forall|i: int| 0 <= i < s.len() ==> is_digit(#[trigger] s[i])
}

/// The File Type column for a file with the given extension.
pub open spec fn kind(ext: Option<Seq<char>>, t: Texts) -> Seq<char> {
    match ext {
        Some(e) if !all_digits(e) => match description(e) {
            Some(d) => translated(t, d),
            None => upper(e) + " "@ + translated(t, "file"@),
        },
        _ => translated(t, "File"@),
    }
}

/// The File Type column for a file with the given extension.
pub fn kind_for_ext(ext: Option<String>, lang: &Catalogue) -> (r: String)
    ensures
        r@ == kind(opt_text(ext), lang@),
{
    match ext {
        Some(e) => {
            let c = chars_of(&e);
            let mut digits = true;
            let mut i: usize = 0;
            while i < c.len()
                invariant
                    i <= c@.len(),
                    digits == (forall|k: int| 0 <= k < i ==> is_digit(#[trigger] c@[k])),
                decreases c.len() - i,
            {
                if c[i] < '0' || c[i] > '9' {
                    assert(!is_digit(c@[i as int]));
                    digits = false;
                }
                i += 1;
            }
            if digits {
                return lang.tr("File");
            }
            match describe(&e) {
                Some(d) => lang.tr(d),
                None => cat3(&ascii_upper(&e), " ", &lang.tr("file")),
            }
        },
        None => lang.tr("File"),
    }
}

/// `ZIP archive` for a known extension, `XYZ file` for an unknown one, plain
/// `File` when the name has none. A version-looking tail (`tool-v1.2.3`)
/// counts as no extension.
pub fn kind_for_name(name: &str, lang: &Catalogue) -> (r: String)
    ensures
        r@ == kind(link_ext(name@), lang@),
{
    kind_for_ext(url_ext(name), lang)
}

/// The extensions of web pages.
pub open spec fn page_ext(e: Seq<char>) -> bool {
    ||| e == "html"@
    ||| e == "htm"@
    ||| e == "xhtml"@
    ||| e == "shtml"@
    ||| e == "php"@
    ||| e == "asp"@
    ||| e == "aspx"@
    ||| e == "jsp"@
}

/// Whether the extension is that of a web page.
pub fn is_page_ext(ext: &Option<String>) -> (r: bool)
    ensures
        r == (match opt_text(*ext) {
            Some(e) => page_ext(e),
            None => false,
        }),
{
    match ext {
        Some(e) => same(e, "html") || same(e, "htm") || same(e, "xhtml") || same(e, "shtml")
            || same(e, "php") || same(e, "asp") || same(e, "aspx") || same(e, "jsp"),
        None => false,
    }
}

pub open spec fn web_page(name: Seq<char>) -> bool {
    match link_ext(name) {
        Some(e) => page_ext(e),
        None => false,
    }
}

/// Whether a name is a web page rather than a file worth downloading.
pub fn is_web_page(name: &str) -> (r: bool)
    ensures
        r == web_page(name@),
{
    is_page_ext(&url_ext(name))
}

// ---------------------------------------------------------------------- laws

/// Text without a percent sign decodes to itself, byte for byte.
pub proof fn text_without_escapes_is_unchanged(b: Seq<u8>)
    requires
        forall|i: int| 0 <= i < b.len() ==> #[trigger] b[i] != 0x25,
    ensures
        unescaped(b) == b,
    decreases b.len(),
{
    if b.len() > 0 {
        let t = b.skip(1);
        assert forall|i: int| 0 <= i < t.len() implies #[trigger] t[i] != 0x25 by {
            assert(t[i] == b[i + 1]);
        }
        text_without_escapes_is_unchanged(t);
        assert(b =~= seq![b[0]] + t);
    }
}

/// Decoding never lengthens a text, counted in bytes.
pub proof fn decoding_never_lengthens(b: Seq<u8>)
    ensures
        unescaped(b).len() <= b.len(),
    decreases b.len(),
{
    if b.len() > 0 {
        if escape_at_front(b) {
            decoding_never_lengthens(b.skip(3));
        } else {
            decoding_never_lengthens(b.skip(1));
        }
    }
}

/// The two kinds of web page.
pub open spec fn page_words(s: Seq<char>) -> bool {
    s == "HTML web page"@ || s == "Server web page"@
}

/// The length of a text and its first characters.
spec fn front(s: Seq<char>) -> (int, char, char) {
    (s.len() as int, s[0], s[1])
}

proof fn lemma_pages_are_described(e: Seq<char>)
    requires
        page_ext(e),
    ensures
        description(e) matches Some(d) && page_words(d),
        !all_digits(e),
{
    reveal_strlit("zip");
    reveal_strlit("rar");
    reveal_strlit("7z");
    reveal_strlit("tar");
    reveal_strlit("gz");
    reveal_strlit("bz2");
    reveal_strlit("xz");
    reveal_strlit("zst");
    reveal_strlit("tar.gz");
    reveal_strlit("tgz");
    reveal_strlit("tar.bz2");
    reveal_strlit("tbz2");
    reveal_strlit("tar.xz");
    reveal_strlit("txz");
    reveal_strlit("tar.zst");
    reveal_strlit("dmg");
    reveal_strlit("pkg");
    reveal_strlit("exe");
    reveal_strlit("msi");
    reveal_strlit("msix");
    reveal_strlit("apk");
    reveal_strlit("ipa");
    reveal_strlit("deb");
    reveal_strlit("rpm");
    reveal_strlit("appimage");
    reveal_strlit("flatpak");
    reveal_strlit("snap");
    reveal_strlit("jar");
    reveal_strlit("iso");
    reveal_strlit("img");
    reveal_strlit("bin");
    reveal_strlit("pdf");
    reveal_strlit("epub");
    reveal_strlit("mobi");
    reveal_strlit("doc");
    reveal_strlit("docx");
    reveal_strlit("xls");
    reveal_strlit("xlsx");
    reveal_strlit("ppt");
    reveal_strlit("pptx");
    reveal_strlit("odt");
    reveal_strlit("ods");
    reveal_strlit("odp");
    reveal_strlit("rtf");
    reveal_strlit("txt");
    reveal_strlit("csv");
    reveal_strlit("json");
    reveal_strlit("xml");
    reveal_strlit("mp3");
    reveal_strlit("aac");
    reveal_strlit("m4a");
    reveal_strlit("flac");
    reveal_strlit("ogg");
    reveal_strlit("oga");
    reveal_strlit("opus");
    reveal_strlit("wav");
    reveal_strlit("wma");
    reveal_strlit("mp4");
    reveal_strlit("m4v");
    reveal_strlit("mkv");
    reveal_strlit("webm");
    reveal_strlit("avi");
    reveal_strlit("mov");
    reveal_strlit("wmv");
    reveal_strlit("flv");
    reveal_strlit("mpg");
    reveal_strlit("mpeg");
    reveal_strlit("ts");
    reveal_strlit("3gp");
    reveal_strlit("jpg");
    reveal_strlit("jpeg");
    reveal_strlit("png");
    reveal_strlit("gif");
    reveal_strlit("webp");
    reveal_strlit("svg");
    reveal_strlit("bmp");
    reveal_strlit("tif");
    reveal_strlit("tiff");
    reveal_strlit("ico");
    reveal_strlit("heic");
    reveal_strlit("psd");
    reveal_strlit("ttf");
    reveal_strlit("otf");
    reveal_strlit("woff");
    reveal_strlit("woff2");
    reveal_strlit("torrent");
    reveal_strlit("html");
    reveal_strlit("htm");
    reveal_strlit("xhtml");
    reveal_strlit("shtml");
    reveal_strlit("php");
    reveal_strlit("asp");
    reveal_strlit("aspx");
    reveal_strlit("jsp");
    reveal_strlit("m3u8");
    reveal_strlit("mpd");
    reveal_strlit("meta4");
    reveal_strlit("metalink");
    assert(front(e) == (e.len() as int, e[0], e[1]));
    assert(front("zip"@) == (3int, 'z', 'i'));
    assert(front("rar"@) == (3int, 'r', 'a'));
    assert(front("7z"@) == (2int, '7', 'z'));
    assert(front("tar"@) == (3int, 't', 'a'));
    assert(front("gz"@) == (2int, 'g', 'z'));
    assert(front("bz2"@) == (3int, 'b', 'z'));
    assert(front("xz"@) == (2int, 'x', 'z'));
    assert(front("zst"@) == (3int, 'z', 's'));
    assert(front("tar.gz"@) == (6int, 't', 'a'));
    assert(front("tgz"@) == (3int, 't', 'g'));
    assert(front("tar.bz2"@) == (7int, 't', 'a'));
    assert(front("tbz2"@) == (4int, 't', 'b'));
    assert(front("tar.xz"@) == (6int, 't', 'a'));
    assert(front("txz"@) == (3int, 't', 'x'));
    assert(front("tar.zst"@) == (7int, 't', 'a'));
    assert(front("dmg"@) == (3int, 'd', 'm'));
    assert(front("pkg"@) == (3int, 'p', 'k'));
    assert(front("exe"@) == (3int, 'e', 'x'));
    assert(front("msi"@) == (3int, 'm', 's'));
    assert(front("msix"@) == (4int, 'm', 's'));
    assert(front("apk"@) == (3int, 'a', 'p'));
    assert(front("ipa"@) == (3int, 'i', 'p'));
    assert(front("deb"@) == (3int, 'd', 'e'));
    assert(front("rpm"@) == (3int, 'r', 'p'));
    assert(front("appimage"@) == (8int, 'a', 'p'));
    assert(front("flatpak"@) == (7int, 'f', 'l'));
    assert(front("snap"@) == (4int, 's', 'n'));
    assert(front("jar"@) == (3int, 'j', 'a'));
    assert(front("iso"@) == (3int, 'i', 's'));
    assert(front("img"@) == (3int, 'i', 'm'));
    assert(front("bin"@) == (3int, 'b', 'i'));
    assert(front("pdf"@) == (3int, 'p', 'd'));
    assert(front("epub"@) == (4int, 'e', 'p'));
    assert(front("mobi"@) == (4int, 'm', 'o'));
    assert(front("doc"@) == (3int, 'd', 'o'));
    assert(front("docx"@) == (4int, 'd', 'o'));
    assert(front("xls"@) == (3int, 'x', 'l'));
    assert(front("xlsx"@) == (4int, 'x', 'l'));
    assert(front("ppt"@) == (3int, 'p', 'p'));
    assert(front("pptx"@) == (4int, 'p', 'p'));
    assert(front("odt"@) == (3int, 'o', 'd'));
    assert(front("ods"@) == (3int, 'o', 'd'));
    assert(front("odp"@) == (3int, 'o', 'd'));
    assert(front("rtf"@) == (3int, 'r', 't'));
    assert(front("txt"@) == (3int, 't', 'x'));
    assert(front("csv"@) == (3int, 'c', 's'));
    assert(front("json"@) == (4int, 'j', 's'));
    assert(front("xml"@) == (3int, 'x', 'm'));
    assert(front("mp3"@) == (3int, 'm', 'p'));
    assert(front("aac"@) == (3int, 'a', 'a'));
    assert(front("m4a"@) == (3int, 'm', '4'));
    assert(front("flac"@) == (4int, 'f', 'l'));
    assert(front("ogg"@) == (3int, 'o', 'g'));
    assert(front("oga"@) == (3int, 'o', 'g'));
    assert(front("opus"@) == (4int, 'o', 'p'));
    assert(front("wav"@) == (3int, 'w', 'a'));
    assert(front("wma"@) == (3int, 'w', 'm'));
    assert(front("mp4"@) == (3int, 'm', 'p'));
    assert(front("m4v"@) == (3int, 'm', '4'));
    assert(front("mkv"@) == (3int, 'm', 'k'));
    assert(front("webm"@) == (4int, 'w', 'e'));
    assert(front("avi"@) == (3int, 'a', 'v'));
    assert(front("mov"@) == (3int, 'm', 'o'));
    assert(front("wmv"@) == (3int, 'w', 'm'));
    assert(front("flv"@) == (3int, 'f', 'l'));
    assert(front("mpg"@) == (3int, 'm', 'p'));
    assert(front("mpeg"@) == (4int, 'm', 'p'));
    assert(front("ts"@) == (2int, 't', 's'));
    assert(front("3gp"@) == (3int, '3', 'g'));
    assert(front("jpg"@) == (3int, 'j', 'p'));
    assert(front("jpeg"@) == (4int, 'j', 'p'));
    assert(front("png"@) == (3int, 'p', 'n'));
    assert(front("gif"@) == (3int, 'g', 'i'));
    assert(front("webp"@) == (4int, 'w', 'e'));
    assert(front("svg"@) == (3int, 's', 'v'));
    assert(front("bmp"@) == (3int, 'b', 'm'));
    assert(front("tif"@) == (3int, 't', 'i'));
    assert(front("tiff"@) == (4int, 't', 'i'));
    assert(front("ico"@) == (3int, 'i', 'c'));
    assert(front("heic"@) == (4int, 'h', 'e'));
    assert(front("psd"@) == (3int, 'p', 's'));
    assert(front("ttf"@) == (3int, 't', 't'));
    assert(front("otf"@) == (3int, 'o', 't'));
    assert(front("woff"@) == (4int, 'w', 'o'));
    assert(front("woff2"@) == (5int, 'w', 'o'));
    assert(front("torrent"@) == (7int, 't', 'o'));
    assert(front("html"@) == (4int, 'h', 't'));
    assert(front("htm"@) == (3int, 'h', 't'));
    assert(front("xhtml"@) == (5int, 'x', 'h'));
    assert(front("shtml"@) == (5int, 's', 'h'));
    assert(front("php"@) == (3int, 'p', 'h'));
    assert(front("asp"@) == (3int, 'a', 's'));
    assert(front("aspx"@) == (4int, 'a', 's'));
    assert(front("jsp"@) == (3int, 'j', 's'));
    assert(front("m3u8"@) == (4int, 'm', '3'));
    assert(front("mpd"@) == (3int, 'm', 'p'));
    assert(front("meta4"@) == (5int, 'm', 'e'));
    assert(front("metalink"@) == (8int, 'm', 'e'));
    assert(!is_digit(e[0]));
}

proof fn lemma_others_are_no_pages(e: Seq<char>)
    requires
        !page_ext(e),
    ensures
        description(e) matches Some(d) ==> !page_words(d),
{
    reveal_strlit("HTML web page");
    reveal_strlit("Server web page");
    reveal_strlit("ZIP archive");
    reveal_strlit("RAR archive");
    reveal_strlit("7-Zip archive");
    reveal_strlit("tar archive");
    reveal_strlit("gzip-compressed file");
    reveal_strlit("bzip2-compressed file");
    reveal_strlit("XZ-compressed file");
    reveal_strlit("Zstandard-compressed file");
    reveal_strlit("gzip-compressed tar archive");
    reveal_strlit("bzip2-compressed tar archive");
    reveal_strlit("XZ-compressed tar archive");
    reveal_strlit("Zstandard-compressed tar archive");
    reveal_strlit("Apple Disk Image (macOS)");
    reveal_strlit("Installer package (macOS)");
    reveal_strlit("Executable program (Windows)");
    reveal_strlit("Windows Installer package");
    reveal_strlit("Windows app package");
    reveal_strlit("Android app package");
    reveal_strlit("iOS app package");
    reveal_strlit("Debian/Ubuntu software package");
    reveal_strlit("RPM software package (Fedora/RHEL)");
    reveal_strlit("Portable Linux application");
    reveal_strlit("Flatpak application bundle (Linux)");
    reveal_strlit("Snap application package (Linux)");
    reveal_strlit("Java application archive");
    reveal_strlit("Disc image");
    reveal_strlit("Raw disk image");
    reveal_strlit("Binary file");
    reveal_strlit("PDF document");
    reveal_strlit("EPUB e-book");
    reveal_strlit("Kindle e-book");
    reveal_strlit("Word document");
    reveal_strlit("Excel spreadsheet");
    reveal_strlit("PowerPoint presentation");
    reveal_strlit("OpenDocument text");
    reveal_strlit("OpenDocument spreadsheet");
    reveal_strlit("OpenDocument presentation");
    reveal_strlit("Rich Text document");
    reveal_strlit("Plain text file");
    reveal_strlit("Comma-separated values");
    reveal_strlit("JSON data");
    reveal_strlit("XML data");
    reveal_strlit("MP3 audio");
    reveal_strlit("AAC audio");
    reveal_strlit("FLAC lossless audio");
    reveal_strlit("Ogg audio");
    reveal_strlit("Opus audio");
    reveal_strlit("WAV audio");
    reveal_strlit("Windows Media audio");
    reveal_strlit("MPEG-4 video");
    reveal_strlit("Matroska video");
    reveal_strlit("WebM video");
    reveal_strlit("AVI video");
    reveal_strlit("QuickTime video");
    reveal_strlit("Windows Media video");
    reveal_strlit("Flash video");
    reveal_strlit("MPEG video");
    reveal_strlit("MPEG transport stream");
    reveal_strlit("3GPP mobile video");
    reveal_strlit("JPEG image");
    reveal_strlit("PNG image");
    reveal_strlit("GIF image");
    reveal_strlit("WebP image");
    reveal_strlit("SVG vector image");
    reveal_strlit("Bitmap image");
    reveal_strlit("TIFF image");
    reveal_strlit("Icon image");
    reveal_strlit("HEIC image");
    reveal_strlit("Photoshop document");
    reveal_strlit("TrueType font");
    reveal_strlit("OpenType font");
    reveal_strlit("Web font");
    reveal_strlit("BitTorrent metadata file");
    reveal_strlit("HLS stream manifest");
    reveal_strlit("DASH stream manifest");
    reveal_strlit("Metalink mirror list");
    assert(front("HTML web page"@) == (13int, 'H', 'T'));
    assert(front("Server web page"@) == (15int, 'S', 'e'));
    assert(front("ZIP archive"@) == (11int, 'Z', 'I'));
    assert(front("RAR archive"@) == (11int, 'R', 'A'));
    assert(front("7-Zip archive"@) == (13int, '7', '-'));
    assert(front("tar archive"@) == (11int, 't', 'a'));
    assert(front("gzip-compressed file"@) == (20int, 'g', 'z'));
    assert(front("bzip2-compressed file"@) == (21int, 'b', 'z'));
    assert(front("XZ-compressed file"@) == (18int, 'X', 'Z'));
    assert(front("Zstandard-compressed file"@) == (25int, 'Z', 's'));
    assert(front("gzip-compressed tar archive"@) == (27int, 'g', 'z'));
    assert(front("bzip2-compressed tar archive"@) == (28int, 'b', 'z'));
    assert(front("XZ-compressed tar archive"@) == (25int, 'X', 'Z'));
    assert(front("Zstandard-compressed tar archive"@) == (32int, 'Z', 's'));
    assert(front("Apple Disk Image (macOS)"@) == (24int, 'A', 'p'));
    assert(front("Installer package (macOS)"@) == (25int, 'I', 'n'));
    assert(front("Executable program (Windows)"@) == (28int, 'E', 'x'));
    assert(front("Windows Installer package"@) == (25int, 'W', 'i'));
    assert(front("Windows app package"@) == (19int, 'W', 'i'));
    assert(front("Android app package"@) == (19int, 'A', 'n'));
    assert(front("iOS app package"@) == (15int, 'i', 'O'));
    assert(front("Debian/Ubuntu software package"@) == (30int, 'D', 'e'));
    assert(front("RPM software package (Fedora/RHEL)"@) == (34int, 'R', 'P'));
    assert(front("Portable Linux application"@) == (26int, 'P', 'o'));
    assert(front("Flatpak application bundle (Linux)"@) == (34int, 'F', 'l'));
    assert(front("Snap application package (Linux)"@) == (32int, 'S', 'n'));
    assert(front("Java application archive"@) == (24int, 'J', 'a'));
    assert(front("Disc image"@) == (10int, 'D', 'i'));
    assert(front("Raw disk image"@) == (14int, 'R', 'a'));
    assert(front("Binary file"@) == (11int, 'B', 'i'));
    assert(front("PDF document"@) == (12int, 'P', 'D'));
    assert(front("EPUB e-book"@) == (11int, 'E', 'P'));
    assert(front("Kindle e-book"@) == (13int, 'K', 'i'));
    assert(front("Word document"@) == (13int, 'W', 'o'));
    assert(front("Excel spreadsheet"@) == (17int, 'E', 'x'));
    assert(front("PowerPoint presentation"@) == (23int, 'P', 'o'));
    assert(front("OpenDocument text"@) == (17int, 'O', 'p'));
    assert(front("OpenDocument spreadsheet"@) == (24int, 'O', 'p'));
    assert(front("OpenDocument presentation"@) == (25int, 'O', 'p'));
    assert(front("Rich Text document"@) == (18int, 'R', 'i'));
    assert(front("Plain text file"@) == (15int, 'P', 'l'));
    assert(front("Comma-separated values"@) == (22int, 'C', 'o'));
    assert(front("JSON data"@) == (9int, 'J', 'S'));
    assert(front("XML data"@) == (8int, 'X', 'M'));
    assert(front("MP3 audio"@) == (9int, 'M', 'P'));
    assert(front("AAC audio"@) == (9int, 'A', 'A'));
    assert(front("FLAC lossless audio"@) == (19int, 'F', 'L'));
    assert(front("Ogg audio"@) == (9int, 'O', 'g'));
    assert(front("Opus audio"@) == (10int, 'O', 'p'));
    assert(front("WAV audio"@) == (9int, 'W', 'A'));
    assert(front("Windows Media audio"@) == (19int, 'W', 'i'));
    assert(front("MPEG-4 video"@) == (12int, 'M', 'P'));
    assert(front("Matroska video"@) == (14int, 'M', 'a'));
    assert(front("WebM video"@) == (10int, 'W', 'e'));
    assert(front("AVI video"@) == (9int, 'A', 'V'));
    assert(front("QuickTime video"@) == (15int, 'Q', 'u'));
    assert(front("Windows Media video"@) == (19int, 'W', 'i'));
    assert(front("Flash video"@) == (11int, 'F', 'l'));
    assert(front("MPEG video"@) == (10int, 'M', 'P'));
    assert(front("MPEG transport stream"@) == (21int, 'M', 'P'));
    assert(front("3GPP mobile video"@) == (17int, '3', 'G'));
    assert(front("JPEG image"@) == (10int, 'J', 'P'));
    assert(front("PNG image"@) == (9int, 'P', 'N'));
    assert(front("GIF image"@) == (9int, 'G', 'I'));
    assert(front("WebP image"@) == (10int, 'W', 'e'));
    assert(front("SVG vector image"@) == (16int, 'S', 'V'));
    assert(front("Bitmap image"@) == (12int, 'B', 'i'));
    assert(front("TIFF image"@) == (10int, 'T', 'I'));
    assert(front("Icon image"@) == (10int, 'I', 'c'));
    assert(front("HEIC image"@) == (10int, 'H', 'E'));
    assert(front("Photoshop document"@) == (18int, 'P', 'h'));
    assert(front("TrueType font"@) == (13int, 'T', 'r'));
    assert(front("OpenType font"@) == (13int, 'O', 'p'));
    assert(front("Web font"@) == (8int, 'W', 'e'));
    assert(front("BitTorrent metadata file"@) == (24int, 'B', 'i'));
    assert(front("HLS stream manifest"@) == (19int, 'H', 'L'));
    assert(front("DASH stream manifest"@) == (20int, 'D', 'A'));
    assert(front("Metalink mirror list"@) == (20int, 'M', 'e'));
}

/// In English, a name is a web page exactly where its File Type says so: the
/// filter for pages hides no other rows.
pub proof fn pages_are_named_as_pages(name: Seq<char>)
    ensures
        web_page(name) <==> page_words(kind(link_ext(name), english())),
{
    reveal_strlit("HTML web page");
    reveal_strlit("Server web page");
    reveal_strlit("File");
    reveal_strlit("file");
    reveal_strlit(" ");
    assert("File"@.len() == 4);
    assert("HTML web page"@.len() == 13 && "HTML web page"@[11] == 'g');
    assert("Server web page"@.len() == 15 && "Server web page"@[13] == 'g');
    match link_ext(name) {
        Some(e) => {
            if page_ext(e) {
                lemma_pages_are_described(e);
            } else {
                lemma_others_are_no_pages(e);
                let t = upper(e) + " "@ + "file"@;
                assert("file"@.len() == 4 && "file"@[2] == 'l');
                assert(t[t.len() - 2] == 'l');
            }
        },
        None => {},
    }
}

} // verus!
