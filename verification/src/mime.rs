//! The MIME resolver: maps the extension of a file name to a content-type
//! string. An unknown extension falls back to `application/octet-stream`;
//! a name without an extension (no dot at all, or a trailing dot) has no
//! resolution and makes `start` fail.

use vstd::prelude::*;

verus! {

/// Index of the last `.` in `s`, if any.
pub open spec fn spec_last_dot(s: Seq<char>) -> Option<int>
    decreases s.len(),
{
    if s.len() == 0 {
        None
    } else if s[s.len() - 1] == '.' {
        Some(s.len() - 1)
    } else {
        spec_last_dot(s.subrange(0, s.len() - 1))
    }
}

/// The extension of a file name: what follows the last dot. Absent when
/// the name holds no dot or the dot is its final character.
pub open spec fn spec_extension(s: Seq<char>) -> Option<Seq<char>> {
    match spec_last_dot(s) {
        None => None,
        Some(d) => if d == s.len() - 1 {
            None
        } else {
            Some(s.subrange(d + 1, s.len() as int))
        },
    }
}

/// Character-for-character equality of two string slices.
pub fn str_eq(a: &str, b: &str) -> (r: bool)
    ensures
        r == (a@ == b@),
{
    let alen = a.unicode_len();
    let blen = b.unicode_len();
    if alen != blen {
        return false;
    }
    let mut i: usize = 0;
    while i < alen
        invariant
            i <= alen,
            alen == a@.len(),
            alen == b@.len(),
            forall|j: int| 0 <= j < i ==> a@[j] == b@[j],
        decreases alen - i,
    {
        let ca = a.get_char(i);
        let cb = b.get_char(i);
        if ca != cb {
            assert(a@ != b@);
            return false;
        }
        i = i + 1;
    }
    proof {
        assert(a@ =~= b@);
    }
    true
}

/// The extension of `name`, as `spec_extension` describes it.
pub fn file_extension(name: &str) -> (r: Option<&str>)
    ensures
        match r {
            Some(e) => spec_extension(name@) == Some(e@),
            None => spec_extension(name@) is None,
        },
{
    let len = name.unicode_len();
    proof {
        assert(name@.subrange(0, len as int) =~= name@);
    }
    let mut i: usize = len;
    while i > 0
        invariant
            i <= len,
            len == name@.len(),
            spec_last_dot(name@) == spec_last_dot(name@.subrange(0, i as int)),
        decreases i,
    {
        let c = name.get_char(i - 1);
        if c == '.' {
            proof {
                let t = name@.subrange(0, i as int);
                assert(t[t.len() - 1] == name@[i - 1]);
                assert(spec_last_dot(name@) == Some(i - 1 as int));
            }
            if i == len {
                // trailing dot: no extension
                return None;
            }
            let ext = name.substring_char(i, len);
            return Some(ext);
        }
        proof {
            let t = name@.subrange(0, i as int);
            assert(t[t.len() - 1] == name@[i - 1]);
            assert(t.subrange(0, t.len() - 1) =~= name@.subrange(0, i - 1 as int));
        }
        i = i - 1;
    }
    proof {
        assert(name@.subrange(0, 0).len() == 0);
    }
    None
}

/// The content type of a known extension; `application/octet-stream` for
/// any other.
pub open spec fn spec_mime_for(ext: Seq<char>) -> Seq<char> {
    if ext == "txt"@ {
        "text/plain"@
    } else if ext == "html"@ {
        "text/html"@
    } else if ext == "htm"@ {
        "text/html"@
    } else if ext == "css"@ {
        "text/css"@
    } else if ext == "js"@ {
        "text/javascript"@
    } else if ext == "json"@ {
        "application/json"@
    } else if ext == "xml"@ {
        "application/xml"@
    } else if ext == "csv"@ {
        "text/csv"@
    } else if ext == "md"@ {
        "text/markdown"@
    } else if ext == "pdf"@ {
        "application/pdf"@
    } else if ext == "png"@ {
        "image/png"@
    } else if ext == "jpg"@ {
        "image/jpeg"@
    } else if ext == "jpeg"@ {
        "image/jpeg"@
    } else if ext == "gif"@ {
        "image/gif"@
    } else if ext == "svg"@ {
        "image/svg+xml"@
    } else if ext == "mp3"@ {
        "audio/mpeg"@
    } else if ext == "mp4"@ {
        "video/mp4"@
    } else if ext == "zip"@ {
        "application/zip"@
    } else if ext == "gz"@ {
        "application/gzip"@
    } else {
        "application/octet-stream"@
    }
}

/// Looks the extension up in the static table.
pub fn mime_for_extension(ext: &str) -> (r: &'static str)
    ensures
        r@ == spec_mime_for(ext@),
{
    if str_eq(ext, "txt") {
        "text/plain"
    } else if str_eq(ext, "html") {
        "text/html"
    } else if str_eq(ext, "htm") {
        "text/html"
    } else if str_eq(ext, "css") {
        "text/css"
    } else if str_eq(ext, "js") {
        "text/javascript"
    } else if str_eq(ext, "json") {
        "application/json"
    } else if str_eq(ext, "xml") {
        "application/xml"
    } else if str_eq(ext, "csv") {
        "text/csv"
    } else if str_eq(ext, "md") {
        "text/markdown"
    } else if str_eq(ext, "pdf") {
        "application/pdf"
    } else if str_eq(ext, "png") {
        "image/png"
    } else if str_eq(ext, "jpg") {
        "image/jpeg"
    } else if str_eq(ext, "jpeg") {
        "image/jpeg"
    } else if str_eq(ext, "gif") {
        "image/gif"
    } else if str_eq(ext, "svg") {
        "image/svg+xml"
    } else if str_eq(ext, "mp3") {
        "audio/mpeg"
    } else if str_eq(ext, "mp4") {
        "video/mp4"
    } else if str_eq(ext, "zip") {
        "application/zip"
    } else if str_eq(ext, "gz") {
        "application/gzip"
    } else {
        "application/octet-stream"
    }
}

/// The server-resolved content type of a file name: the table entry of its
/// extension, absent when the name has no extension.
pub open spec fn spec_content_type(name: Seq<char>) -> Option<Seq<char>> {
    match spec_extension(name) {
        None => None,
        Some(e) => Some(spec_mime_for(e)),
    }
}

/// Resolves the content type of `name` as `spec_content_type` describes.
pub fn resolve_content_type(name: &str) -> (r: Option<String>)
    ensures
        match r {
            Some(ct) => spec_content_type(name@) == Some(ct@),
            None => spec_content_type(name@) is None,
        },
{
    match file_extension(name) {
        None => None,
        Some(ext) => Some(mime_for_extension(ext).to_owned()),
    }
}

} // verus!
