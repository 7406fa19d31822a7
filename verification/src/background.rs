//! The window background picture: which files are accepted, the name a
//! copied picture gets, the picture as a data URL, and the normalisation of
//! the textual settings.
use vstd::prelude::*;
use crate::audio::{data_url, make_data_url};
use crate::text::{chars_of, lower, lower_chars, owned, push_decimal, push_str, str_eq, string_from_seq, trim, trim_chars, decimal};

verus! {

/// Accepted picture extensions (lower case).
pub open spec fn is_allowed_ext(ext: Seq<char>) -> bool {
    ext == "png"@ || ext == "jpg"@ || ext == "jpeg"@ || ext == "webp"@ || ext == "gif"@ || ext == "bmp"@
}

/// The MIME type of a (lower-case) picture extension; unknown ones count as PNG.
pub open spec fn spec_mime_for_ext(ext: Seq<char>) -> Seq<char> {
    if ext == "png"@ { "image/png"@ }
    else if ext == "jpg"@ || ext == "jpeg"@ { "image/jpeg"@ }
    else if ext == "webp"@ { "image/webp"@ }
    else if ext == "gif"@ { "image/gif"@ }
    else if ext == "bmp"@ { "image/bmp"@ }
    else { "image/png"@ }
}

/// Whether a lower-case extension is an accepted picture type.
pub fn allowed_ext(ext: &str) -> (b: bool)
    ensures
        b == is_allowed_ext(ext@),
{
    str_eq(ext, "png") || str_eq(ext, "jpg") || str_eq(ext, "jpeg") || str_eq(ext, "webp")
        || str_eq(ext, "gif") || str_eq(ext, "bmp")
}

/// The MIME type of a lower-case picture extension.
pub fn mime_for_ext(ext: &str) -> (m: &'static str)
    ensures
        m@ == spec_mime_for_ext(ext@),
{
    if str_eq(ext, "png") {
        "image/png"
    } else if str_eq(ext, "jpg") || str_eq(ext, "jpeg") {
        "image/jpeg"
    } else if str_eq(ext, "webp") {
        "image/webp"
    } else if str_eq(ext, "gif") {
        "image/gif"
    } else if str_eq(ext, "bmp") {
        "image/bmp"
    } else {
        "image/png"
    }
}

/// The lower-cased extension of a path (`default` when it has none).
pub fn lower_ext(ext: Option<&str>, default: &str) -> (r: String)
    ensures
        r@ == lower(match ext { Some(e) => e@, None => default@ }),
{
    let src = match ext {
        Some(e) => e,
        None => default,
    };
    let cs = chars_of(src);
    let l = lower_chars(cs.as_slice());
    string_from_seq(l.as_slice())
}

/// Checks a picture chosen for copying: it must exist and have an accepted
/// extension (a missing extension counts as "png"). Returns the lower-case
/// extension that the copy gets.
pub fn check_copy_source(is_file: bool, ext: Option<&str>) -> (r: Result<String, String>)
    ensures
        !is_file ==> r is Err && r->Err_0@ == "背景图片文件不存在"@,
        is_file ==> ({
            let e = lower(match ext { Some(x) => x@, None => "png"@ });
            &&& is_allowed_ext(e) ==> r is Ok && r->Ok_0@ == e
            &&& !is_allowed_ext(e) ==> r is Err && r->Err_0@ == "不支持的图片格式"@
        }),
{
    if !is_file {
        return Err(owned("背景图片文件不存在"));
    }
    let e = lower_ext(ext, "png");
    if allowed_ext(e.as_str()) {
        Ok(e)
    } else {
        Err(owned("不支持的图片格式"))
    }
}

/// File name of a copied picture: `bg-<millis>.<ext>`.
pub open spec fn spec_copy_name(millis: u64, ext: Seq<char>) -> Seq<char> {
    "bg-"@ + decimal(millis as nat) + "."@ + ext
}

/// Names the copy of a picture by the time of copying.
pub fn copy_file_name(millis: u64, ext: &str) -> (r: String)
    ensures
        r@ == spec_copy_name(millis, ext@),
{
    let mut r = owned("bg-");
    push_decimal(&mut r, millis);
    push_str(&mut r, ".");
    push_str(&mut r, ext);
    r
}

/// The stored picture path to read: trimmed; nothing to read when blank.
pub fn picture_path_to_read(path: &str) -> (r: Option<String>)
    ensures
        trim(path@).len() == 0 ==> r is None,
        trim(path@).len() > 0 ==> r is Some && r->0@ == trim(path@),
{
    let cs = chars_of(path);
    let t = trim_chars(cs.as_slice());
    if t.len() == 0 { None } else { Some(string_from_seq(t.as_slice())) }
}

/// The picture as a data URL, typed by its (any-case) extension.
pub fn picture_data_url(ext: Option<&str>, bytes: &[u8]) -> (r: String)
    ensures
        r@ == data_url(spec_mime_for_ext(lower(match ext { Some(e) => e@, None => Seq::empty() })), bytes@),
{
    let e = lower_ext(ext, "");
    proof {
        assert(""@ =~= Seq::<char>::empty()) by { reveal_strlit(""); }
    }
    let m = mime_for_ext(e.as_str());
    make_data_url(m, bytes)
}

/// How the picture fills the window: "cover", "contain" or "repeat"; anything
/// else becomes "cover".
pub open spec fn spec_fit(fit: Seq<char>) -> Seq<char> {
    if fit == "cover"@ || fit == "contain"@ || fit == "repeat"@ { fit } else { "cover"@ }
}

/// Normalises the fit setting.
pub fn normalize_fit(fit: &str) -> (r: String)
    ensures
        r@ == spec_fit(fit@),
{
    if str_eq(fit, "cover") || str_eq(fit, "contain") || str_eq(fit, "repeat") {
        owned(fit)
    } else {
        owned("cover")
    }
}

/// Normalises the stored picture path (trimmed).
pub fn clean_image_path(path: &str) -> (r: String)
    ensures
        r@ == trim(path@),
{
    let cs = chars_of(path);
    let t = trim_chars(cs.as_slice());
    string_from_seq(t.as_slice())
}

} // verus!
