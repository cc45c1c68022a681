use vstd::prelude::*;

use crate::decimal::{decimal_spec, parse_u64, parse_u64_spec, u64_to_decimal};
use crate::text::{
    chars_equal, chars_of, contains_chars, contains_spec, occurs_at, slice_chars,
    starts_with_chars, string_from_chars,
};

verus! {

/// Where the speech model is downloaded from by default.
pub const HF_URL: &'static str = "https://huggingface.co/ggerganov/whisper.cpp/resolve/main/ggml-small.bin";

/// The mirror used from China.
pub const HF_MIRROR_URL: &'static str =
    "https://hf-mirror.com/ggerganov/whisper.cpp/resolve/main/ggml-small.bin";

/// What `str::to_lowercase` makes of a text (the full Unicode lower-case mapping).
pub uninterp spec fn lowercase(s: Seq<char>) -> Seq<char>;

/// `str::to_lowercase`. Claimed: the result is `lowercase` of the argument, a
/// function of the argument alone.
#[verifier::external_body]
fn to_lowercase(s: &str) -> (r: String)
    ensures
        r@ == lowercase(s@),
{
    s.to_lowercase()
}

/// A lower-cased locale value names a Chinese locale.
pub open spec fn lowered_locale_is_chinese(v: Seq<char>) -> bool {
    ||| occurs_at(v, "zh"@, 0)
    ||| contains_spec(v, "cn"@)
    ||| contains_spec(v, "chinese"@)
}

/// A locale value (such as that of `LANG`) names a Chinese locale.
pub open spec fn locale_value_is_chinese(v: Seq<char>) -> bool {
    lowered_locale_is_chinese(lowercase(v))
}

/// Some of the locale values names a Chinese locale.
pub open spec fn locale_is_chinese(values: Seq<Seq<char>>) -> bool {
    exists|i: int| 0 <= i < values.len() && locale_value_is_chinese(#[trigger] values[i])
}

/// The download address for a mirror setting, given the locale values that are set.
pub open spec fn download_url(mirror: Seq<char>, locale_values: Seq<Seq<char>>) -> Seq<char> {
    if mirror == "cn"@ {
        HF_MIRROR_URL@
    } else if mirror == "global"@ {
        HF_URL@
    } else if locale_is_chinese(locale_values) {
        HF_MIRROR_URL@
    } else {
        HF_URL@
    }
}

/// Whether an already lower-cased locale value names a Chinese locale: it starts with
/// `zh` or holds `cn` or `chinese`.
pub fn lowered_value_is_chinese(lowered: &str) -> (r: bool)
    ensures
        r == lowered_locale_is_chinese(lowered@),
{
    let v = chars_of(lowered);
    starts_with_chars(&v, &chars_of("zh")) || contains_chars(&v, &chars_of("cn")) || contains_chars(
        &v,
        &chars_of("chinese"),
    )
}

/// Whether a locale value names a Chinese locale, whatever its case.
pub fn value_is_chinese(value: &str) -> (r: bool)
    ensures
        r == locale_value_is_chinese(value@),
{
    let lowered = to_lowercase(value);
    lowered_value_is_chinese(lowered.as_str())
}

/// Whether the user is likely in China, given the values of `LANG`, `LC_ALL` and
/// `LANGUAGE` that are set.
pub fn is_chinese_locale(locale_values: &Vec<String>) -> (r: bool)
    ensures
        r == locale_is_chinese(locale_values@.map_values(|v: String| v@)),
{
    let ghost vals = locale_values@.map_values(|v: String| v@);
    for i in 0..locale_values.len()
        invariant
            vals == locale_values@.map_values(|v: String| v@),
            forall|j: int| 0 <= j < i ==> !locale_value_is_chinese(#[trigger] vals[j]),
    {
        if value_is_chinese(locale_values[i].as_str()) {
            assert(locale_value_is_chinese(vals[i as int]));
            return true;
        }
    }
    false
}

/// Selects the download address: `"cn"` picks the mirror, `"global"` the main site,
/// anything else decides by the locale values (`LANG`, `LC_ALL`, `LANGUAGE`, those set).
pub fn get_download_url(mirror: &str, locale_values: &Vec<String>) -> (r: &'static str)
    ensures
        r@ == download_url(mirror@, locale_values@.map_values(|v: String| v@)),
        r@ == HF_URL@ || r@ == HF_MIRROR_URL@,
        mirror@ == "cn"@ ==> r@ == HF_MIRROR_URL@,
        mirror@ == "global"@ ==> r@ == HF_URL@,
        // otherwise the locale decides: the mirror when some value names a Chinese
        // locale, the main site when none does
        mirror@ != "cn"@ && mirror@ != "global"@ && (exists|i: int|
            0 <= i < locale_values@.len() && locale_value_is_chinese(#[trigger] locale_values@[i]@))
            ==> r@ == HF_MIRROR_URL@,
        mirror@ != "cn"@ && mirror@ != "global"@ && (forall|i: int|
            0 <= i < locale_values@.len() ==> !locale_value_is_chinese(#[trigger] locale_values@[i]@))
            ==> r@ == HF_URL@,
{
    proof {
        let vals = locale_values@.map_values(|v: String| v@);
        assert(forall|i: int| 0 <= i < locale_values@.len() ==> vals[i] == #[trigger] locale_values@[i]@);
        reveal_strlit("cn");
        reveal_strlit("global");
        assert("cn"@ != "global"@) by {
            assert("cn"@.len() != "global"@.len());
        }
    }
    let m = chars_of(mirror);
    if chars_equal(&m, &chars_of("cn")) {
        HF_MIRROR_URL
    } else if chars_equal(&m, &chars_of("global")) {
        HF_URL
    } else if is_chinese_locale(locale_values) {
        HF_MIRROR_URL
    } else {
        HF_URL
    }
}

/// Where the last `/`-separated piece of `s` starts: just after its last `/`, or at 0.
pub open spec fn last_segment_start(s: Seq<char>) -> nat
    decreases s.len(),
{
    if s.len() == 0 {
        0
    } else if s.last() == '/' {
        s.len()
    } else {
        last_segment_start(s.drop_last())
    }
}

/// The last `/`-separated piece of `s` (`s.split('/').last()`).
pub open spec fn last_segment(s: Seq<char>) -> Seq<char> {
    s.skip(last_segment_start(s) as int)
}

/// The number a header holds, 0 when it is missing or not a number.
pub open spec fn header_number(h: Option<Seq<char>>) -> u64 {
    match h {
        Some(v) => match parse_u64_spec(v) {
            Some(n) => n,
            None => 0,
        },
        None => 0,
    }
}

/// How a download proceeds once the server has answered.
#[derive(Debug, Clone, Copy, PartialEq, Eq, Structural)]
pub struct ResponsePlan {
    /// Size of the whole file, 0 when the server does not say.
    pub total_size: u64,
    /// Bytes already on disk that the response continues; 0 to start afresh.
    pub resume_offset: u64,
}

/// The plan for a response with status `status` to a request made with `existing_size`
/// bytes already downloaded: `206` continues them and takes the total from the part of
/// `Content-Range` after its last `/`; another `2xx` starts afresh with the total from
/// `Content-Length`; any other status is refused.
pub open spec fn response_plan(
    status: u16,
    existing_size: u64,
    content_range: Option<Seq<char>>,
    content_length: Option<Seq<char>>,
) -> Result<ResponsePlan, u16> {
    if status == 206 {
        Ok(
            ResponsePlan {
                total_size: header_number(
                    match content_range {
                        Some(h) => Some(last_segment(h)),
                        None => None,
                    },
                ),
                resume_offset: existing_size,
            },
        )
    } else if 200 <= status < 300 {
        Ok(ResponsePlan { total_size: header_number(content_length), resume_offset: 0 })
    } else {
        Err(status)
    }
}

/// The view of an optional header.
pub open spec fn header_view(h: Option<&str>) -> Option<Seq<char>> {
    match h {
        Some(v) => Some(v@),
        None => None,
    }
}

/// Copies the last `/`-separated piece of `v`.
#[verifier::rlimit(30)]
pub fn last_segment_chars(v: &Vec<char>) -> (r: Vec<char>)
    ensures
        r@ == last_segment(v@),
{
    let mut k = v.len();
    assert(v@.take(k as int) =~= v@);
    while k > 0 && v[k - 1] != '/'
        invariant
            k <= v.len(),
            last_segment_start(v@) == last_segment_start(v@.take(k as int)),
        decreases k,
    {
        assert(v@.take(k as int).drop_last() =~= v@.take(k - 1));
        k -= 1;
    }
    slice_chars(v, k, v.len())
}

fn header_number_exec(h: Option<&str>) -> (r: u64)
    ensures
        r == header_number(header_view(h)),
{
    match h {
        Some(v) => match parse_u64(&chars_of(v)) {
            Some(n) => n,
            None => 0,
        },
        None => 0,
    }
}

/// Decides how to continue after the server answered `status`, given the bytes already
/// downloaded and the `Content-Range` and `Content-Length` headers; `Err` carries a
/// status that ends the download.
pub fn plan_response(
    status: u16,
    existing_size: u64,
    content_range: Option<&str>,
    content_length: Option<&str>,
) -> (r: Result<ResponsePlan, u16>)
    ensures
        r == response_plan(
            status,
            existing_size,
            header_view(content_range),
            header_view(content_length),
        ),
        // partial content continues the bytes on disk
        status == 206 ==> (r matches Ok(p) && p.resume_offset == existing_size),
        // any other success starts afresh, sized by Content-Length when it is a number
        200 <= status < 300 && status != 206 ==> (r matches Ok(p) && p.resume_offset == 0),
        200 <= status < 300 && status != 206 && content_length is None ==> (r matches Ok(p)
            && p.total_size == 0),
        200 <= status < 300 && status != 206 ==> forall|h: &str, n: u64|
            content_length == Some(h) && parse_u64_spec(h@) == Some(n) ==> (r matches Ok(p)
                && p.total_size == n),
        // a Content-Range ending in "/N" gives the total N
        status == 206 ==> forall|h: &str, n: u64|
            content_range == Some(h) && parse_u64_spec(last_segment(h@)) == Some(n) ==> (r matches Ok(
                p,
            ) && p.total_size == n),
        // every other status ends the download, reporting it
        !(200 <= status < 300) ==> r == Err::<ResponsePlan, u16>(status),
{
    if status == 206 {
        let total = match content_range {
            Some(h) => {
                let tail = last_segment_chars(&chars_of(h));
                match parse_u64(&tail) {
                    Some(n) => n,
                    None => 0,
                }
            },
            None => 0,
        };
        Ok(ResponsePlan { total_size: total, resume_offset: existing_size })
    } else if 200 <= status && status < 300 {
        Ok(ResponsePlan { total_size: header_number_exec(content_length), resume_offset: 0 })
    } else {
        Err(status)
    }
}

/// The value of a `Range` header asking for everything from byte `offset` on.
pub fn range_header(offset: u64) -> (r: String)
    ensures
        r@ == "bytes="@ + decimal_spec(offset as nat) + "-"@,
{
    let mut v = chars_of("bytes=");
    let mut digits = u64_to_decimal(offset);
    v.append(&mut digits);
    let mut dash = chars_of("-");
    v.append(&mut dash);
    string_from_chars(&v)
}

/// The `Range` header to send: one only when a partial download is on disk.
pub fn resume_range_header(existing_size: u64) -> (r: Option<String>)
    ensures
        existing_size == 0 ==> r is None,
        existing_size > 0 ==> (r matches Some(h) && h@ == "bytes="@ + decimal_spec(
            existing_size as nat,
        ) + "-"@),
{
    if existing_size > 0 {
        Some(range_header(existing_size))
    } else {
        None
    }
}

/// Progress is reported at most every 200 ms.
pub fn progress_due(ms_since_last_report: u128) -> (r: bool)
    ensures
        r == (ms_since_last_report >= 200),
{
    ms_since_last_report >= 200
}

/// A progress report of a download, sent to the overlay.
#[derive(Debug, Clone)]
pub struct DownloadProgress {
    pub downloaded: u64,
    pub total: u64,
    pub speed_bps: u64,
    /// "downloading" or "verifying"
    pub stage: String,
}

impl DownloadProgress {
    /// A report made while bytes are arriving.
    pub fn downloading(downloaded: u64, total: u64, speed_bps: u64) -> (r: Self)
        ensures
            r.downloaded == downloaded,
            r.total == total,
            r.speed_bps == speed_bps,
            r.stage@ == "downloading"@,
    {
        DownloadProgress { downloaded, total, speed_bps, stage: "downloading".to_string() }
    }

    /// The report made once every byte has arrived, before the file is put in place.
    pub fn verifying(total: u64) -> (r: Self)
        ensures
            r.downloaded == total,
            r.total == total,
            r.speed_bps == 0,
            r.stage@ == "verifying"@,
    {
        DownloadProgress { downloaded: total, total, speed_bps: 0, stage: "verifying".to_string() }
    }
}

} // verus!
