//! The headers that accompany every remote call.

use vstd::prelude::*;
use vstd::string::*;

verus! {

/// The header values of a remote call: the referer, and the caller's
/// credential sent as a cookie.
#[derive(Debug)]
pub struct RequestHeaders {
    pub referer: String,
    pub cookie: String,
}

/// The referer sent when the caller names none.
pub open spec fn default_referer() -> Seq<char> {
    seq![
        'h', 't', 't', 'p', 's', ':', '/', '/', 'm', 'a', 'n', 'g', 'a', '.', 'b', 'i', 'l', 'i',
        'b', 'i', 'l', 'i', '.', 'c', 'o', 'm',
    ]
}

/// Whether `c` may stand in a header value: a visible or non-ASCII
/// character, a space or a tab, but no other control character.
pub open spec fn header_char_ok(c: char) -> bool {
    (c >= ' ' && c != '\x7f') || c == '\t'
}

/// Whether every character of `s` may stand in a header value.
pub open spec fn header_text_ok(s: Seq<char>) -> bool {
    forall|i: int| 0 <= i < s.len() ==> header_char_ok(#[trigger] s[i])
}

/// Tests whether `s` may be sent as a header value.
pub fn is_header_text(s: &str) -> (r: bool)
    ensures
        r == header_text_ok(s@),
{
    let n = s.unicode_len();
    let mut i: usize = 0;
    while i < n
        invariant
            n == s@.len(),
            i <= n,
            forall|k: int| 0 <= k < i ==> header_char_ok(#[trigger] s@[k]),
        decreases n - i,
    {
        let c = s.get_char(i);
        if !((c >= ' ' && c != '\x7f') || c == '\t') {
            return false;
        }
        i = i + 1;
    }
    true
}

/// The headers for credential `cookie`, with referer `refer` or, when it is
/// absent, the site's own address.
pub fn get_header(cookie: &str, refer: Option<&str>) -> (r: RequestHeaders)
    requires
        header_text_ok(cookie@),
        refer is Some ==> header_text_ok(refer->0@),
    ensures
        header_text_ok(r.cookie@),
        header_text_ok(r.referer@),
        r.cookie@ == cookie@,
        refer is Some ==> r.referer@ == refer->0@,
        refer is None ==> r.referer@ == default_referer(),
{
    let referer = match refer {
        Some(refer) => String::from_str(refer),
        None => {
            let site = "https://manga.bilibili.com";
            proof {
                reveal_strlit("https://manga.bilibili.com");
                assert(site@ =~= default_referer());
                assert(header_text_ok(site@));
            }
            String::from_str(site)
        },
    };
    RequestHeaders { referer, cookie: String::from_str(cookie) }
}

} // verus!
