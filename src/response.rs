//! Decoding of the remote API's JSON responses, and encoding of the path
//! list sent for token issuance.

use vstd::prelude::*;
use vstd::string::*;

use crate::book::{chapters_from_feed, Book};
use crate::chapter::{Chapter, ChapterView, ImageToken};
use crate::error::ComicError;
use crate::json::{
    array_of, array_value, deref_opt, field, flag_of, flag_value, label_of, label_value, json_doc, json_error_text,
    lookup, parse_json, text_of, text_value, u32_of, u32_value, Json,
};

verus! {

/// A lowercase hexadecimal digit.
pub open spec fn hex_digit(d: int) -> char {
    seq!['0', '1', '2', '3', '4', '5', '6', '7', '8', '9', 'a', 'b', 'c', 'd', 'e', 'f'][d]
}

/// How a character stands inside a JSON string: quote, backslash and the
/// control characters are escaped, everything else stands as it is.
pub open spec fn escaped_char(c: char) -> Seq<char> {
    if c == '"' {
        seq!['\\', '"']
    } else if c == '\\' {
        seq!['\\', '\\']
    } else if c == '\x08' {
        seq!['\\', 'b']
    } else if c == '\t' {
        seq!['\\', 't']
    } else if c == '\n' {
        seq!['\\', 'n']
    } else if c == '\x0c' {
        seq!['\\', 'f']
    } else if c == '\r' {
        seq!['\\', 'r']
    } else if ' ' > c {
        let code = c as int;
        let high = hex_digit(code / 16);
        let low = hex_digit(code % 16);
        seq!['\\', 'u', '0', '0', high, low]
    } else {
        seq![c]
    }
}

pub open spec fn escaped(s: Seq<char>) -> Seq<char>
    decreases s.len(),
{
    if s.len() == 0 {
        Seq::empty()
    } else {
        escaped(s.drop_last()) + escaped_char(s.last())
    }
}

/// A JSON string literal holding `s`.
pub open spec fn quoted(s: Seq<char>) -> Seq<char> {
    seq!['"'] + escaped(s) + seq!['"']
}

/// The string literals of `items`, separated by commas.
pub open spec fn joined(items: Seq<Seq<char>>) -> Seq<char>
    decreases items.len(),
{
    if items.len() == 0 {
        Seq::empty()
    } else if items.len() == 1 {
        quoted(items[0])
    } else {
        joined(items.drop_last()) + seq![','] + quoted(items.last())
    }
}

/// The compact JSON text of a list of strings.
pub open spec fn json_string_array(items: Seq<Seq<char>>) -> Seq<char> {
    seq!['['] + joined(items) + seq![']']
}

/// Relies on `serde_json::to_string`: the compact JSON text of a list of
/// strings, escaped with serde_json's table. Strings serialize without error
/// into an in-memory buffer, so it always succeeds.
#[verifier::external_body]
fn encode_strings(items: &Vec<String>) -> (r: Result<String, serde_json::Error>)
    ensures
        r is Ok,
        r is Ok ==> r->Ok_0@ == json_string_array(items@.map_values(|s: String| s@)),
{
    serde_json::to_string(items)
}

fn book_error(cause: &str) -> (r: ComicError)
    ensures
        r is GetBookFailed,
{
    ComicError::GetBookFailed(String::from_str(cause))
}

fn list_error(cause: &str) -> (r: ComicError)
    ensures
        r is GetListFailed,
{
    ComicError::GetListFailed(String::from_str(cause))
}

/// The episode that an entry of the catalog's `ep_list` describes: its
/// `id`, `ord`, `title` and `is_locked`.
pub open spec fn episode_view(ep: Json) -> Option<ChapterView> {
    let e = Some(ep);
    let id = u32_value(field(e, "id"@));
    let ord = label_value(field(e, "ord"@));
    let title = text_value(field(e, "title"@));
    let locked = flag_value(field(e, "is_locked"@));
    if id is Some && ord is Some && title is Some && locked is Some {
        Some(ChapterView { id: id->0, chapter_id: ord->0, title: title->0, locked: locked->0 })
    } else {
        None
    }
}

pub open spec fn catalog_data(doc: Json) -> Option<Json> {
    field(Some(doc), "data"@)
}

/// The catalog's `data.total`.
pub open spec fn total_of(doc: Json) -> Option<u32> {
    u32_value(field(catalog_data(doc), "total"@))
}

/// The catalog's `data.title`.
pub open spec fn title_of(doc: Json) -> Option<Seq<char>> {
    text_value(field(catalog_data(doc), "title"@))
}

/// The catalog's `data.ep_list`.
pub open spec fn episode_list(doc: Json) -> Option<Seq<Json>> {
    array_value(field(catalog_data(doc), "ep_list"@))
}

/// Whether `doc` is a well-formed catalog: a total, a title, and at least
/// `total` episodes, of which the first `total` are complete.
pub open spec fn catalog_ok(doc: Json) -> bool {
    &&& total_of(doc) is Some
    &&& title_of(doc) is Some
    &&& episode_list(doc) is Some
    &&& total_of(doc)->0 <= episode_list(doc)->0.len()
    &&& forall|i: int|
        0 <= i < total_of(doc)->0 ==> (#[trigger] episode_view(episode_list(doc)->0[i])) is Some
}

/// The first `total` episodes of a well-formed catalog, in feed order.
pub open spec fn episodes_of(doc: Json) -> Seq<ChapterView> {
    Seq::new(
        total_of(doc)->0 as nat,
        |i: int| episode_view(episode_list(doc)->0[i])->0,
    )
}

fn episode(ep: &Json) -> (r: Option<Chapter>)
    ensures
        r is Some <==> episode_view(*ep) is Some,
        r is Some ==> r->0@ == episode_view(*ep)->0,
{
    let e = Some(ep);
    let id = u32_of(lookup(e, "id"));
    let ord = label_of(lookup(e, "ord"));
    let title = text_of(lookup(e, "title"));
    let locked = flag_of(lookup(e, "is_locked"));
    match (id, ord, title, locked) {
        (Some(id), Some(ord), Some(title), Some(locked)) => Some(Chapter::new(id, ord, title, locked)),
        _ => None,
    }
}

/// Builds catalog `id` from its decoded response: `data.total`,
/// `data.title` and the first `data.total` entries of `data.ep_list`,
/// oldest first.
pub fn book_from_json(id: u32, doc: &Json) -> (r: Result<Book, ComicError>)
    ensures
        r is Ok <==> catalog_ok(*doc),
        r is Ok ==> {
            &&& r->Ok_0@.id == id
            &&& r->Ok_0@.name == title_of(*doc)->0
            &&& r->Ok_0@.chapters == chapters_from_feed(episodes_of(*doc), total_of(*doc)->0 as nat)
        },
        r is Err ==> r->Err_0 is GetBookFailed,
{
    let data = lookup(Some(doc), "data");
    let total = match u32_of(lookup(data, "total")) {
        Some(t) => t,
        None => return Err(book_error("the response has no total")),
    };
    let name = match text_of(lookup(data, "title")) {
        Some(t) => t,
        None => return Err(book_error("the response has no title")),
    };
    let eps = match array_of(lookup(data, "ep_list")) {
        Some(a) => a,
        None => return Err(book_error("the response has no episode list")),
    };
    if eps.len() < total as usize {
        return Err(book_error("the episode list is shorter than its total"));
    }
    let mut feed: Vec<Chapter> = Vec::new();
    let mut i: usize = 0;
    while i < total as usize
        invariant
            total == total_of(*doc)->0,
            eps@ == episode_list(*doc)->0,
            total <= eps.len(),
            i <= total,
            feed.len() == i,
            forall|k: int| 0 <= k < i ==> (#[trigger] episode_view(eps@[k])) is Some,
            forall|k: int| 0 <= k < i ==> (#[trigger] feed@[k])@ == episode_view(eps@[k])->0,
        decreases total - i,
    {
        match episode(&eps[i]) {
            Some(c) => feed.push(c),
            None => return Err(book_error("an episode lacks its id, ord, title or is_locked")),
        }
        i = i + 1;
    }
    assert(feed@.map_values(|c: Chapter| c@) =~= episodes_of(*doc));
    Book::from_feed(id, name, total, feed)
}

/// Decodes the catalog response `body` for catalog `id`.
pub fn parse_book(id: u32, body: &str) -> (r: Result<Book, ComicError>)
    ensures
        r is Ok <==> (json_doc(body@) is Some && catalog_ok(json_doc(body@)->0)),
        r is Ok ==> {
            let doc = json_doc(body@)->0;
            &&& r->Ok_0@.id == id
            &&& r->Ok_0@.name == title_of(doc)->0
            &&& r->Ok_0@.chapters == chapters_from_feed(episodes_of(doc), total_of(doc)->0 as nat)
        },
        r is Err ==> r->Err_0 is GetBookFailed,
{
    match parse_json(body) {
        Ok(doc) => book_from_json(id, &doc),
        Err(e) => Err(ComicError::GetBookFailed(json_error_text(&e))),
    }
}

/// The image index's `data.images`.
pub open spec fn image_list(doc: Json) -> Option<Seq<Json>> {
    array_value(field(field(Some(doc), "data"@), "images"@))
}

/// Whether `doc` is a well-formed image index: every image has a `path`.
pub open spec fn index_ok(doc: Json) -> bool {
    &&& image_list(doc) is Some
    &&& forall|i: int|
        0 <= i < image_list(doc)->0.len() ==> (#[trigger] text_value(
            field(Some(image_list(doc)->0[i]), "path"@),
        )) is Some
}

/// The `path` of each image of a well-formed index, in order.
pub open spec fn image_paths_of(doc: Json) -> Seq<Seq<char>> {
    Seq::new(
        image_list(doc)->0.len(),
        |i: int| text_value(field(Some(image_list(doc)->0[i]), "path"@))->0,
    )
}

/// The relative image paths of a decoded image index.
pub fn image_paths_from_json(doc: &Json) -> (r: Result<Vec<String>, ComicError>)
    ensures
        r is Ok <==> index_ok(*doc),
        r is Ok ==> r->Ok_0@.map_values(|s: String| s@) == image_paths_of(*doc),
        r is Err ==> r->Err_0 is GetListFailed,
{
    let images = match array_of(lookup(lookup(Some(doc), "data"), "images")) {
        Some(a) => a,
        None => return Err(list_error("the response has no image list")),
    };
    let mut paths: Vec<String> = Vec::new();
    let mut i: usize = 0;
    while i < images.len()
        invariant
            images@ == image_list(*doc)->0,
            i <= images.len(),
            paths.len() == i,
            forall|k: int|
                0 <= k < i ==> (#[trigger] text_value(field(Some(images@[k]), "path"@))) is Some,
            forall|k: int|
                0 <= k < i ==> (#[trigger] paths@[k])@ == text_value(
                    field(Some(images@[k]), "path"@),
                )->0,
        decreases images.len() - i,
    {
        match text_of(lookup(Some(&images[i]), "path")) {
            Some(p) => paths.push(p),
            None => return Err(list_error("an image lacks its path")),
        }
        i = i + 1;
    }
    assert(paths@.map_values(|s: String| s@) =~= image_paths_of(*doc));
    Ok(paths)
}

/// Decodes the image-index response `body`: the `path` of each entry of
/// `data.images`, in order.
pub fn parse_image_paths(body: &str) -> (r: Result<Vec<String>, ComicError>)
    ensures
        r is Ok <==> (json_doc(body@) is Some && index_ok(json_doc(body@)->0)),
        r is Ok ==> r->Ok_0@.map_values(|s: String| s@) == image_paths_of(json_doc(body@)->0),
        r is Err ==> r->Err_0 is GetListFailed,
{
    match parse_json(body) {
        Ok(doc) => image_paths_from_json(&doc),
        Err(e) => Err(ComicError::GetListFailed(json_error_text(&e))),
    }
}

/// The token response's `data`.
pub open spec fn token_list(doc: Json) -> Option<Seq<Json>> {
    array_value(field(Some(doc), "data"@))
}

pub open spec fn token_url(e: Json) -> Option<Seq<char>> {
    text_value(field(Some(e), "url"@))
}

pub open spec fn token_text(e: Json) -> Option<Seq<char>> {
    text_value(field(Some(e), "token"@))
}

/// Whether `doc` is a well-formed token response: every entry has a `url`
/// and a `token`.
pub open spec fn tokens_ok(doc: Json) -> bool {
    &&& token_list(doc) is Some
    &&& forall|i: int|
        0 <= i < token_list(doc)->0.len() ==> {
            &&& (#[trigger] token_url(token_list(doc)->0[i])) is Some
            &&& token_text(token_list(doc)->0[i]) is Some
        }
}

/// Whether `v` holds, in order, the url and token of each entry of a
/// well-formed token response.
pub open spec fn tokens_match(v: Seq<ImageToken>, doc: Json) -> bool {
    &&& v.len() == token_list(doc)->0.len()
    &&& forall|i: int|
        0 <= i < v.len() ==> {
            &&& (#[trigger] v[i]).url@ == token_url(token_list(doc)->0[i])->0
            &&& v[i].token@ == token_text(token_list(doc)->0[i])->0
        }
}

/// The issued entries of a decoded token response.
pub fn image_tokens_from_json(doc: &Json) -> (r: Result<Vec<ImageToken>, ComicError>)
    ensures
        r is Ok <==> tokens_ok(*doc),
        r is Ok ==> tokens_match(r->Ok_0@, *doc),
        r is Err ==> r->Err_0 is GetListFailed,
{
    let entries = match array_of(lookup(Some(doc), "data")) {
        Some(a) => a,
        None => return Err(list_error("the response has no data")),
    };
    let mut tokens: Vec<ImageToken> = Vec::new();
    let mut i: usize = 0;
    while i < entries.len()
        invariant
            entries@ == token_list(*doc)->0,
            i <= entries.len(),
            tokens.len() == i,
            forall|k: int|
                0 <= k < i ==> {
                    &&& (#[trigger] token_url(entries@[k])) is Some
                    &&& token_text(entries@[k]) is Some
                },
            forall|k: int|
                0 <= k < i ==> {
                    &&& (#[trigger] tokens@[k]).url@ == token_url(entries@[k])->0
                    &&& tokens@[k].token@ == token_text(entries@[k])->0
                },
        decreases entries.len() - i,
    {
        let url = text_of(lookup(Some(&entries[i]), "url"));
        let token = text_of(lookup(Some(&entries[i]), "token"));
        match (url, token) {
            (Some(url), Some(token)) => tokens.push(ImageToken { url, token }),
            _ => {
                proof {
                    let e = entries@[i as int];
                    assert(token_url(e) is None || token_text(e) is None);
                    assert(!tokens_ok(*doc)) by {
                        if token_url(token_list(*doc)->0[i as int]) is Some {
                        }
                    }
                }
                return Err(list_error("a token entry lacks its url or token"));
            },
        }
        i = i + 1;
    }
    Ok(tokens)
}

/// Decodes the token-issuance response `body`: the `url` and `token` of
/// each entry of `data`, in order.
pub fn parse_image_tokens(body: &str) -> (r: Result<Vec<ImageToken>, ComicError>)
    ensures
        r is Ok <==> (json_doc(body@) is Some && tokens_ok(json_doc(body@)->0)),
        r is Ok ==> tokens_match(r->Ok_0@, json_doc(body@)->0),
        r is Err ==> r->Err_0 is GetListFailed,
{
    match parse_json(body) {
        Ok(doc) => image_tokens_from_json(&doc),
        Err(e) => Err(ComicError::GetListFailed(json_error_text(&e))),
    }
}

/// The `urls` parameter of a token-issuance request: the relative image
/// paths as a JSON array of strings.
pub fn token_request_urls(paths: &Vec<String>) -> (r: Result<String, ComicError>)
    ensures
        r is Ok,
        r is Ok ==> r->Ok_0@ == json_string_array(paths@.map_values(|s: String| s@)),
{
    match encode_strings(paths) {
        Ok(s) => Ok(s),
        Err(e) => Err(ComicError::GetListFailed(json_error_text(&e))),
    }
}

} // verus!
