use bilibilicomic_download::chapter::{next_fetch, sign_image_urls, Chapter, ImageToken};
use bilibilicomic_download::response::{parse_image_paths, parse_image_tokens, token_request_urls};
use bilibilicomic_download::request::{get_header, is_header_text};
use bilibilicomic_download::ComicError;

#[test]
fn chapter_it_works() {}

fn token(url: &str, t: &str) -> ImageToken {
    ImageToken { url: url.to_string(), token: t.to_string() }
}

#[test]
fn chapter_getters() {
    let c = Chapter::new(100, "1".to_string(), "Ep1".to_string(), true);
    assert_eq!(c.get_id(), 100);
    assert_eq!(c.get_chapter_id(), "1");
    assert_eq!(c.get_title(), "Ep1");
    assert!(c.get_locked());
}

#[test]
fn names_follow_the_path_scheme() {
    let c = Chapter::new(100, "12".to_string(), "Ep1".to_string(), false);
    assert_eq!(c.dir_name(), "12-Ep1");
    assert_eq!(c.file_name(3), "100-3.png");
    assert_eq!(c.file_name(0), "100-0.png");
    let big = Chapter::new(u32::MAX, "0".to_string(), String::new(), false);
    assert_eq!(big.dir_name(), "0-");
    assert_eq!(big.file_name(u64::MAX), "4294967295-18446744073709551615.png");
}

#[test]
fn plan_numbers_images_by_position() {
    let c = Chapter::new(100, "1".to_string(), "Ep1".to_string(), false);
    let urls = vec!["u1".to_string(), "u2".to_string(), "u3".to_string()];
    let plan = c.download_plan(&urls);
    assert_eq!(plan.len(), 3);
    // Completing in reverse order changes nothing: each task carries its file.
    for (i, task) in plan.iter().enumerate().rev() {
        assert_eq!(task.url, urls[i]);
        assert_eq!(task.dir, "1-Ep1");
        assert_eq!(task.file, format!("100-{}.png", i + 1));
    }
}

#[test]
fn plans_of_distinct_chapters_are_disjoint() {
    let a = Chapter::new(1, "1".to_string(), "Same".to_string(), false);
    let b = Chapter::new(11, "1".to_string(), "Same".to_string(), false);
    let urls: Vec<String> = (0..12).map(|i| format!("u{}", i)).collect();
    let pa = a.download_plan(&urls);
    let pb = b.download_plan(&urls);
    for x in &pa {
        for y in &pb {
            assert!(x.dir != y.dir || x.file != y.file);
        }
    }
}

#[test]
fn signed_urls_keep_path_order() {
    let paths = vec!["/x.jpg".to_string(), "/y.jpg".to_string()];
    let tokens = vec![token("https://h/x.jpg", "a1"), token("https://h/y.jpg", "b2")];
    let urls = sign_image_urls(&paths, &tokens).unwrap();
    assert_eq!(urls, vec!["https://h/x.jpg?token=a1".to_string(), "https://h/y.jpg?token=b2".to_string()]);
}

#[test]
fn token_count_mismatch_fails() {
    let paths = vec!["/x.jpg".to_string(), "/y.jpg".to_string()];
    let short = vec![token("https://h/x.jpg", "a1")];
    assert!(matches!(sign_image_urls(&paths, &short), Err(ComicError::GetListFailed(_))));
    let long = vec![token("a", "1"), token("b", "2"), token("c", "3")];
    assert!(matches!(sign_image_urls(&paths, &long), Err(ComicError::GetListFailed(_))));
}

#[test]
fn empty_image_list() {
    let urls = sign_image_urls(&Vec::new(), &Vec::new()).unwrap();
    assert!(urls.is_empty());
}

#[test]
fn image_responses_decode() {
    let paths = parse_image_paths(r#"{"data":{"images":[{"path":"/a.jpg"},{"path":"/b.jpg"}]}}"#).unwrap();
    assert_eq!(paths, vec!["/a.jpg".to_string(), "/b.jpg".to_string()]);
    let tokens =
        parse_image_tokens(r#"{"data":[{"url":"https://h/a.jpg","token":"t1"}]}"#).unwrap();
    assert_eq!(tokens.len(), 1);
    assert_eq!(tokens[0].url, "https://h/a.jpg");
    assert_eq!(tokens[0].token, "t1");
    assert!(matches!(parse_image_paths("{}"), Err(ComicError::GetListFailed(_))));
    assert!(matches!(parse_image_tokens(r#"{"data":[{"url":"x"}]}"#), Err(ComicError::GetListFailed(_))));
}

#[test]
fn token_request_is_a_json_array() {
    let paths = vec!["/a.jpg".to_string(), "/b\"c.jpg".to_string()];
    assert_eq!(token_request_urls(&paths).unwrap(), r#"["/a.jpg","/b\"c.jpg"]"#);
}

#[test]
fn first_failure_ends_the_chapter() {
    assert_eq!(next_fetch(3, 0, Ok(())).unwrap(), Some(1));
    assert_eq!(next_fetch(3, 2, Ok(())).unwrap(), None);
    let r = next_fetch(3, 1, Err(ComicError::to_download("boom".to_string())));
    match r {
        Err(e) => {
            assert!(matches!(e, ComicError::DownloadFailed(_)));
            assert_eq!(e.cause(), "boom");
        }
        Ok(_) => panic!("a failed fetch must end the chapter"),
    }
}

#[test]
fn headers_default_to_the_site_referer() {
    let h = get_header("SESSDATA=abc", None);
    assert_eq!(h.referer, "https://manga.bilibili.com");
    assert_eq!(h.cookie, "SESSDATA=abc");
    let h = get_header("c", Some("https://example.org"));
    assert_eq!(h.referer, "https://example.org");
    assert_eq!(h.cookie, "c");
}

#[test]
fn header_text_refuses_control_characters() {
    assert!(is_header_text("SESSDATA=abc; x=\u{e9}\t"));
    assert!(!is_header_text("SESSDATA=abc\n"));
    assert!(!is_header_text("a\u{7f}"));
    assert!(is_header_text(""));
}

#[test]
fn token_request_escapes_control_characters() {
    let paths = vec!["a\nb".to_string(), "\u{1}".to_string(), "\\".to_string()];
    assert_eq!(token_request_urls(&paths).unwrap(), r#"["a\nb","\u0001","\\"]"#);
    assert_eq!(token_request_urls(&Vec::new()).unwrap(), "[]");
}
