use ntk::error::NtkError;
use ntk::http::{
    classify_content_type, download_filename, download_filename_for, fetch_step,
    filename_from_disposition, is_json_content_type, method_str, normalize_url, redirect_target,
    trim_chars, ContentAction, FetchStep, HttpMethod, redirect_line, request_line,
};
use ntk::json::{json_body_text, out_body, out_request_body, vendor_from_json};
use ntk::mac::VendorReport;

#[test]
fn urls_get_a_scheme() {
    assert_eq!(normalize_url("example.com", false), "https://example.com");
    assert_eq!(normalize_url("example.com", true), "http://example.com");
    assert_eq!(normalize_url("http://x.org/a", false), "http://x.org/a");
    assert_eq!(normalize_url("https://x.org", true), "https://x.org");
    assert_eq!(normalize_url("10.0.0.1", false), "https://10.0.0.1");
    assert_eq!(normalize_url("httpx.org", true), "http://httpx.org");
}

#[test]
fn method_names() {
    assert_eq!(method_str(&HttpMethod::Post), "POST");
    assert_eq!(method_str(&HttpMethod::Patch), "PATCH");
    assert_eq!(method_str(&HttpMethod::Put), "PUT");
    assert_eq!(method_str(&HttpMethod::Delete), "DELETE");
}

#[test]
fn json_responses_of_out() {
    assert!(is_json_content_type(Some("application/json; charset=utf-8")));
    assert!(is_json_content_type(Some("application/json")));
    assert!(!is_json_content_type(Some("text/html")));
    assert!(!is_json_content_type(None));
}

#[test]
fn content_types_of_fetch() {
    assert_eq!(classify_content_type(None), ContentAction::RawText);
    assert_eq!(classify_content_type(Some("application/json")), ContentAction::Json);
    assert_eq!(classify_content_type(Some("text/plain")), ContentAction::Text);
    assert_eq!(classify_content_type(Some("text/html")), ContentAction::Text);
    assert_eq!(classify_content_type(Some("text/html; charset=UTF-8")), ContentAction::Text);
    assert_eq!(classify_content_type(Some("text/css")), ContentAction::Text);
    assert_eq!(
        classify_content_type(Some("application/json; charset=utf-8")),
        ContentAction::Unexpected { bytes_hint: false }
    );
    assert_eq!(
        classify_content_type(Some("application/octet-stream")),
        ContentAction::Unexpected { bytes_hint: false }
    );
    assert_eq!(
        classify_content_type(Some("application/x-bytes")),
        ContentAction::Unexpected { bytes_hint: true }
    );
}

#[test]
fn redirects() {
    assert_eq!(redirect_target("https://a.com/x/y", "/z").unwrap(), "https://a.com/z");
    assert_eq!(redirect_target("https://a.com/x/y", "z").unwrap(), "https://a.com/x/z");
    assert_eq!(redirect_target("https://a.com/x/y", "http://b.com/q").unwrap(), "http://b.com/q");
    assert_eq!(redirect_target("not a url", "httpfoo").unwrap(), "httpfoo");
    assert!(matches!(redirect_target("not a url", "/z"), Err(NtkError::UrlParseFailure(_))));
}

#[test]
fn fetch_steps() {
    assert!(matches!(
        fetch_step(0, "https://a.com", None, false),
        Ok(FetchStep::ShowContent { no_redirects: true })
    ));
    assert!(matches!(fetch_step(0, "https://a.com", None, true), Ok(FetchStep::Done { no_redirects: true })));
    assert!(matches!(
        fetch_step(1, "https://a.com", None, false),
        Ok(FetchStep::ShowContent { no_redirects: false })
    ));
    assert!(matches!(fetch_step(3, "https://a.com", None, true), Ok(FetchStep::Done { no_redirects: false })));
    match fetch_step(0, "https://a.com/p/q", Some("r"), false) {
        Ok(FetchStep::Redirect(u)) => assert_eq!(u, "https://a.com/p/r"),
        other => panic!("unexpected {:?}", other),
    }
    assert!(matches!(fetch_step(0, "::", Some("r"), false), Err(NtkError::UrlParseFailure(_))));
}

#[test]
fn trimming() {
    let t: Vec<char> = "  a b \t\n".chars().collect();
    assert_eq!(trim_chars(&t).into_iter().collect::<String>(), "a b");
    let e: Vec<char> = "   ".chars().collect();
    assert!(trim_chars(&e).is_empty());
}

#[test]
fn file_names_from_the_disposition() {
    assert_eq!(
        filename_from_disposition("attachment; filename=ntk-v0.3.1-linux-musl-x86-native.tar.gz"),
        Some(String::from("ntk-v0.3.1-linux-musl-x86-native.tar.gz"))
    );
    assert_eq!(filename_from_disposition("attachment;filename=a.txt;size=3"), Some(String::from("a.txt")));
    assert_eq!(filename_from_disposition("attachment; FILENAME=abc"), Some(String::from("FILENAME=abc")));
    assert_eq!(filename_from_disposition("filename=filename=x"), Some(String::from("x")));
    assert_eq!(filename_from_disposition("inline"), None);
}

#[test]
fn download_names() {
    assert_eq!(download_filename(Some(String::from("out.bin")), Some("attachment; filename=a"), None, None), "out.bin");
    assert_eq!(download_filename(None, Some("attachment; filename=a.txt"), Some("b"), Some("h")), "a.txt");
    assert_eq!(download_filename(None, Some("attachment"), Some("file.zip"), Some("h")), "file.zip");
    assert_eq!(download_filename(None, None, Some(""), Some("host.org")), "host.org");
    assert_eq!(download_filename(None, None, None, None), "ntk-downloaded-file");
    assert_eq!(download_filename_for(None, None, "https://example.com/dir/file.tar.gz"), "file.tar.gz");
    assert_eq!(download_filename_for(None, None, "https://example.com/"), "example.com");
    assert_eq!(download_filename_for(None, None, "garbage"), "ntk-downloaded-file");
}

#[test]
fn json_bodies() {
    assert_eq!(json_body_text("{ \"a\" : [1, 2] }").unwrap(), "{\"a\":[1,2]}");
    assert!(matches!(json_body_text("not json"), Err(NtkError::FetchFailedToGetJson(_))));
    assert_eq!(out_request_body(" [ true , null ] ").unwrap(), "[true,null]");
    assert!(matches!(out_request_body("{"), Err(NtkError::JsonParseFailure(_))));
}

#[test]
fn out_shows_bodies() {
    assert_eq!(out_body("", true), None);
    assert_eq!(out_body("", false), None);
    assert_eq!(out_body("hi", false), Some(String::from("hi\n")));
    assert_eq!(out_body("{\"a\":1}", true), Some(String::from("{\n  \"a\": 1\n}\n")));
    assert_eq!(out_body("oops", true), None);
}

#[test]
fn vendors_from_json() {
    match vendor_from_json("{\"company\":\"Acme\"}", "FF:FF:FF") {
        VendorReport::Stdout(s) => assert_eq!(s, "Acme"),
        other => panic!("unexpected {:?}", other),
    }
    match vendor_from_json("{\"company\":\"\"}", "FF:FF:FF") {
        VendorReport::Stdout(s) => assert_eq!(s, "Was unable to find a vendor for 'FF:FF:FF'"),
        other => panic!("unexpected {:?}", other),
    }
    match vendor_from_json("{\"company\":3}", "FF:FF:FF") {
        VendorReport::Stderr(s) => assert_eq!(s, "'company' field not found or not a string in JSON response."),
        other => panic!("unexpected {:?}", other),
    }
    match vendor_from_json("{\"vendor\":\"Acme\"}", "FF:FF:FF") {
        VendorReport::Stderr(s) => assert_eq!(s, "'company' field not found or not a string in JSON response."),
        other => panic!("unexpected {:?}", other),
    }
    match vendor_from_json("nope", "FF:FF:FF") {
        VendorReport::Stderr(s) => assert_eq!(s, "Failed to parse JSON: error decoding response body"),
        other => panic!("unexpected {:?}", other),
    }
}

#[test]
fn fetch_lines() {
    assert_eq!(request_line(0, "https://a.com"), "\nRequest #1 to URL: https://a.com");
    assert_eq!(request_line(254, "x"), "\nRequest #255 to URL: x");
    assert_eq!(redirect_line("https://b.com/"), "Redirect -> https://b.com/");
}
