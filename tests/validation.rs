use ytrss::{AppError, YoutubeUrl};

#[test]
fn test_youtube_url_valid() {
    let result = YoutubeUrl::new("https://www.youtube.com/channel/1234");
    assert!(result.is_ok());
}

#[test]
fn test_youtube_url_invalid() {
    let result = YoutubeUrl::new("https://example.com");
    assert!(result.is_err());
}

#[test]
fn valid_address_keeps_its_serialization() {
    let url = YoutubeUrl::new("https://www.youtube.com/channel/1234").unwrap();
    assert_eq!(url.as_str(), "https://www.youtube.com/channel/1234");
}

#[test]
fn short_domain_is_accepted() {
    let url = YoutubeUrl::new("https://youtu.be/abc").unwrap();
    assert_eq!(url.as_str(), "https://youtu.be/abc");
}

#[test]
fn parser_normalizes_the_address() {
    let url = YoutubeUrl::new("HTTPS://WWW.YOUTUBE.COM").unwrap();
    assert_eq!(url.as_str(), "https://www.youtube.com/");
}

#[test]
fn other_domain_is_unrecognized() {
    let result = YoutubeUrl::new("https://example.com");
    assert!(matches!(result, Err(AppError::UnrecognizedDomain)));
}

#[test]
fn marker_in_path_only_is_unrecognized() {
    let result = YoutubeUrl::new("https://example.com/youtube.com");
    assert!(matches!(result, Err(AppError::UnrecognizedDomain)));
}

#[test]
fn unparsable_text_is_malformed() {
    let result = YoutubeUrl::new("not a url");
    assert!(matches!(result, Err(AppError::MalformedUrl)));
}

#[test]
fn url_without_host_is_missing_host() {
    let result = YoutubeUrl::new("data:text/plain,youtube.com");
    assert!(matches!(result, Err(AppError::MissingHost)));
}

#[test]
fn host_check_takes_parsed_host() {
    assert!(matches!(YoutubeUrl::check_host(None), Err(AppError::MissingHost)));
    assert!(matches!(
        YoutubeUrl::check_host(Some("m.youtube.com".to_string())),
        Ok(ref h) if h == "m.youtube.com"
    ));
    assert!(matches!(
        YoutubeUrl::check_host(Some("vimeo.com".to_string())),
        Err(AppError::UnrecognizedDomain)
    ));
}

#[test]
fn recognized_hosts() {
    assert!(YoutubeUrl::is_recognized_host("www.youtube.com"));
    assert!(YoutubeUrl::is_recognized_host("youtu.be"));
    assert!(!YoutubeUrl::is_recognized_host("youtube.co"));
    assert!(!YoutubeUrl::is_recognized_host(""));
}

#[test]
fn address_clones_and_reads_as_str() {
    let url = YoutubeUrl::new("https://youtu.be/xyz").unwrap();
    let copy = url.clone();
    let text: &str = copy.as_ref();
    assert_eq!(text, url.as_str());
}

#[test]
fn page_bound_fits_in_u32_bytes() {
    assert_eq!(ytrss::extract::MAX_PAGE_CHARS, 0x3FFF_FFFF);
    assert!((ytrss::extract::MAX_PAGE_CHARS as u64) * 4 <= u32::MAX as u64);
}
