use mx_xkcd_ng::effect::HttpResponse;
use mx_xkcd_ng::failure::TransportError;
use mx_xkcd_ng::web::{accept_locator, judge, locate, validate_response, UNKNOWN_FAILURE};

fn response(status: u16) -> HttpResponse {
    HttpResponse { status, body: Vec::new() }
}

fn error(description: &str) -> TransportError {
    TransportError { description: description.to_string() }
}

#[test]
fn successes_pass() {
    for status in [200u16, 201, 204, 250, 299] {
        assert_eq!(validate_response(&response(status)), Ok(()), "{}", status);
    }
}

#[test]
fn other_statuses_fail_with_their_reason() {
    assert_eq!(validate_response(&response(404)), Err(error("Not Found")));
    assert_eq!(validate_response(&response(500)), Err(error("Internal Server Error")));
    assert_eq!(validate_response(&response(199)), Err(error(UNKNOWN_FAILURE)));
    assert_eq!(validate_response(&response(100)), Err(error("Continue")));
    assert_eq!(validate_response(&response(300)), Err(error("Multiple Choices")));
    assert_eq!(validate_response(&response(301)), Err(error("Moved Permanently")));
    assert_eq!(validate_response(&response(418)), Err(error("I'm a teapot")));
}

#[test]
fn statuses_without_a_reason_fail_with_the_fixed_text() {
    assert_eq!(UNKNOWN_FAILURE, "Unknown response failure");
    for status in [0u16, 99, 306, 599, 999, 1000, u16::MAX] {
        assert_eq!(validate_response(&response(status)), Err(error("Unknown response failure")), "{}", status);
    }
}

#[test]
fn every_status_is_judged_by_its_range() {
    for status in 0u16..=1100 {
        assert_eq!(validate_response(&response(status)).is_ok(), (200..300).contains(&status), "{}", status);
    }
}

#[test]
fn judging_goes_by_the_reason_it_is_given() {
    assert_eq!(judge(200, None), Ok(()));
    assert_eq!(judge(200, Some("ignored")), Ok(()));
    assert_eq!(judge(404, Some("Gone fishing")), Err(error("Gone fishing")));
    assert_eq!(judge(404, None), Err(error("Unknown response failure")));
    assert_eq!(judge(300, Some("")), Err(error("")));
}

#[test]
fn locators_that_read_as_such_are_kept() {
    for url in [
        "https://xkcd.com/info.0.json",
        "https://xkcd.com/42/info.0.json",
        "http://inspirobot.me/api?generate=true",
        "https://imgs.xkcd.com/comics/geography.png",
        "/relative/path",
    ] {
        assert_eq!(locate(url.to_string()), Ok(url.to_string()));
    }
}

#[test]
fn texts_that_are_no_locators_are_errors() {
    assert!(locate(String::new()).is_err());
    assert!(locate("https://xkcd.com/a b".to_string()).is_err());
    assert!(locate("http://".to_string()).is_err());
    assert!(locate("http://[bad".to_string()).is_err());
    let complaint = locate(String::new()).unwrap_err();
    assert!(!complaint.description.is_empty());
    assert_ne!(complaint.description, "");
}

#[test]
fn accepting_goes_by_the_complaint_it_is_given() {
    assert_eq!(accept_locator("anything at all".to_string(), None), Ok("anything at all".to_string()));
    assert_eq!(
        accept_locator("https://xkcd.com/".to_string(), Some("no good".to_string())),
        Err(error("no good"))
    );
}
