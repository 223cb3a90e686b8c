use mx_xkcd_ng::bot::{Dispatch, Outcome, XkcdBot};
use mx_xkcd_ng::command::Command;
use mx_xkcd_ng::effect::{Action, Event, HttpResponse, Step};
use mx_xkcd_ng::failure::{Failure, TransportError};
use mx_xkcd_ng::inspirobot::{follow, inspirobot, offer, Inspiration, GENERATOR};
use mx_xkcd_ng::media::{ImageInfo, ImageMessage};
use mx_xkcd_ng::xkcd::{
    fetch_comic, record_locator, send_comic, upload, Comic, ComicFetch, ComicSend, NO_PICTURE,
};
use std::io::Cursor;

/// A PNG of 3 by 2 pixels.
const PNG: [u8; 73] = [
    137, 80, 78, 71, 13, 10, 26, 10, 0, 0, 0, 13, 73, 72, 68, 82, 0, 0, 0, 3, 0, 0, 0, 2, 8, 2, 0, 0,
    0, 18, 22, 241, 77, 0, 0, 0, 16, 73, 68, 65, 84, 120, 156, 99, 16, 80, 48, 128, 32, 6, 56, 11, 0,
    21, 212, 2, 65, 52, 132, 109, 10, 0, 0, 0, 0, 73, 69, 78, 68, 174, 66, 96, 130,
];

fn jpeg(w: u32, h: u32) -> Vec<u8> {
    let picture = image::RgbImage::new(w, h);
    let mut out = Cursor::new(Vec::new());
    picture.write_to(&mut out, image::ImageFormat::Jpeg).unwrap();
    out.into_inner()
}

fn error(description: &str) -> TransportError {
    TransportError { description: description.to_string() }
}

fn failed(description: &str) -> Event {
    Event::Failed(Failure { errcode: None, description: description.to_string() })
}

fn fetched(status: u16, body: &[u8]) -> Event {
    Event::Fetched(HttpResponse { status, body: body.to_vec() })
}

fn record() -> Comic {
    Comic {
        num: 1205,
        img: "https://imgs.xkcd.com/comics/is_it_worth_the_time.png".to_string(),
        data: None,
        alt: "Don't forget the time you spend finding the chart.".to_string(),
        title: "Is It Worth the Time?".to_string(),
    }
}

fn fetched_comic() -> Comic {
    Comic { data: Some(PNG.to_vec()), ..record() }
}

fn png_info() -> ImageInfo {
    ImageInfo { mimetype: "image/png".to_string(), h: 2, w: 3, size: 73 }
}

#[test]
fn records_are_located_by_number() {
    assert_eq!(record_locator(None), "https://xkcd.com/info.0.json");
    assert_eq!(record_locator(Some(42)), "https://xkcd.com/42/info.0.json");
    assert_eq!(record_locator(Some(0)), "https://xkcd.com/0/info.0.json");
    assert_eq!(record_locator(Some(u32::MAX)), "https://xkcd.com/4294967295/info.0.json");
}

#[test]
fn a_comic_is_fetched_in_three_requests() {
    assert_eq!(
        fetch_comic(ComicFetch::Start, Event::Begin, Some(1205)),
        Step::Next(ComicFetch::FetchingRecord, Action::Fetch("https://xkcd.com/1205/info.0.json".to_string()))
    );
    assert_eq!(
        fetch_comic(ComicFetch::Start, Event::Begin, None),
        Step::Next(ComicFetch::FetchingRecord, Action::Fetch("https://xkcd.com/info.0.json".to_string()))
    );
    assert_eq!(
        fetch_comic(ComicFetch::FetchingRecord, fetched(200, b"{\"num\": 1205}"), Some(1205)),
        Step::Next(ComicFetch::Decoding, Action::DecodeComic(b"{\"num\": 1205}".to_vec()))
    );
    assert_eq!(
        fetch_comic(ComicFetch::Decoding, Event::Decoded(record()), Some(1205)),
        Step::Next(
            ComicFetch::FetchingPicture(record()),
            Action::Fetch("https://imgs.xkcd.com/comics/is_it_worth_the_time.png".to_string())
        )
    );
    assert_eq!(
        fetch_comic(ComicFetch::FetchingPicture(record()), fetched(200, &PNG), Some(1205)),
        Step::Done(Ok(fetched_comic()))
    );
}

#[test]
fn a_failing_fetch_ends_with_its_error() {
    assert_eq!(
        fetch_comic(ComicFetch::FetchingRecord, fetched(404, b"nope"), Some(999_999)),
        Step::Done(Err(error("Not Found")))
    );
    assert_eq!(
        fetch_comic(ComicFetch::FetchingRecord, failed("HTTP error: dns"), None),
        Step::Done(Err(error("HTTP error: dns")))
    );
    assert_eq!(
        fetch_comic(ComicFetch::Decoding, failed("Serialization error: EOF"), None),
        Step::Done(Err(error("Serialization error: EOF")))
    );
    assert_eq!(
        fetch_comic(ComicFetch::FetchingPicture(record()), fetched(503, b""), None),
        Step::Done(Err(error("Service Unavailable")))
    );
    assert_eq!(
        fetch_comic(ComicFetch::FetchingPicture(record()), Event::Completed, None),
        Step::Done(Err(error("unexpected reply")))
    );
}

#[test]
fn a_record_with_a_bad_locator_ends_the_fetching() {
    let bad = Comic { img: "https://imgs.xkcd.com/a b.png".to_string(), ..record() };
    match fetch_comic(ComicFetch::Decoding, Event::Decoded(bad), None) {
        Step::Done(Err(e)) => assert!(!e.description.is_empty()),
        other => panic!("{:?}", other),
    }
}

#[test]
fn a_comic_is_posted_in_four_steps() {
    let comic = fetched_comic();
    assert_eq!(
        send_comic(ComicSend::Start, Event::Begin, &comic),
        Step::Next(ComicSend::Uploading(png_info()), Action::Upload(PNG.to_vec(), "image/png".to_string()))
    );
    let picture = ImageMessage {
        body: "Is It Worth the Time?".to_string(),
        url: "mxc://example.org/abc".to_string(),
        info: png_info(),
    };
    assert_eq!(
        send_comic(ComicSend::Uploading(png_info()), Event::Uploaded("mxc://example.org/abc".to_string()), &comic),
        Step::Next(
            ComicSend::SendingTitle(ImageMessage {
                body: "Is It Worth the Time?".to_string(),
                url: "mxc://example.org/abc".to_string(),
                info: png_info(),
            }),
            Action::SendText("1205: Is It Worth the Time?".to_string())
        )
    );
    assert_eq!(
        send_comic(ComicSend::SendingTitle(picture), Event::Completed, &comic),
        Step::Next(
            ComicSend::SendingPicture,
            Action::SendImage(ImageMessage {
                body: "Is It Worth the Time?".to_string(),
                url: "mxc://example.org/abc".to_string(),
                info: png_info(),
            })
        )
    );
    assert_eq!(
        send_comic(ComicSend::SendingPicture, Event::Completed, &comic),
        Step::Next(
            ComicSend::SendingAlt,
            Action::SendText("Alt text: Don't forget the time you spend finding the chart.".to_string())
        )
    );
    assert_eq!(send_comic(ComicSend::SendingAlt, Event::Completed, &comic), Step::Done(Ok(())));
}

#[test]
fn a_comic_that_cannot_be_posted_ends_with_an_error() {
    assert_eq!(
        send_comic(ComicSend::Start, Event::Begin, &record()),
        Step::Done(Err(error(NO_PICTURE)))
    );
    let broken = Comic { data: Some(b"not a picture".to_vec()), ..record() };
    match send_comic(ComicSend::Start, Event::Begin, &broken) {
        Step::Done(Err(e)) => assert!(!e.description.is_empty()),
        other => panic!("{:?}", other),
    }
    assert_eq!(
        send_comic(ComicSend::Uploading(png_info()), failed("upload refused"), &fetched_comic()),
        Step::Done(Err(error("upload refused")))
    );
    assert_eq!(
        send_comic(ComicSend::SendingAlt, failed("send refused"), &fetched_comic()),
        Step::Done(Err(error("send refused")))
    );
}

#[test]
fn an_upload_goes_by_the_metadata_it_is_given() {
    assert_eq!(
        upload(vec![1, 2, 3], Ok(png_info())),
        Step::Next(ComicSend::Uploading(png_info()), Action::Upload(vec![1, 2, 3], "image/png".to_string()))
    );
    assert_eq!(upload(vec![1, 2, 3], Err(error("bad"))), Step::Done(Err(error("bad"))));
}

#[test]
fn a_generated_picture_is_posted() {
    assert_eq!(
        inspirobot(Inspiration::Start, Event::Begin),
        Step::Next(Inspiration::FetchingLink, Action::Fetch(GENERATOR.to_string()))
    );
    assert_eq!(GENERATOR, "http://inspirobot.me/api?generate=true");
    assert_eq!(
        inspirobot(Inspiration::FetchingLink, fetched(200, b"https://generated.inspirobot.me/a/x.jpg")),
        Step::Next(
            Inspiration::FetchingPicture,
            Action::Fetch("https://generated.inspirobot.me/a/x.jpg".to_string())
        )
    );
    let data = jpeg(8, 6);
    let info = ImageInfo { mimetype: "image/jpeg".to_string(), h: 6, w: 8, size: data.len() as u64 };
    assert_eq!(
        inspirobot(Inspiration::FetchingPicture, fetched(200, &data)),
        Step::Next(Inspiration::Uploading(info.clone()), Action::Upload(data.clone(), "image/jpeg".to_string()))
    );
    assert_eq!(
        inspirobot(Inspiration::Uploading(info.clone()), Event::Uploaded("mxc://example.org/q".to_string())),
        Step::Next(
            Inspiration::SendingPicture,
            Action::SendImage(ImageMessage {
                body: "inspirobot".to_string(),
                url: "mxc://example.org/q".to_string(),
                info,
            })
        )
    );
    assert_eq!(inspirobot(Inspiration::SendingPicture, Event::Completed), Step::Done(Ok(())));
}

#[test]
fn a_generated_picture_that_cannot_be_posted_ends_with_an_error() {
    assert_eq!(
        inspirobot(Inspiration::FetchingLink, fetched(500, b"")),
        Step::Done(Err(error("Internal Server Error")))
    );
    match inspirobot(Inspiration::FetchingLink, fetched(200, &[0xff, 0xfe, 0x00])) {
        Step::Done(Err(e)) => assert!(e.description.contains("utf-8"), "{}", e.description),
        other => panic!("{:?}", other),
    }
    match inspirobot(Inspiration::FetchingLink, fetched(200, b"not a locator")) {
        Step::Done(Err(e)) => assert!(!e.description.is_empty()),
        other => panic!("{:?}", other),
    }
    match inspirobot(Inspiration::FetchingPicture, fetched(200, &PNG)) {
        Step::Done(Err(e)) => assert!(!e.description.is_empty()),
        other => panic!("{:?}", other),
    }
    assert_eq!(
        inspirobot(Inspiration::FetchingPicture, fetched(404, &jpeg(2, 2))),
        Step::Done(Err(error("Not Found")))
    );
    assert_eq!(
        inspirobot(Inspiration::Uploading(png_info()), failed("upload refused")),
        Step::Done(Err(error("upload refused")))
    );
}

#[test]
fn following_and_offering_go_by_what_they_are_given() {
    assert_eq!(
        follow(Ok("https://example.org/x.jpg".to_string())),
        Step::Next(Inspiration::FetchingPicture, Action::Fetch("https://example.org/x.jpg".to_string()))
    );
    assert_eq!(follow(Err("no text".to_string())), Step::Done(Err(error("no text"))));
    assert_eq!(
        offer(vec![9], Ok(png_info())),
        Step::Next(Inspiration::Uploading(png_info()), Action::Upload(vec![9], "image/png".to_string()))
    );
    assert_eq!(offer(vec![9], Err(error("bad"))), Step::Done(Err(error("bad"))));
}

/// Answers the actions of a dispatch from a script of what the web holds.
fn play(cmd: &Command, answers: Vec<(Action, Event)>) -> (Result<Outcome, TransportError>, usize) {
    let mut state = Dispatch::Start;
    let mut event = Event::Begin;
    let mut used = 0;
    let mut script = answers.into_iter();
    loop {
        match XkcdBot::process_command(state, event, "@a:b", cmd) {
            Step::Next(s, a) => {
                let (expected, answer) = script.next().expect("more actions than answers");
                assert_eq!(a, expected);
                used += 1;
                event = answer;
                state = s;
            }
            Step::Done(r) => return (r, used),
        }
    }
}

#[test]
fn the_comic_command_fetches_and_posts() {
    let picture = ImageMessage {
        body: "Is It Worth the Time?".to_string(),
        url: "mxc://example.org/abc".to_string(),
        info: png_info(),
    };
    let script = vec![
        (Action::QueryLevel("@a:b".to_string()), Event::Level(0)),
        (Action::Fetch("https://xkcd.com/1205/info.0.json".to_string()), fetched(200, b"{}")),
        (Action::DecodeComic(b"{}".to_vec()), Event::Decoded(record())),
        (
            Action::Fetch("https://imgs.xkcd.com/comics/is_it_worth_the_time.png".to_string()),
            fetched(200, &PNG),
        ),
        (Action::Upload(PNG.to_vec(), "image/png".to_string()), Event::Uploaded("mxc://example.org/abc".to_string())),
        (Action::SendText("1205: Is It Worth the Time?".to_string()), Event::Completed),
        (Action::SendImage(picture), Event::Completed),
        (
            Action::SendText("Alt text: Don't forget the time you spend finding the chart.".to_string()),
            Event::Completed,
        ),
    ];
    assert_eq!(play(&Command::Comic(Some(1205)), script), (Ok(Outcome::Executed), 8));
}

#[test]
fn the_comic_command_ends_with_the_error_of_a_failed_fetch() {
    let script = vec![
        (Action::QueryLevel("@a:b".to_string()), Event::Level(0)),
        (Action::Fetch("https://xkcd.com/info.0.json".to_string()), fetched(502, b"")),
    ];
    assert_eq!(play(&Command::Comic(None), script), (Err(error("Bad Gateway")), 2));
}

#[test]
fn the_inspirobot_command_fetches_and_posts() {
    let data = jpeg(4, 4);
    let info = ImageInfo { mimetype: "image/jpeg".to_string(), h: 4, w: 4, size: data.len() as u64 };
    let script = vec![
        (Action::QueryLevel("@a:b".to_string()), Event::Level(7)),
        (Action::Fetch(GENERATOR.to_string()), fetched(200, b"https://generated.inspirobot.me/a/x.jpg")),
        (Action::Fetch("https://generated.inspirobot.me/a/x.jpg".to_string()), fetched(200, &data)),
        (Action::Upload(data.clone(), "image/jpeg".to_string()), Event::Uploaded("mxc://example.org/q".to_string())),
        (
            Action::SendImage(ImageMessage {
                body: "inspirobot".to_string(),
                url: "mxc://example.org/q".to_string(),
                info,
            }),
            Event::Completed,
        ),
    ];
    assert_eq!(play(&Command::Inspirobot, script), (Ok(Outcome::Executed), 5));
}
