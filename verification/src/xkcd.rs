//! Comics: fetching one and posting it.

use crate::effect::{
    acknowledge, acknowledged, refuse, refused, Action, ActionView, Event, EventView, Step, StepView,
};
use crate::failure::{outcome, TransportError};
use crate::media::{
    copy_bytes, describe, guessed_image, info_of, measure, ImageInfo, ImageInfoView, ImageMessage,
    ImageMessageView,
};
use crate::text::{decimal, decimal_text};
use crate::web::{locate, requested, validate_response, validated};
use vstd::prelude::*;

verus! {

/// A comic: its record as published, and its picture once fetched.
#[derive(Debug, PartialEq, Eq)]
pub struct Comic {
    pub num: u32,
    pub img: String,
    pub data: Option<Vec<u8>>,
    pub alt: String,
    pub title: String,
}

/// What contracts see of a [`Comic`].
pub struct ComicView {
    pub num: u32,
    pub img: Seq<char>,
    pub data: Option<Seq<u8>>,
    pub alt: Seq<char>,
    pub title: Seq<char>,
}

impl View for Comic {
    type V = ComicView;

    open spec fn view(&self) -> ComicView {
        ComicView {
            num: self.num,
            img: self.img@,
            data: match self.data {
                Some(d) => Some(d@),
                None => None,
            },
            alt: self.alt@,
            title: self.title@,
        }
    }
}

/// Where a comic's record is published: the latest one's for `None`, else
/// that of the comic with the number.
pub open spec fn record_url(n: Option<u32>) -> Seq<char> {
    match n {
        Some(n) => "https://xkcd.com/"@ + decimal(n as nat) + "/info.0.json"@,
        None => "https://xkcd.com/info.0.json"@,
    }
}

/// Writes the locator of a comic's record.
pub fn record_locator(n: Option<u32>) -> (r: String)
    ensures
        r@ == record_url(n),
{
    match n {
        Some(n) => {
            let mut out = String::from_str("https://xkcd.com/");
            out.append(decimal_text(n).as_str());
            out.append("/info.0.json");
            out
        },
        None => String::from_str("https://xkcd.com/info.0.json"),
    }
}

/// Where the fetching of a comic stands.
#[derive(Debug, PartialEq, Eq)]
pub enum ComicFetch {
    Start,
    FetchingRecord,
    Decoding,
    /// The record is read; its picture is being fetched.
    FetchingPicture(Comic),
}

/// What contracts see of a [`ComicFetch`].
pub enum ComicFetchView {
    Start,
    FetchingRecord,
    Decoding,
    FetchingPicture(ComicView),
}

impl View for ComicFetch {
    type V = ComicFetchView;

    open spec fn view(&self) -> ComicFetchView {
        match *self {
            ComicFetch::Start => ComicFetchView::Start,
            ComicFetch::FetchingRecord => ComicFetchView::FetchingRecord,
            ComicFetch::Decoding => ComicFetchView::Decoding,
            ComicFetch::FetchingPicture(c) => ComicFetchView::FetchingPicture(c@),
        }
    }
}

/// Fetching comic `n`, or the latest: fetch its record, have it read, fetch
/// the picture that the record names. A response is used only where its
/// status reports success; every failure, and every locator that does not
/// read as one, ends the fetching with that error.
pub open spec fn fetch_comic_step(state: ComicFetchView, event: EventView, n: Option<u32>) -> StepView<
    ComicFetchView,
    ComicView,
> {
    match state {
        ComicFetchView::Start => requested(ComicFetchView::FetchingRecord, record_url(n)),
        ComicFetchView::FetchingRecord => match event {
            EventView::Fetched(resp) => match validated(resp.status) {
                Ok(_) => StepView::Next(ComicFetchView::Decoding, ActionView::DecodeComic(resp.body)),
                Err(e) => StepView::Done(Err(e)),
            },
            _ => StepView::Done(Err(refused(event))),
        },
        ComicFetchView::Decoding => match event {
            EventView::Decoded(c) => requested(ComicFetchView::FetchingPicture(c), c.img),
            _ => StepView::Done(Err(refused(event))),
        },
        ComicFetchView::FetchingPicture(c) => match event {
            EventView::Fetched(resp) => match validated(resp.status) {
                Ok(_) => StepView::Done(Ok(ComicView { data: Some(resp.body), ..c })),
                Err(e) => StepView::Done(Err(e)),
            },
            _ => StepView::Done(Err(refused(event))),
        },
    }
}

/// Runs the fetching of a comic one step further.
pub fn fetch_comic(state: ComicFetch, event: Event, n: Option<u32>) -> (r: Step<ComicFetch, Comic>)
    ensures
        r@ == fetch_comic_step(state@, event@, n),
{
    match state {
        ComicFetch::Start => match locate(record_locator(n)) {
            Ok(u) => Step::Next(ComicFetch::FetchingRecord, Action::Fetch(u)),
            Err(e) => Step::Done(Err(e)),
        },
        ComicFetch::FetchingRecord => match event {
            Event::Fetched(resp) => match validate_response(&resp) {
                Ok(_) => Step::Next(ComicFetch::Decoding, Action::DecodeComic(resp.body)),
                Err(e) => Step::Done(Err(e)),
            },
            other => Step::Done(Err(refuse(other))),
        },
        ComicFetch::Decoding => match event {
            Event::Decoded(c) => match locate(c.img.clone()) {
                Ok(u) => Step::Next(ComicFetch::FetchingPicture(c), Action::Fetch(u)),
                Err(e) => Step::Done(Err(e)),
            },
            other => Step::Done(Err(refuse(other))),
        },
        ComicFetch::FetchingPicture(c) => match event {
            Event::Fetched(resp) => match validate_response(&resp) {
                Ok(_) => Step::Done(
                    Ok(
                        Comic {
                            num: c.num,
                            img: c.img,
                            data: Some(resp.body),
                            alt: c.alt,
                            title: c.title,
                        },
                    ),
                ),
                Err(e) => Step::Done(Err(e)),
            },
            other => Step::Done(Err(refuse(other))),
        },
    }
}

/// The MIME type under which a comic's picture is uploaded.
pub const COMIC_MIME: &'static str = "image/png";

/// The description of the error raised for a comic without its picture.
pub const NO_PICTURE: &'static str = "comic has no picture";

/// The line that announces a comic: its number and its title.
pub open spec fn title_line(c: ComicView) -> Seq<char> {
    decimal(c.num as nat) + ": "@ + c.title
}

/// The line that gives a comic's alternative text.
pub open spec fn alt_line(c: ComicView) -> Seq<char> {
    "Alt text: "@ + c.alt
}

/// Where the posting of a comic stands.
#[derive(Debug, PartialEq, Eq)]
pub enum ComicSend {
    Start,
    /// The picture is measured and being uploaded.
    Uploading(ImageInfo),
    /// The title is on its way; the picture follows.
    SendingTitle(ImageMessage),
    SendingPicture,
    SendingAlt,
}

/// What contracts see of a [`ComicSend`].
pub enum ComicSendView {
    Start,
    Uploading(ImageInfoView),
    SendingTitle(ImageMessageView),
    SendingPicture,
    SendingAlt,
}

impl View for ComicSend {
    type V = ComicSendView;

    open spec fn view(&self) -> ComicSendView {
        match *self {
            ComicSend::Start => ComicSendView::Start,
            ComicSend::Uploading(i) => ComicSendView::Uploading(i@),
            ComicSend::SendingTitle(m) => ComicSendView::SendingTitle(m@),
            ComicSend::SendingPicture => ComicSendView::SendingPicture,
            ComicSend::SendingAlt => ComicSendView::SendingAlt,
        }
    }
}

/// The upload of a picture, given its metadata or why it has none.
pub open spec fn upload_of(data: Seq<u8>, info: Result<ImageInfoView, Seq<char>>) -> StepView<
    ComicSendView,
    (),
> {
    match info {
        Ok(i) => StepView::Next(ComicSendView::Uploading(i), ActionView::Upload(data, i.mimetype)),
        Err(e) => StepView::Done(Err(e)),
    }
}

/// Posting a comic: measure its picture and upload it, then send the title
/// line, the picture under the title, and the alternative text. A picture
/// that does not decode, and any failure, ends the posting with that error.
pub open spec fn send_comic_step(state: ComicSendView, event: EventView, c: ComicView) -> StepView<
    ComicSendView,
    (),
> {
    match state {
        ComicSendView::Start => match c.data {
            Some(data) => upload_of(data, info_of(COMIC_MIME@, guessed_image(data), data.len())),
            None => StepView::Done(Err(NO_PICTURE@)),
        },
        ComicSendView::Uploading(info) => match event {
            EventView::Uploaded(url) => StepView::Next(
                ComicSendView::SendingTitle(ImageMessageView { body: c.title, url, info }),
                ActionView::SendText(title_line(c)),
            ),
            _ => StepView::Done(Err(refused(event))),
        },
        ComicSendView::SendingTitle(picture) => match event {
            EventView::Completed => StepView::Next(
                ComicSendView::SendingPicture,
                ActionView::SendImage(picture),
            ),
            _ => StepView::Done(Err(refused(event))),
        },
        ComicSendView::SendingPicture => match event {
            EventView::Completed => StepView::Next(
                ComicSendView::SendingAlt,
                ActionView::SendText(alt_line(c)),
            ),
            _ => StepView::Done(Err(refused(event))),
        },
        ComicSendView::SendingAlt => StepView::Done(acknowledged(event)),
    }
}

/// Asks for the upload of a picture, given its metadata or why it has none.
pub fn upload(data: Vec<u8>, info: Result<ImageInfo, TransportError>) -> (r: Step<ComicSend, ()>)
    ensures
        r@ == upload_of(data@, outcome(info)),
{
    match info {
        Ok(i) => {
            let mimetype = i.mimetype.clone();
            Step::Next(ComicSend::Uploading(i), Action::Upload(data, mimetype))
        },
        Err(e) => Step::Done(Err(e)),
    }
}

/// Runs the posting of a comic one step further.
pub fn send_comic(state: ComicSend, event: Event, c: &Comic) -> (r: Step<ComicSend, ()>)
    ensures
        r@ == send_comic_step(state@, event@, c@),
{
    match state {
        ComicSend::Start => match &c.data {
            Some(data) => {
                let info = describe(COMIC_MIME, measure(data), data.len());
                upload(copy_bytes(data), info)
            },
            None => Step::Done(Err(TransportError::new(String::from_str(NO_PICTURE)))),
        },
        ComicSend::Uploading(info) => match event {
            Event::Uploaded(url) => {
                let mut line = decimal_text(c.num);
                line.append(": ");
                line.append(c.title.as_str());
                let picture = ImageMessage { body: c.title.clone(), url, info };
                Step::Next(ComicSend::SendingTitle(picture), Action::SendText(line))
            },
            other => Step::Done(Err(refuse(other))),
        },
        ComicSend::SendingTitle(picture) => match event {
            Event::Completed => Step::Next(ComicSend::SendingPicture, Action::SendImage(picture)),
            other => Step::Done(Err(refuse(other))),
        },
        ComicSend::SendingPicture => match event {
            Event::Completed => {
                let mut line = String::from_str("Alt text: ");
                line.append(c.alt.as_str());
                Step::Next(ComicSend::SendingAlt, Action::SendText(line))
            },
            other => Step::Done(Err(refuse(other))),
        },
        ComicSend::SendingAlt => Step::Done(acknowledge(event)),
    }
}

} // verus!
