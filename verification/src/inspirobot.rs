//! The generated picture: asking the generator for one and posting it.

use crate::effect::{
    acknowledge, acknowledged, refuse, refused, Action, ActionView, Event, EventView, Step, StepView,
};
use crate::failure::{outcome, TransportError};
use crate::media::{
    describe, info_of, jpeg_image, measure_jpeg, ImageInfo, ImageInfoView, ImageMessage,
    ImageMessageView,
};
use crate::text::{decoded_text, read_utf8};
use crate::web::{locate, requested, validate_response, validated};
use vstd::prelude::*;

verus! {

/// Where the generator answers with the locator of a fresh picture.
pub const GENERATOR: &'static str = "http://inspirobot.me/api?generate=true";

/// The MIME type of the generator's pictures.
pub const PICTURE_MIME: &'static str = "image/jpeg";

/// The body text under which a generated picture is posted.
pub const PICTURE_BODY: &'static str = "inspirobot";

/// Where the posting of a generated picture stands.
#[derive(Debug, PartialEq, Eq)]
pub enum Inspiration {
    Start,
    FetchingLink,
    FetchingPicture,
    /// The picture is measured and being uploaded.
    Uploading(ImageInfo),
    SendingPicture,
}

/// What contracts see of a [`Inspiration`].
pub enum InspirationView {
    Start,
    FetchingLink,
    FetchingPicture,
    Uploading(ImageInfoView),
    SendingPicture,
}

impl View for Inspiration {
    type V = InspirationView;

    open spec fn view(&self) -> InspirationView {
        match *self {
            Inspiration::Start => InspirationView::Start,
            Inspiration::FetchingLink => InspirationView::FetchingLink,
            Inspiration::FetchingPicture => InspirationView::FetchingPicture,
            Inspiration::Uploading(i) => InspirationView::Uploading(i@),
            Inspiration::SendingPicture => InspirationView::SendingPicture,
        }
    }
}

/// The step after the generator answered, given its answer read as text:
/// the fetch of the picture that the text locates, or the reason why the
/// answer is no text.
pub open spec fn followed(link: Result<Seq<char>, Seq<char>>) -> StepView<InspirationView, ()> {
    match link {
        Ok(url) => requested(InspirationView::FetchingPicture, url),
        Err(why) => StepView::Done(Err(why)),
    }
}

/// The step after the picture arrived, given its metadata or why it has
/// none: the upload of the picture.
pub open spec fn offered(data: Seq<u8>, info: Result<ImageInfoView, Seq<char>>) -> StepView<
    InspirationView,
    (),
> {
    match info {
        Ok(i) => StepView::Next(InspirationView::Uploading(i), ActionView::Upload(data, i.mimetype)),
        Err(e) => StepView::Done(Err(e)),
    }
}

/// Posting a generated picture: ask the generator, fetch the picture that
/// its answer locates, measure it as a JPEG, upload it and send it. A
/// response is used only where its status reports success; every failure
/// ends the posting with that error.
pub open spec fn inspirobot_step(state: InspirationView, event: EventView) -> StepView<
    InspirationView,
    (),
> {
    match state {
        InspirationView::Start => requested(InspirationView::FetchingLink, GENERATOR@),
        InspirationView::FetchingLink => match event {
            EventView::Fetched(resp) => match validated(resp.status) {
                Ok(_) => followed(decoded_text(resp.body)),
                Err(e) => StepView::Done(Err(e)),
            },
            _ => StepView::Done(Err(refused(event))),
        },
        InspirationView::FetchingPicture => match event {
            EventView::Fetched(resp) => match validated(resp.status) {
                Ok(_) => offered(
                    resp.body,
                    info_of(PICTURE_MIME@, jpeg_image(resp.body), resp.body.len()),
                ),
                Err(e) => StepView::Done(Err(e)),
            },
            _ => StepView::Done(Err(refused(event))),
        },
        InspirationView::Uploading(info) => match event {
            EventView::Uploaded(url) => StepView::Next(
                InspirationView::SendingPicture,
                ActionView::SendImage(ImageMessageView { body: PICTURE_BODY@, url, info }),
            ),
            _ => StepView::Done(Err(refused(event))),
        },
        InspirationView::SendingPicture => StepView::Done(acknowledged(event)),
    }
}

/// Follows the generator's answer, given that answer read as text.
pub fn follow(link: Result<String, String>) -> (r: Step<Inspiration, ()>)
    ensures
        r@ == followed(
            match link {
                Ok(url) => Ok(url@),
                Err(why) => Err(why@),
            },
        ),
{
    match link {
        Ok(url) => match locate(url) {
            Ok(u) => Step::Next(Inspiration::FetchingPicture, Action::Fetch(u)),
            Err(e) => Step::Done(Err(e)),
        },
        Err(why) => Step::Done(Err(TransportError::new(why))),
    }
}

/// Offers a picture for upload, given its metadata or why it has none.
pub fn offer(data: Vec<u8>, info: Result<ImageInfo, TransportError>) -> (r: Step<Inspiration, ()>)
    ensures
        r@ == offered(data@, outcome(info)),
{
    match info {
        Ok(i) => {
            let mimetype = i.mimetype.clone();
            Step::Next(Inspiration::Uploading(i), Action::Upload(data, mimetype))
        },
        Err(e) => Step::Done(Err(e)),
    }
}

/// Runs the posting of a generated picture one step further.
pub fn inspirobot(state: Inspiration, event: Event) -> (r: Step<Inspiration, ()>)
    ensures
        r@ == inspirobot_step(state@, event@),
{
    match state {
        Inspiration::Start => match locate(String::from_str(GENERATOR)) {
            Ok(u) => Step::Next(Inspiration::FetchingLink, Action::Fetch(u)),
            Err(e) => Step::Done(Err(e)),
        },
        Inspiration::FetchingLink => match event {
            Event::Fetched(resp) => match validate_response(&resp) {
                Ok(_) => follow(read_utf8(resp.body)),
                Err(e) => Step::Done(Err(e)),
            },
            other => Step::Done(Err(refuse(other))),
        },
        Inspiration::FetchingPicture => match event {
            Event::Fetched(resp) => match validate_response(&resp) {
                Ok(_) => {
                    let info = describe(PICTURE_MIME, measure_jpeg(&resp.body), resp.body.len());
                    offer(resp.body, info)
                },
                Err(e) => Step::Done(Err(e)),
            },
            other => Step::Done(Err(refuse(other))),
        },
        Inspiration::Uploading(info) => match event {
            Event::Uploaded(url) => Step::Next(
                Inspiration::SendingPicture,
                Action::SendImage(ImageMessage { body: String::from_str(PICTURE_BODY), url, info }),
            ),
            other => Step::Done(Err(refuse(other))),
        },
        Inspiration::SendingPicture => Step::Done(acknowledge(event)),
    }
}

} // verus!
