//! The request that the `imgflip` crate sends to the captioning service, built from a
//! `CaptionRequest` through the crate's builders.
//!
//! The crate's types keep their fields to themselves. What a value of them holds is therefore
//! named here, and the contracts of the crate's functions say how the names change.

use crate::command::{texts, CaptionRequest};
use vstd::prelude::*;

verus! {

/// `imgflip::CaptionBoxBuilder`, of which nothing is seen here.
#[verifier::external_type_specification]
#[verifier::external_body]
pub struct ExCaptionBoxBuilder(imgflip::CaptionBoxBuilder);

/// `imgflip::CaptionBox`, of which nothing is seen here.
#[verifier::external_type_specification]
#[verifier::external_body]
pub struct ExCaptionBox(imgflip::CaptionBox);

/// `imgflip::CaptionBoxesRequestBuilder`, of which nothing is seen here.
#[verifier::external_type_specification]
#[verifier::external_body]
pub struct ExCaptionBoxesRequestBuilder(imgflip::CaptionBoxesRequestBuilder);

/// `imgflip::CaptionBoxesRequest`, of which nothing is seen here.
#[verifier::external_type_specification]
#[verifier::external_body]
pub struct ExCaptionBoxesRequest(imgflip::CaptionBoxesRequest);

/// The text that a builder of a caption box was given.
pub uninterp spec fn pending_text(builder: imgflip::CaptionBoxBuilder) -> Seq<char>;

/// The text of a caption box.
pub uninterp spec fn box_text(caption: imgflip::CaptionBox) -> Seq<char>;

/// What a builder of a request has been given so far: the template's identifier and the texts
/// of the caption boxes, in the order in which they were added.
pub uninterp spec fn pending_request(builder: imgflip::CaptionBoxesRequestBuilder) -> (
    Seq<char>,
    Seq<Seq<char>>,
);

/// What a request asks for: the template's identifier and the texts of the caption boxes, in
/// order.
pub uninterp spec fn request_content(request: imgflip::CaptionBoxesRequest) -> (
    Seq<char>,
    Seq<Seq<char>>,
);

/// `imgflip::CaptionBoxBuilder::new`: the builder holds the text that it was given.
#[verifier::external_body]
fn caption_box_builder(text: &str) -> (builder: imgflip::CaptionBoxBuilder)
    ensures
        pending_text(builder) == text@,
{
    imgflip::CaptionBoxBuilder::new(text)
}

/// `imgflip::CaptionBoxBuilder::build`: the box has the builder's text.
pub assume_specification[ imgflip::CaptionBoxBuilder::build ](
    builder: imgflip::CaptionBoxBuilder,
) -> (caption: imgflip::CaptionBox)
    ensures
        box_text(caption) == pending_text(builder),
;

/// `imgflip::CaptionBoxesRequestBuilder::new`: the builder holds the template's identifier and
/// no caption box yet.
#[verifier::external_body]
fn request_builder(template: &str) -> (builder: imgflip::CaptionBoxesRequestBuilder)
    ensures
        pending_request(builder) == (template@, Seq::<Seq<char>>::empty()),
{
    imgflip::CaptionBoxesRequestBuilder::new(template)
}

/// `imgflip::CaptionBoxesRequestBuilder::caption_box`: the box is added behind those that the
/// builder holds, and the template stays.
pub assume_specification[ imgflip::CaptionBoxesRequestBuilder::caption_box ](
    builder: imgflip::CaptionBoxesRequestBuilder,
    caption_box: imgflip::CaptionBox,
) -> (extended: imgflip::CaptionBoxesRequestBuilder)
    ensures
        pending_request(extended) == (
            pending_request(builder).0,
            pending_request(builder).1.push(box_text(caption_box)),
        ),
;

/// `imgflip::CaptionBoxesRequestBuilder::build`: the request asks for what the builder holds.
pub assume_specification[ imgflip::CaptionBoxesRequestBuilder::build ](
    builder: imgflip::CaptionBoxesRequestBuilder,
) -> (request: imgflip::CaptionBoxesRequest)
    ensures
        request_content(request) == pending_request(builder),
;

/// Builds the captioning service's request: the template of `request`, and one caption box for
/// each of its texts, in their order.
pub fn build_caption(request: &CaptionRequest) -> (built: imgflip::CaptionBoxesRequest)
    ensures
        request_content(built) == (request@.template, request@.boxes),
{
    let mut builder = request_builder(request.template.as_str());
    let mut i: usize = 0;
    while i < request.boxes.len()
        invariant
            i <= request.boxes.len(),
            pending_request(builder) == (request.template@, texts(request.boxes@.take(i as int))),
        decreases request.boxes.len() - i,
    {
        let caption = caption_box_builder(request.boxes[i].as_str()).build();
        assert(texts(request.boxes@.take(i + 1)) == texts(request.boxes@.take(i as int)).push(
            request.boxes@[i as int]@,
        ));
        builder = builder.caption_box(caption);
        i += 1;
    }
    assert(request.boxes@.take(i as int) == request.boxes@);
    builder.build()
}

} // verus!
