//! The avatar pipeline: from the result of a directory lookup to the answer
//! that a client receives.
//!
//! Every request ends in exactly one of three ways: the thumbnail of the
//! entry's picture, the fallback picture as it was loaded, or an error.

use crate::config::ServerConfig;
use crate::directory::{
    copy_bytes, first_value_of, found, rejection_of, transition_of, DirectoryEntry, LookupResult,
    LookupResultView, ReplyView, Stage, TransitionView, RESULT_SUCCESS,
};
use crate::normalizer::{
    normalize, normalized_has_its_side, normalizes_to, result_view, NormalizeError,
    NormalizedImage, NormalizedImageView,
};
use crate::sizing::{effective_side_of, side_in_range, DEFAULT_SIDE, MAX_SIDE, MIN_SIDE};
use image::ImageError;
use vstd::prelude::*;
use vstd::string::*;
use vstd::utf8::encode_utf8;

verus! {

/// Text in front of the reason why the directory could not be reached.
pub const ERR_CONNECTION: &'static str = "Connection error: ";

/// Text in front of the reason why the bind was rejected.
pub const ERR_BIND: &'static str = "Binding as bind_dn error: ";

/// Text in front of the reason why the search failed.
pub const ERR_SEARCH: &'static str = "Object search error: ";

/// Message for a picture that decodes but cannot be resampled.
pub const ERR_DIMENSIONS: &'static str = "The image dimensions are not supported";

/// What a client asks for: the picture of the person with an e-mail address,
/// as a square of `size` pixels. Neither is checked on the way in: the address
/// goes into the search as it is, and a size that is not served is replaced.
#[derive(Clone, Debug, PartialEq, Eq)]
pub struct AvatarRequest {
    pub identifier: String,
    pub size: u32,
}

/// Why a request ended without a picture.
#[derive(Debug)]
pub enum AvatarError {
    /// The directory could not be reached.
    Connection(String),
    /// The directory rejected the bind.
    Bind(String),
    /// The search failed.
    Search(String),
    /// The entry's picture could not be turned into a thumbnail.
    Picture(NormalizeError),
}

/// The kinds of error that a request can end in.
#[derive(Clone, Copy, Debug, PartialEq, Eq, Structural)]
pub enum ErrorKind {
    Connection,
    Bind,
    Search,
    Decode,
    Encode,
}

/// How a request ended.
#[derive(Debug)]
pub enum Outcome {
    /// The thumbnail of the entry's picture, as JPEG.
    Image(NormalizedImage),
    /// The fallback picture, exactly as configured.
    Fallback(Vec<u8>),
    /// No picture.
    Failure(AvatarError),
}

/// Status of an answer.
#[derive(Clone, Copy, Debug, PartialEq, Eq, Structural)]
pub enum Status {
    /// The request was served: HTTP 200.
    Success,
    /// The request failed on the server's side: HTTP 500.
    ServerError,
}

/// Media type of an answer's body.
#[derive(Clone, Copy, Debug, PartialEq, Eq, Structural)]
pub enum ContentType {
    Jpeg,
    Png,
    Text,
}

/// The answer to a request.
#[derive(Clone, Debug, PartialEq, Eq)]
pub struct Response {
    pub status: Status,
    pub content_type: ContentType,
    pub body: Vec<u8>,
}

/// `AvatarError` with its texts as sequences of characters.
pub enum AvatarErrorView {
    Connection(Seq<char>),
    Bind(Seq<char>),
    Search(Seq<char>),
    Picture(NormalizeError),
}

/// `Outcome` with its contents as sequences.
pub enum OutcomeView {
    Image(NormalizedImageView),
    Fallback(Seq<u8>),
    Failure(AvatarErrorView),
}

impl View for AvatarError {
    type V = AvatarErrorView;

    open spec fn view(&self) -> AvatarErrorView {
        match *self {
            AvatarError::Connection(detail) => AvatarErrorView::Connection(detail@),
            AvatarError::Bind(detail) => AvatarErrorView::Bind(detail@),
            AvatarError::Search(detail) => AvatarErrorView::Search(detail@),
            AvatarError::Picture(error) => AvatarErrorView::Picture(error),
        }
    }
}

impl View for Outcome {
    type V = OutcomeView;

    open spec fn view(&self) -> OutcomeView {
        match *self {
            Outcome::Image(image) => OutcomeView::Image(image@),
            Outcome::Fallback(bytes) => OutcomeView::Fallback(bytes@),
            Outcome::Failure(error) => OutcomeView::Failure(error@),
        }
    }
}

/// The kind of an error. A picture that cannot be resampled counts as one
/// that cannot be decoded.
pub open spec fn kind_of(error: AvatarErrorView) -> ErrorKind {
    match error {
        AvatarErrorView::Connection(_) => ErrorKind::Connection,
        AvatarErrorView::Bind(_) => ErrorKind::Bind,
        AvatarErrorView::Search(_) => ErrorKind::Search,
        AvatarErrorView::Picture(NormalizeError::Decode(_)) => ErrorKind::Decode,
        AvatarErrorView::Picture(NormalizeError::Dimensions { .. }) => ErrorKind::Decode,
        AvatarErrorView::Picture(NormalizeError::Encode(_)) => ErrorKind::Encode,
    }
}

/// Whether `text` is what the codec's error displays as.
///
/// This is a relation and no function of the error. A codec error may wrap
/// any other error and shows that error's own words; for an error of the
/// operating system those differ from one system and one locale to the next.
pub open spec fn is_display_of(error: ImageError, text: Seq<char>) -> bool {
    exists|shown: String| #[trigger]
        to_string_from_display_ensures::<ImageError>(&error, shown) && shown@ == text
}

/// Whether `text` is the message of `error`: for the directory's errors the
/// reason behind a fixed prefix, for the codec's errors what they display as.
pub open spec fn is_message_of(error: AvatarErrorView, text: Seq<char>) -> bool {
    match error {
        AvatarErrorView::Connection(detail) => text == ERR_CONNECTION@ + detail,
        AvatarErrorView::Bind(detail) => text == ERR_BIND@ + detail,
        AvatarErrorView::Search(detail) => text == ERR_SEARCH@ + detail,
        AvatarErrorView::Picture(NormalizeError::Decode(error)) => is_display_of(error, text),
        AvatarErrorView::Picture(NormalizeError::Dimensions { .. }) => text == ERR_DIMENSIONS@,
        AvatarErrorView::Picture(NormalizeError::Encode(error)) => is_display_of(error, text),
    }
}

/// How a request ends whose picture was turned into a thumbnail, or could not
/// be.
pub open spec fn outcome_of_picture(result: Result<NormalizedImageView, NormalizeError>) -> OutcomeView {
    match result {
        Ok(image) => OutcomeView::Image(image),
        Err(error) => OutcomeView::Failure(AvatarErrorView::Picture(error)),
    }
}

/// Whether `outcome` is how a request may end whose picture attribute held
/// `bytes`: the outcome of something that these bytes may be turned into.
pub open spec fn resolves_picture(bytes: Seq<u8>, requested: u32, outcome: OutcomeView) -> bool {
    exists|result: Result<NormalizedImageView, NormalizeError>| #[trigger]
        normalizes_to(bytes, requested, result) && outcome == outcome_of_picture(result)
}

/// Whether `outcome` is how a request for a side length of `requested` may
/// end, given the result of its lookup and the fallback picture.
///
/// Without a picture the outcome is fixed: the fallback, or the error of the
/// directory. With one it is what the picture's bytes are turned into: which
/// pixels the decoder and the resampler return is theirs to say, all else is
/// fixed.
pub open spec fn resolves_to(
    fallback: Seq<u8>,
    requested: u32,
    lookup: LookupResultView,
    outcome: OutcomeView,
) -> bool {
    match lookup {
        LookupResultView::Value(bytes) => resolves_picture(bytes, requested, outcome),
        LookupResultView::Absent => outcome == OutcomeView::Fallback(fallback),
        LookupResultView::ConnectionError(detail) => outcome == OutcomeView::Failure(
            AvatarErrorView::Connection(detail),
        ),
        LookupResultView::BindError(detail) => outcome == OutcomeView::Failure(
            AvatarErrorView::Bind(detail),
        ),
        LookupResultView::SearchError(detail) => outcome == OutcomeView::Failure(
            AvatarErrorView::Search(detail),
        ),
    }
}

/// A request whose entry holds a picture ends in a thumbnail or in an error
/// of the codec, and the thumbnail is a square whose side is the requested
/// one where that is served and the default one otherwise.
pub proof fn resolved_picture_has_its_side(bytes: Seq<u8>, requested: u32, outcome: OutcomeView)
    requires
        resolves_picture(bytes, requested, outcome),
    ensures
        outcome is Image || outcome matches OutcomeView::Failure(AvatarErrorView::Picture(_)),
        outcome matches OutcomeView::Image(image) ==> {
            &&& image.side == effective_side_of(requested)
            &&& MIN_SIDE <= image.side <= MAX_SIDE
            &&& side_in_range(requested) ==> image.side == requested
            &&& !side_in_range(requested) ==> image.side == DEFAULT_SIDE
        },
{
    let result = choose|result: Result<NormalizedImageView, NormalizeError>| #[trigger]
        normalizes_to(bytes, requested, result) && outcome == outcome_of_picture(result);
    normalized_has_its_side(bytes, requested, result);
}

/// Whether `response` answers a request that ended in `outcome`.
pub open spec fn answers(outcome: OutcomeView, response: Response) -> bool {
    match outcome {
        OutcomeView::Image(image) => {
            &&& response.status == Status::Success
            &&& response.content_type == ContentType::Jpeg
            &&& response.body@ == image.jpeg
        },
        OutcomeView::Fallback(bytes) => {
            &&& response.status == Status::Success
            &&& response.content_type == ContentType::Png
            &&& response.body@ == bytes
        },
        OutcomeView::Failure(error) => {
            &&& response.status == Status::ServerError
            &&& response.content_type == ContentType::Text
            &&& exists|text: Seq<char>| #[trigger]
                is_message_of(error, text) && response.body@ == encode_utf8(text)
        },
    }
}

impl AvatarError {
    /// The kind of this error.
    pub fn kind(&self) -> (kind: ErrorKind)
        ensures
            kind == kind_of(self@),
    {
        match self {
            AvatarError::Connection(_) => ErrorKind::Connection,
            AvatarError::Bind(_) => ErrorKind::Bind,
            AvatarError::Search(_) => ErrorKind::Search,
            AvatarError::Picture(NormalizeError::Decode(_)) => ErrorKind::Decode,
            AvatarError::Picture(NormalizeError::Dimensions { .. }) => ErrorKind::Decode,
            AvatarError::Picture(NormalizeError::Encode(_)) => ErrorKind::Encode,
        }
    }

    /// The message sent to the client.
    pub fn message(&self) -> (text: String)
        ensures
            is_message_of(self@, text@),
    {
        match self {
            AvatarError::Connection(detail) => String::from_str(ERR_CONNECTION).concat(
                detail.as_str(),
            ),
            AvatarError::Bind(detail) => String::from_str(ERR_BIND).concat(detail.as_str()),
            AvatarError::Search(detail) => String::from_str(ERR_SEARCH).concat(detail.as_str()),
            AvatarError::Picture(NormalizeError::Decode(error)) => error.to_string(),
            AvatarError::Picture(NormalizeError::Dimensions { .. }) => String::from_str(
                ERR_DIMENSIONS,
            ),
            AvatarError::Picture(NormalizeError::Encode(error)) => error.to_string(),
        }
    }
}

/// Turns what became of a picture into the outcome of its request: the
/// thumbnail, or the error of the codec.
pub fn picture_outcome(result: Result<NormalizedImage, NormalizeError>) -> (outcome: Outcome)
    ensures
        outcome@ == outcome_of_picture(result_view(result)),
{
    match result {
        Ok(image) => Outcome::Image(image),
        Err(error) => Outcome::Failure(AvatarError::Picture(error)),
    }
}

/// Classifies the result of a lookup: a picture is turned into its
/// thumbnail, a missing picture is replaced by the fallback as it was loaded,
/// and a failure of the directory or of the codec becomes the error.
///
/// A thumbnail is always a square whose side lies in `MIN_SIDE..=MAX_SIDE`.
/// The fallback is never resized.
pub fn resolve(config: &ServerConfig, request: &AvatarRequest, lookup: LookupResult) -> (outcome:
    Outcome)
    ensures
        resolves_to(config.default_image@, request.size, lookup@, outcome@),
        outcome matches Outcome::Image(image) ==> image.wf() && image.side == effective_side_of(
            request.size,
        ),
{
    match lookup {
        LookupResult::Value(bytes) => {
            let result = normalize(bytes.as_slice(), request.size);
            let ghost made = result_view(result);
            let outcome = picture_outcome(result);
            assert(normalizes_to(bytes@, request.size, made) && outcome@ == outcome_of_picture(
                made,
            ));
            outcome
        },
        LookupResult::Absent => Outcome::Fallback(copy_bytes(&config.default_image)),
        LookupResult::ConnectionError(detail) => Outcome::Failure(AvatarError::Connection(detail)),
        LookupResult::BindError(detail) => Outcome::Failure(AvatarError::Bind(detail)),
        LookupResult::SearchError(detail) => Outcome::Failure(AvatarError::Search(detail)),
    }
}

/// Renders the outcome of a request as the answer to the client: a thumbnail
/// as JPEG, the fallback under the media type of the fallback picture, an
/// error as its message in plain text with the status of a server error.
pub fn respond(outcome: Outcome) -> (response: Response)
    ensures
        answers(outcome@, response),
{
    match outcome {
        Outcome::Image(image) => Response {
            status: Status::Success,
            content_type: ContentType::Jpeg,
            body: image.jpeg,
        },
        Outcome::Fallback(bytes) => Response {
            status: Status::Success,
            content_type: ContentType::Png,
            body: bytes,
        },
        Outcome::Failure(error) => {
            let text = error.message();
            let body = text.as_str().as_bytes_vec();
            assert(is_message_of(error@, text@) && body@ == encode_utf8(text@));
            Response { status: Status::ServerError, content_type: ContentType::Text, body }
        },
    }
}

/// Where the search brings no entry, or a first entry without a value of the
/// picture attribute, the lookup ends as absent and the answer is the fallback
/// picture, byte for byte, whatever side length was asked for.
pub proof fn missing_picture_serves_fallback(
    config: ServerConfig,
    identifier: Seq<char>,
    requested: u32,
    detail: Seq<char>,
    entries: Seq<DirectoryEntry>,
    outcome: OutcomeView,
    response: Response,
)
    requires
        first_value_of(entries, config.attr@) is None,
        resolves_to(config.default_image@, requested, found(entries, config.attr@), outcome),
        answers(outcome, response),
    ensures
        transition_of(
            config,
            identifier,
            Stage::Searching,
            ReplyView::Answered { code: RESULT_SUCCESS, detail, entries },
        ) == TransitionView::Finished(LookupResultView::Absent),
        outcome == OutcomeView::Fallback(config.default_image@),
        response.status == Status::Success,
        response.content_type == ContentType::Png,
        response.body@ == config.default_image@,
{
}

/// Where the first entry of the search holds a picture and the codec makes a
/// thumbnail of it, the answer is a success of the JPEG media type with the
/// thumbnail's bytes, and the thumbnail is a square whose side is the
/// requested one where that is served and the default one otherwise.
pub proof fn picture_is_served_as_jpeg(
    config: ServerConfig,
    identifier: Seq<char>,
    requested: u32,
    detail: Seq<char>,
    entries: Seq<DirectoryEntry>,
    outcome: OutcomeView,
    response: Response,
)
    requires
        first_value_of(entries, config.attr@) is Some,
        resolves_to(config.default_image@, requested, found(entries, config.attr@), outcome),
        outcome is Image,
        answers(outcome, response),
    ensures
        transition_of(
            config,
            identifier,
            Stage::Searching,
            ReplyView::Answered { code: RESULT_SUCCESS, detail, entries },
        ) == TransitionView::Finished(
            LookupResultView::Value(first_value_of(entries, config.attr@)->Some_0),
        ),
        response.status == Status::Success,
        response.content_type == ContentType::Jpeg,
        response.body@ == outcome->Image_0.jpeg,
        MIN_SIDE <= outcome->Image_0.side <= MAX_SIDE,
        side_in_range(requested) ==> outcome->Image_0.side == requested,
        !side_in_range(requested) ==> outcome->Image_0.side == DEFAULT_SIDE,
{
    resolved_picture_has_its_side(
        first_value_of(entries, config.attr@)->Some_0,
        requested,
        outcome,
    );
}

/// Where the first entry of the search holds a picture, the request ends in
/// a thumbnail or in an error of the codec: never in the fallback, and never
/// in an error of the directory.
pub proof fn picture_is_never_replaced(
    config: ServerConfig,
    requested: u32,
    entries: Seq<DirectoryEntry>,
    outcome: OutcomeView,
    response: Response,
)
    requires
        first_value_of(entries, config.attr@) is Some,
        resolves_to(config.default_image@, requested, found(entries, config.attr@), outcome),
        answers(outcome, response),
    ensures
        outcome is Image || outcome matches OutcomeView::Failure(AvatarErrorView::Picture(_)),
        outcome is Image <==> response.status == Status::Success,
        outcome is Image <==> response.content_type == ContentType::Jpeg,
        !(outcome is Image) <==> response.content_type == ContentType::Text,
{
    resolved_picture_has_its_side(
        first_value_of(entries, config.attr@)->Some_0,
        requested,
        outcome,
    );
}

/// A request to the directory that could not be carried out, or that the
/// directory answered with an error code, is answered as a server error in
/// plain text, and the text names the stage that failed: no picture is sent.
pub proof fn directory_failure_is_reported(
    config: ServerConfig,
    identifier: Seq<char>,
    requested: u32,
    stage: Stage,
    reply: ReplyView,
    outcome: OutcomeView,
    response: Response,
)
    requires
        rejection_of(reply) is Some,
        transition_of(config, identifier, stage, reply) matches TransitionView::Finished(lookup)
            && resolves_to(config.default_image@, requested, lookup, outcome),
        answers(outcome, response),
    ensures
        response.status == Status::ServerError,
        response.content_type == ContentType::Text,
        response.body@ == encode_utf8(
            match stage {
                Stage::Connecting => ERR_CONNECTION@,
                Stage::Binding => ERR_BIND@,
                Stage::Searching => ERR_SEARCH@,
            } + rejection_of(reply)->Some_0,
        ),
{
}

/// An answer of the directory with an error code ends the lookup at once with
/// the error of the stage that was answered, whatever entries came with it.
pub proof fn error_code_ends_the_lookup(
    config: ServerConfig,
    identifier: Seq<char>,
    stage: Stage,
    code: u32,
    detail: Seq<char>,
    entries: Seq<DirectoryEntry>,
)
    requires
        code != RESULT_SUCCESS,
    ensures
        transition_of(config, identifier, stage, ReplyView::Answered { code, detail, entries })
            == transition_of(config, identifier, stage, ReplyView::Failure(detail)),
        transition_of(config, identifier, stage, ReplyView::Answered { code, detail, entries })
            is Finished,
{
}

} // verus!
