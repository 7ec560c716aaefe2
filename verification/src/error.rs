//! The errors of extractor operations.
use vstd::prelude::*;

use crate::auth::Error;

verus! {

/// Enumerates the possible errors that can arise during extractor operations.
///
/// The variants whose cause is a channel, a connection, a JSON parse or an
/// integer conversion carry no payload here: the part of the program that
/// met the cause reports it.
#[derive(Debug)]
pub enum ExtractorError {
    /// A post could not be sent through a synchronous channel.
    SyncChannelSendFail,
    /// A post could not be sent through an asynchronous channel.
    ChannelSendFail,
    /// Page zero was requested.
    ZeroPage,
    /// More tags than the imageboard supports.
    TooManyTags { current: usize, max: u64 },
    /// The imageboard returned no posts for the tag selection.
    ZeroPosts,
    /// The imageboard returned a response of unexpected shape.
    InvalidServerResponse,
    /// A network request failed.
    ConnectionError,
    /// Authentication with the imageboard failed.
    AuthenticationFailure { source: Error },
    /// A JSON response could not be decoded.
    JsonSerializeFail,
    /// Raw posts could not be mapped to posts.
    PostMapFailure,
    /// The extractor does not support this imageboard.
    InvalidImageboard { imgboard: String },
    /// A state that the extractor logic never reaches.
    ImpossibleBehavior,
    /// The imageboard or its configuration does not support the operation.
    UnsupportedOperation,
    /// A number did not fit the narrower integer type.
    IntConversionFail,
    /// A count could not be sent to the progress counter.
    SendLengthFail,
    /// A post lacks a field that downloading needs.
    MissingField { field: String },
    /// The blacklist configuration could not be decoded.
    BlacklistDecodeError { path: String },
}

} // verus!
