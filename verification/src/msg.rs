use vstd::prelude::*;

verus! {

/// Why a stage of a fetch cycle failed. Every kind collapses to the same
/// outcome at the reducer boundary: the component returns to idle and keeps
/// whatever content it already had.
pub enum FetchError {
    /// The request never completed (network unreachable, connection reset).
    Transport,
    /// The server answered with a status outside the 2xx range.
    Protocol,
    /// The response body could not be decoded into the expected shape.
    Decode,
    /// The configured tree index lies outside the returned listing.
    Selection,
}

/// A message processed by the component reducer.
///
/// Completions carry the epoch of the fetch cycle that issued the request,
/// so the reducer can discard a late answer of a superseded cycle.
pub enum Msg {
    /// The user asked for a new fetch cycle.
    FetchData,
    /// The directory-listing request finished; on success the payload is the
    /// URL of the selected blob.
    FetchDataReady(u64, Result<String, FetchError>),
    /// The blob request finished; on success the payload is the base64
    /// content, possibly wrapped with newline characters.
    FetchImageReady(u64, Result<String, FetchError>),
    /// A completion to swallow. While a cycle is in flight it ends the cycle;
    /// when the component is idle it does nothing and asks for no re-render.
    Ignore,
}

/// What the environment must do after a reducer step: nothing, or issue one
/// GET request with the given `Authorization` value and hand its completion
/// back as a `Msg` stamped with `epoch`.
pub enum Action {
    Nothing,
    FetchTree { epoch: u64, url: String, auth: String },
    FetchBlob { epoch: u64, url: String, auth: String },
}

} // verus!
