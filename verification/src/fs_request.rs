//! The API request that configures the virtio-fs device.
use crate::fs_config::{FsConfig, FsConfigError};
use vstd::prelude::*;

verus! {

/// Status of an HTTP response.
#[derive(Clone, Copy, Debug, PartialEq, Eq, Structural)]
pub enum StatusCode {
    /// 400, Bad Request.
    BadRequest,
}

/// Why a request is rejected. `I` is the error of an identifier that is not valid.
#[derive(Debug)]
pub enum RequestError<I> {
    /// The path has no identifier.
    EmptyID,
    /// The identifier is not valid.
    InvalidID(I),
    /// The request is answered with this status and text.
    Generic(StatusCode, String),
    /// The body is not a configuration.
    SerdeJson(serde_json::Error),
}

/// The text for a body whose identifier is not that of the path.
pub const ID_MISMATCH: &'static str = "The id from the path does not match the id from the body!";

/// Decides on a request to configure the device. `id_from_path` is the identifier in the path, if
/// there is one, or what is wrong with it; `body` is what was parsed from the body.
pub fn parse_put_fs<I>(
    body: Result<FsConfig, serde_json::Error>,
    id_from_path: Option<Result<&str, I>>,
) -> (parsed: Result<FsConfig, RequestError<I>>)
    ensures
        match id_from_path {
            None => parsed == Err::<FsConfig, _>(RequestError::<I>::EmptyID),
            Some(Err(e)) => parsed == Err::<FsConfig, _>(RequestError::<I>::InvalidID(e)),
            Some(Ok(id)) => match body {
                Err(e) => parsed == Err::<FsConfig, _>(RequestError::<I>::SerdeJson(e)),
                Ok(config) => if id@ != config.fs_id@ {
                    parsed matches Err(RequestError::Generic(StatusCode::BadRequest, text))
                        && text@ == ID_MISMATCH@
                } else if config.socket_path@.len() == 0 {
                    parsed matches Err(RequestError::Generic(StatusCode::BadRequest, text))
                        && text@ == FsConfigError::EmptySocketPath.text()
                } else if !crate::fs_config::tag_valid(config.tag@) {
                    parsed matches Err(RequestError::Generic(StatusCode::BadRequest, text))
                        && text@ == FsConfigError::InvalidTag.text()
                } else {
                    parsed == Ok::<_, RequestError<I>>(config)
                },
            },
        },
{
    let id = match id_from_path {
        Some(Ok(id)) => id,
        Some(Err(e)) => {
            return Err(RequestError::InvalidID(e));
        },
        None => {
            return Err(RequestError::EmptyID);
        },
    };
    let config = match body {
        Ok(config) => config,
        Err(e) => {
            return Err(RequestError::SerdeJson(e));
        },
    };
    if id.to_owned() != config.fs_id {
        return Err(RequestError::Generic(StatusCode::BadRequest, ID_MISMATCH.to_owned()));
    }
    match config.validate() {
        Ok(_) => Ok(config),
        Err(e) => Err(RequestError::Generic(StatusCode::BadRequest, e.message())),
    }
}

/// A request is accepted exactly where its path has a valid identifier, its body is a configuration
/// for that identifier, and the configuration is valid. What is accepted is the body, unchanged.
pub proof fn law_accepted_requests_are_consistent<'a, I>(
    body: Result<FsConfig, serde_json::Error>,
    id_from_path: Option<Result<&'a str, I>>,
    parsed: Result<FsConfig, RequestError<I>>,
)
    requires
        call_ensures(parse_put_fs::<I>, (body, id_from_path), parsed),
    ensures
        parsed is Ok <==> {
            &&& id_from_path is Some
            &&& id_from_path->0 is Ok
            &&& body is Ok
            &&& id_from_path->0->Ok_0@ == body->Ok_0.fs_id@
            &&& body->Ok_0.socket_path@.len() > 0
            &&& 1 <= vstd::utf8::encode_utf8(body->Ok_0.tag@).len() <= 36
            &&& !vstd::utf8::encode_utf8(body->Ok_0.tag@).contains(0u8)
        },
        parsed is Ok ==> parsed->Ok_0 == body->Ok_0,
        parsed is Err && parsed->Err_0 is EmptyID <==> id_from_path is None,
        parsed is Err && parsed->Err_0 is InvalidID <==> id_from_path is Some
            && id_from_path->0 is Err,
        parsed is Err && parsed->Err_0 is SerdeJson <==> id_from_path is Some
            && id_from_path->0 is Ok && body is Err,
        id_from_path is Some && id_from_path->0 is Ok && body is Ok && id_from_path->0->Ok_0@
            != body->Ok_0.fs_id@ ==> {
            &&& parsed->Err_0 is Generic
            &&& parsed->Err_0->Generic_0 is BadRequest
            &&& parsed->Err_0->Generic_1@
                == "The id from the path does not match the id from the body!"@
        },
{
    if body is Ok {
        crate::fs_config::lemma_nul_byte(body->Ok_0.tag@);
    }
}

} // verus!
