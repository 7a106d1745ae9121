//! Typed responses and the error taxonomy.
//!
//! A call fails either in transport (network failure or non-success status)
//! or in decoding (a JSON body that does not match the expected shape).
//! Both are explicit result variants; nothing here panics. The functions
//! that assemble a record from individually decoded fields state exactly
//! when they succeed: all required fields present, or a `DecodeError`.

use vstd::prelude::*;

verus! {

/// Why a call failed: the request never got a successful response, or the
/// response body did not have the expected shape.
#[derive(Clone, Copy, Debug, PartialEq, Eq, Structural)]
pub enum ApiError {
    TransportError,
    DecodeError,
}

/// One wrapper library listed by the index operation.
#[derive(Clone, Debug)]
pub struct WrapperInfo {
    pub author: String,
    pub url: String,
}

/// The record the index operation returns.
#[derive(Clone, Debug)]
pub struct IndexAPIResponse {
    pub support_server: String,
    pub endpoints: Vec<String>,
    pub wrappers: Vec<(String, WrapperInfo)>,
}

/// The record the color-lookup operation returns.
#[derive(Clone, Debug)]
pub struct ColorAPIResponse {
    pub blackorwhite_text: String,
    pub brightness: i32,
    pub hex: String,
    pub image: String,
    pub image_gradient: String,
    pub int: i64,
    pub name: String,
    pub rgb: String,
    pub rgb_values: Vec<(String, i32)>,
    pub shade: Vec<String>,
    pub tint: Vec<String>,
}

/// The fields of a color record as a decoder found them: `None` where the
/// body lacked the field or had it with the wrong type.
pub struct ColorParts {
    pub blackorwhite_text: Option<String>,
    pub brightness: Option<i32>,
    pub hex: Option<String>,
    pub image: Option<String>,
    pub image_gradient: Option<String>,
    pub int: Option<i64>,
    pub name: Option<String>,
    pub rgb: Option<String>,
    pub rgb_values: Option<Vec<(String, i32)>>,
    pub shade: Option<Vec<String>>,
    pub tint: Option<Vec<String>>,
}

impl ColorParts {
    /// All required fields of a color record are present.
    pub open spec fn complete(&self) -> bool {
        &&& self.blackorwhite_text is Some
        &&& self.brightness is Some
        &&& self.hex is Some
        &&& self.image is Some
        &&& self.image_gradient is Some
        &&& self.int is Some
        &&& self.name is Some
        &&& self.rgb is Some
        &&& self.rgb_values is Some
        &&& self.shade is Some
        &&& self.tint is Some
    }
}

/// Assembles a color record from its decoded fields: succeeds exactly when
/// every required field is present, carries each field over unchanged, and
/// yields a decode error — never a partial record — otherwise.
pub fn color_from_parts(parts: ColorParts) -> (r: Result<ColorAPIResponse, ApiError>)
    ensures
        r is Ok <==> parts.complete(),
        r is Ok ==> {
            let c = r->Ok_0;
            &&& c.blackorwhite_text == parts.blackorwhite_text->0
            &&& c.brightness == parts.brightness->0
            &&& c.hex == parts.hex->0
            &&& c.image == parts.image->0
            &&& c.image_gradient == parts.image_gradient->0
            &&& c.int == parts.int->0
            &&& c.name == parts.name->0
            &&& c.rgb == parts.rgb->0
            &&& c.rgb_values == parts.rgb_values->0
            &&& c.shade == parts.shade->0
            &&& c.tint == parts.tint->0
        },
        r is Err ==> r->Err_0 == ApiError::DecodeError,
{
    match (parts.blackorwhite_text, parts.brightness, parts.hex, parts.image,
        parts.image_gradient, parts.int, parts.name, parts.rgb, parts.rgb_values, parts.shade,
        parts.tint) {
        (
            Some(blackorwhite_text),
            Some(brightness),
            Some(hex),
            Some(image),
            Some(image_gradient),
            Some(int_value),
            Some(name),
            Some(rgb),
            Some(rgb_values),
            Some(shade),
            Some(tint),
        ) => Ok(
            ColorAPIResponse {
                blackorwhite_text,
                brightness,
                hex,
                image,
                image_gradient,
                int: int_value,
                name,
                rgb,
                rgb_values,
                shade,
                tint,
            },
        ),
        _ => Err(ApiError::DecodeError),
    }
}

/// The fields of an index record as a decoder found them.
pub struct IndexParts {
    pub support_server: Option<String>,
    pub endpoints: Option<Vec<String>>,
    pub wrappers: Option<Vec<(String, WrapperInfo)>>,
}

impl IndexParts {
    /// All required fields of an index record are present.
    pub open spec fn complete(&self) -> bool {
        &&& self.support_server is Some
        &&& self.endpoints is Some
        &&& self.wrappers is Some
    }
}

/// Assembles an index record from its decoded fields: succeeds exactly when
/// every required field is present, carries each field over unchanged, and
/// yields a decode error otherwise.
pub fn index_from_parts(parts: IndexParts) -> (r: Result<IndexAPIResponse, ApiError>)
    ensures
        r is Ok <==> parts.complete(),
        r is Ok ==> {
            let x = r->Ok_0;
            &&& x.support_server == parts.support_server->0
            &&& x.endpoints == parts.endpoints->0
            &&& x.wrappers == parts.wrappers->0
        },
        r is Err ==> r->Err_0 == ApiError::DecodeError,
{
    match (parts.support_server, parts.endpoints, parts.wrappers) {
        (Some(support_server), Some(endpoints), Some(wrappers)) => Ok(
            IndexAPIResponse { support_server, endpoints, wrappers },
        ),
        _ => Err(ApiError::DecodeError),
    }
}

/// Classifies what came back from the transport. `None` stands for a request
/// that never produced a response (connection failure); a status outside the
/// success range is also a transport error. Succeeds exactly on a success
/// status, which it returns unchanged.
pub fn transport_outcome(status: Option<u16>) -> (r: Result<u16, ApiError>)
    ensures
        r is Ok <==> (status is Some && 200 <= status->0 < 300),
        r is Ok ==> r->Ok_0 == status->0,
        r is Err ==> r->Err_0 == ApiError::TransportError,
{
    match status {
        Some(code) => {
            if 200 <= code && code < 300 {
                Ok(code)
            } else {
                Err(ApiError::TransportError)
            }
        },
        None => Err(ApiError::TransportError),
    }
}

} // verus!
