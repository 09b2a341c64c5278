//! The response model: what a handler hands back to the HTTP layer.

use vstd::prelude::*;

verus! {

/// A response body: either a rendered page (text) or raw asset bytes.
#[derive(Debug, PartialEq, Eq)]
pub enum RespBody {
    Page(String),
    Raw(Vec<u8>),
}

/// Spec-level body: the mathematical content of a `RespBody`.
#[verifier::ext_equal]
pub enum SpecBody {
    Page(Seq<char>),
    Raw(Seq<u8>),
}

impl View for RespBody {
    type V = SpecBody;

    open spec fn view(&self) -> SpecBody {
        match self {
            RespBody::Page(s) => SpecBody::Page(s@),
            RespBody::Raw(b) => SpecBody::Raw(b@),
        }
    }
}

/// An HTTP response as the library determines it: status code, optional
/// content type, optional absolute expiry instant (seconds since the Unix
/// epoch), optional custom reason phrase, and the body.
#[derive(Debug, PartialEq, Eq)]
pub struct Response {
    pub status: u16,
    pub content_type: Option<String>,
    pub expires: Option<u64>,
    pub reason: Option<String>,
    pub body: RespBody,
}

/// Spec-level response.
#[verifier::ext_equal]
pub struct SpecResponse {
    pub status: u16,
    pub content_type: Option<Seq<char>>,
    pub expires: Option<u64>,
    pub reason: Option<Seq<char>>,
    pub body: SpecBody,
}

impl View for Response {
    type V = SpecResponse;

    open spec fn view(&self) -> SpecResponse {
        SpecResponse {
            status: self.status,
            content_type: match self.content_type {
                Option::Some(s) => Option::Some(s@),
                Option::None => Option::None,
            },
            expires: self.expires,
            reason: match self.reason {
                Option::Some(s) => Option::Some(s@),
                Option::None => Option::None,
            },
            body: self.body@,
        }
    }
}

} // verus!
