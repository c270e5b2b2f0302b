//! The contract that every request descriptor meets.

use crate::wire::{FieldView, Object};
use vstd::prelude::*;

verus! {

/// HTTP method of an operation.
#[derive(Clone, Copy, Debug, PartialEq, Eq, Structural)]
pub enum Method {
    Get,
    Post,
    Delete,
}

impl Method {
    /// The method's token as it stands in a request line.
    pub open spec fn spec_token(self) -> Seq<char> {
        match self {
            Method::Get => "GET"@,
            Method::Post => "POST"@,
            Method::Delete => "DELETE"@,
        }
    }

    /// The method's token: `GET`, `POST` or `DELETE`.
    pub fn token(self) -> (token: &'static str)
        ensures
            token@ == self.spec_token(),
    {
        match self {
            Method::Get => "GET",
            Method::Post => "POST",
            Method::Delete => "DELETE",
        }
    }
}

/// The shape into which the caller decodes the response of an operation.
#[derive(Clone, Copy, Debug, PartialEq, Eq, Structural)]
pub enum ResponseKind {
    /// A single order record.
    Order,
    /// A sequence of order records.
    OrderList,
    /// A plain confirmation text.
    Confirmation,
}

/// One API operation: its fixed method, authentication requirement and
/// response shape, and the path and body of one call.
pub trait Request {
    /// The method of the operation, the same for every instance.
    spec fn spec_method() -> Method;

    /// Whether the operation needs an authenticated request.
    spec fn spec_requires_auth() -> bool;

    /// The response shape of the operation.
    spec fn spec_response_type() -> ResponseKind;

    /// Whether the operation is eligible for the optimized access path.
    spec fn spec_supports_optimized_access() -> bool;

    /// The URL path of this call.
    spec fn spec_path(&self) -> Seq<char>;

    /// The fields to transmit with this call, in order.
    spec fn spec_body(&self) -> Seq<FieldView>;

    fn method() -> (method: Method)
        ensures
            method == Self::spec_method(),
    ;

    fn requires_auth() -> (auth: bool)
        ensures
            auth == Self::spec_requires_auth(),
    ;

    fn response_type() -> (kind: ResponseKind)
        ensures
            kind == Self::spec_response_type(),
    ;

    fn supports_optimized_access() -> (supported: bool)
        ensures
            supported == Self::spec_supports_optimized_access(),
    ;

    fn path(&self) -> (path: String)
        ensures
            path@ == self.spec_path(),
    ;

    fn body(&self) -> (body: Object)
        ensures
            body@ == self.spec_body(),
    ;
}

} // verus!
