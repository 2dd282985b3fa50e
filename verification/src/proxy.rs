//! The methods that a proxied request to the API server may carry.

use crate::error::MyError;
use crate::text::same_text;
use vstd::prelude::*;

verus! {

/// The method of a proxied request.
#[derive(Clone, Copy, Debug, PartialEq, Eq, Structural)]
pub enum ProxyMethod {
    Post,
    Delete,
    Put,
    Patch,
    Get,
}

/// What `str::to_uppercase` makes of a text.
pub uninterp spec fn upper_case(text: Seq<char>) -> Seq<char>;

/// Calls `str::to_uppercase`.
#[verifier::external_body]
fn to_upper(text: &str) -> (s: String)
    ensures
        s@ == upper_case(text@),
{
    text.to_uppercase()
}

/// The method that goes by the name `name`, which is written in upper case.
pub open spec fn method_named(name: Seq<char>) -> Option<ProxyMethod> {
    if name == "POST"@ {
        Some(ProxyMethod::Post)
    } else if name == "DELETE"@ {
        Some(ProxyMethod::Delete)
    } else if name == "PUT"@ {
        Some(ProxyMethod::Put)
    } else if name == "PATCH"@ {
        Some(ProxyMethod::Patch)
    } else if name == "GET"@ {
        Some(ProxyMethod::Get)
    } else {
        None
    }
}

impl ProxyMethod {
    /// The method that goes by a name in upper case, if there is one.
    pub fn named(name: &str) -> (r: Option<ProxyMethod>)
        ensures
            r == method_named(name@),
    {
        if same_text(name, "POST") {
            Some(ProxyMethod::Post)
        } else if same_text(name, "DELETE") {
            Some(ProxyMethod::Delete)
        } else if same_text(name, "PUT") {
            Some(ProxyMethod::Put)
        } else if same_text(name, "PATCH") {
            Some(ProxyMethod::Patch)
        } else if same_text(name, "GET") {
            Some(ProxyMethod::Get)
        } else {
            None
        }
    }

    /// Reads a method from its name, in whatever case it is written. A name
    /// that is no method in upper case fails with `InvalidMethod`, which
    /// carries the name as it was given.
    pub fn parse(method: &str) -> (r: Result<ProxyMethod, MyError>)
        ensures
            match method_named(upper_case(method@)) {
                Some(m) => r is Ok && r->Ok_0 == m,
                None => r is Err && r->Err_0 is InvalidMethod && r->Err_0.detail() == method@,
            },
    {
        let upper = to_upper(method);
        match ProxyMethod::named(upper.as_str()) {
            Some(m) => Ok(m),
            None => Err(MyError::InvalidMethod(method.to_string())),
        }
    }

    /// Whether the headers of the caller go with a request of this method:
    /// they do with `Patch` alone.
    pub fn takes_headers(self) -> (b: bool)
        ensures
            b == (self is Patch),
    {
        match self {
            ProxyMethod::Patch => true,
            _ => false,
        }
    }
}

} // verus!
