//! Requests to the code-hosting platform.
//!
//! Nothing here talks to the platform. Each method returns the request that
//! the caller is to send.

pub mod pull_request;

use vstd::prelude::*;

verus! {

/// Where the platform's interface is reached.
pub const BASE_URL: &'static str = "https://api.github.com";

/// The organization whose repositories are served.
#[derive(Clone, Debug, PartialEq, Eq)]
pub struct Organization {
    pub login: String,
}

/// A session with the platform on behalf of one organization.
#[derive(Clone, Debug, PartialEq, Eq)]
pub struct GithubBot {
    pub organization: Organization,
}

/// How a request acts on its address.
#[derive(Clone, Copy, Debug, PartialEq, Eq, Structural)]
pub enum Method {
    Get,
    Post,
    Put,
    Patch,
}

/// A request: the method, the address, and the named text fields of its
/// body, in order.
#[derive(Clone, Debug, PartialEq, Eq)]
pub struct Request {
    pub method: Method,
    pub url: String,
    pub params: Vec<(String, String)>,
}

/// Mathematical model of a [`Request`].
pub struct RequestView {
    pub method: Method,
    pub url: Seq<char>,
    pub params: Seq<(Seq<char>, Seq<char>)>,
}

impl View for Request {
    type V = RequestView;

    open spec fn view(&self) -> RequestView {
        RequestView {
            method: self.method,
            url: self.url@,
            params: self.params@.map_values(|p: (String, String)| (p.0@, p.1@)),
        }
    }
}

} // verus!
