//! Sending the current request and taking in its response: which body is
//! sent, and how the response (or the failure) is shown.

use vstd::prelude::*;

use crate::dashboard::{DashboardDisplay, DashboardEffect, DashboardState, FocusTarget, shows_error};
use crate::projects::{Endpoint, Header, HeaderView, headers_view};
use crate::text::{decimal_string, spec_decimal, spec_to_lowercase, str_equal, to_lowercase};

verus! {

/// What is sent for the current endpoint.
#[derive(Debug, Clone, PartialEq, Eq)]
pub struct RequestPlan {
    pub method: String,
    pub url: String,
    pub headers: Vec<Header>,
    pub body: String,
}

/// The content types the endpoint declares, run together: the values of
/// all its content-type headers (named in any case), in order.
pub open spec fn spec_request_content_type(headers: Seq<HeaderView>) -> Seq<char>
    decreases headers.len(),
{
    if headers.len() == 0 {
        seq![]
    } else {
        spec_request_content_type(headers.drop_last()) + (if spec_to_lowercase(headers.last().0) == "content-type"@ {
            headers.last().1
        } else {
            seq![]
        })
    }
}

/// The body that goes with a request: the endpoint's body when it declares
/// exactly the JSON content type, else nothing.
pub open spec fn spec_request_body(e: Endpoint) -> Seq<char> {
    if spec_request_content_type(headers_view(e.headers@)) == "application/json"@ {
        e.body@
    } else {
        seq![]
    }
}

/// What is sent for an endpoint: its method, URL and headers, and the body
/// its content type calls for.
pub fn plan_request(endpoint: &Endpoint) -> (plan: RequestPlan)
    ensures
        plan.method@ == endpoint.method@,
        plan.url@ == endpoint.url@,
        headers_view(plan.headers@) == headers_view(endpoint.headers@),
        plan.body@ == spec_request_body(*endpoint),
{
    let ghost hv = headers_view(endpoint.headers@);
    let mut content_type = String::new();
    let mut headers: Vec<Header> = Vec::new();
    let mut i: usize = 0;
    proof {
        assert(hv.take(0) =~= seq![]);
    }
    while i < endpoint.headers.len()
        invariant
            i <= endpoint.headers@.len(),
            hv == headers_view(endpoint.headers@),
            content_type@ == spec_request_content_type(hv.take(i as int)),
            headers_view(headers@) == hv.take(i as int),
        decreases endpoint.headers@.len() - i,
    {
        let h = &endpoint.headers[i];
        let lower = to_lowercase(h.name.as_str());
        if str_equal(lower.as_str(), "content-type") {
            content_type.append(h.value.as_str());
        }
        let ghost before = headers@;
        let copy = Header { name: h.name.clone(), value: h.value.clone() };
        headers.push(copy);
        i = i + 1;
        proof {
            assert(hv.take(i as int).drop_last() =~= hv.take(i - 1));
            assert(hv.take(i as int).last() == hv[i - 1]);
            assert(headers_view(headers@) =~= hv.take(i as int));
        }
    }
    proof {
        assert(hv.take(i as int) =~= hv);
    }
    let body = if str_equal(content_type.as_str(), "application/json") {
        endpoint.body.clone()
    } else {
        String::new()
    };
    RequestPlan { method: endpoint.method.clone(), url: endpoint.url.clone(), headers, body }
}

/// The text after the first `/` of `s`, if it has one.
pub open spec fn after_slash(s: Seq<char>) -> Option<Seq<char>> {
    match crate::text::first_occurrence(s, seq!['/']) {
        Some(i) => Some(s.skip(i + 1)),
        None => None,
    }
}

/// The extension a response is highlighted with: the subtype of its last
/// content type that has one (`application/json` gives `json`), else
/// `txt`.
pub open spec fn spec_response_extension(headers: Seq<HeaderView>) -> Seq<char>
    decreases headers.len(),
{
    if headers.len() == 0 {
        "txt"@
    } else {
        let h = headers.last();
        if spec_to_lowercase(h.0) == "content-type"@ && after_slash(h.1) is Some {
            after_slash(h.1)->Some_0
        } else {
            spec_response_extension(headers.drop_last())
        }
    }
}

fn subtype(value: &str) -> (sub: Option<String>)
    ensures
        match after_slash(value@) {
            Some(s) => sub is Some && sub->Some_0@ == s,
            None => sub is None,
        },
{
    let chars = crate::text::chars_of(value);
    let slash: Vec<char> = vec!['/'];
    proof {
        assert(slash@ =~= seq!['/']);
    }
    let found = crate::text::find(chars.as_slice(), slash.as_slice());
    match found {
        Some(i) => {
            proof {
                assert(crate::text::occurs_at(chars@, slash@, i as int));
                assert(slash@.len() == 1);
                assert(i + 1 <= chars@.len());
            }
            let len = chars.len();
            assert(i + 1 <= len);
            let mut rest: Vec<char> = Vec::new();
            let mut k: usize = i + 1;
            while k < chars.len()
                invariant
                    i + 1 <= k <= chars@.len(),
                    rest@ == chars@.subrange(i + 1, k as int),
                decreases chars@.len() - k,
            {
                rest.push(chars[k]);
                k = k + 1;
                proof {
                    assert(rest@ =~= chars@.subrange(i + 1, k as int));
                }
            }
            proof {
                assert(rest@ =~= chars@.skip(i + 1));
            }
            Some(crate::text::string_from_chars(rest.as_slice()))
        },
        None => None,
    }
}

/// The title of the response pane for a status code.
pub open spec fn response_label(status: nat) -> Seq<char> {
    "Response Body (Status Code: "@ + spec_decimal(status) + ")"@
}

fn label_for(status: u16) -> (label: String)
    ensures
        label@ == response_label(status as nat),
{
    let mut label = String::from_str("Response Body (Status Code: ");
    let code = decimal_string(status as u64);
    label.append(code.as_str());
    label.append(")");
    label
}

/// The response shown: its body, title and the extension it is highlighted
/// with; the main area switches to it and the renderer gets the focus.
pub open spec fn shows_response(
    pre: DashboardState,
    post: DashboardState,
    effects: Seq<DashboardEffect>,
    body: Seq<char>,
    status: nat,
    extension: Seq<char>,
) -> bool {
    &&& post.response@ == body
    &&& post.response_body_window_label@ == response_label(status)
    &&& post.main_display == DashboardDisplay::ResponseBody
    &&& effects.len() == 2
    &&& effects[0] == DashboardEffect::Focus(FocusTarget::ResponseRenderer)
    &&& effects[1] matches DashboardEffect::RenderResponse(b, e) && b@ == body && e@ == extension
}

/// A copy of the response's headers and the extension it is highlighted
/// with.
fn response_headers_and_extension(headers: &Vec<Header>) -> (r: (Vec<Header>, String))
    ensures
        headers_view(r.0@) == headers_view(headers@),
        r.1@ == spec_response_extension(headers_view(headers@)),
{
    let ghost hv = headers_view(headers@);
    let mut ext = String::from_str("txt");
    let mut shown: Vec<Header> = Vec::new();
    let mut i: usize = 0;
    proof {
        assert(hv.take(0) =~= seq![]);
    }
    while i < headers.len()
        invariant
            i <= headers@.len(),
            hv == headers_view(headers@),
            ext@ == spec_response_extension(hv.take(i as int)),
            headers_view(shown@) == hv.take(i as int),
        decreases headers@.len() - i,
    {
        let h = &headers[i];
        let lower = to_lowercase(h.name.as_str());
        let is_content_type = str_equal(lower.as_str(), "content-type");
        let sub = subtype(h.value.as_str());
        proof {
            assert(hv.take(i + 1).drop_last() =~= hv.take(i as int));
            assert(hv.take(i + 1).last() == hv[i as int]);
            assert(hv[i as int] == (h.name@, h.value@));
        }
        if is_content_type {
            match sub {
                Some(s) => {
                    ext = s;
                },
                None => {},
            }
        }
        let ghost before = shown@;
        shown.push(Header { name: h.name.clone(), value: h.value.clone() });
        i = i + 1;
        proof {
            assert(headers_view(shown@) =~= hv.take(i as int));
        }
    }
    proof {
        assert(hv.take(i as int) =~= hv);
    }
    (shown, ext)
}

impl DashboardState {
    /// Takes in a successful response: its headers replace the shown ones,
    /// its body (or a note that it could not be read) is shown under the
    /// status code, highlighted by the subtype of its content type.
    pub fn response_received(&mut self, status: u16, headers: Vec<Header>, body: Option<String>) -> (effects: Vec<DashboardEffect>)
        ensures
            headers_view(final(self).response_headers@) == headers_view(headers@),
            shows_response(
                *old(self),
                *final(self),
                effects@,
                match body {
                    Some(b) => b@,
                    None => "Could not read response body"@,
                },
                status as nat,
                spec_response_extension(headers_view(headers@)),
            ),
            *final(self) == (DashboardState {
                response_headers: final(self).response_headers,
                response: final(self).response,
                response_body_window_label: final(self).response_body_window_label,
                main_display: DashboardDisplay::ResponseBody,
                ..*old(self)
            }),
    {
        let (shown, ext) = response_headers_and_extension(&headers);
        let body = match body {
            Some(b) => b,
            None => String::from_str("Could not read response body"),
        };
        self.response_headers = shown;
        self.response = body.clone();
        self.response_body_window_label = label_for(status);
        self.main_display = DashboardDisplay::ResponseBody;
        let effects = vec![
            DashboardEffect::Focus(FocusTarget::ResponseRenderer),
            DashboardEffect::RenderResponse(body, ext),
        ];
        effects
    }

    /// Takes in a response with an error status: its body (or a note that
    /// it could not be read) is shown under the status code, as plain text;
    /// the shown headers stay.
    pub fn error_status_received(&mut self, status: u16, body: Option<String>) -> (effects: Vec<DashboardEffect>)
        ensures
            shows_response(
                *old(self),
                *final(self),
                effects@,
                match body {
                    Some(b) => b@,
                    None => "Could not read error response body"@,
                },
                status as nat,
                "txt"@,
            ),
            *final(self) == (DashboardState {
                response: final(self).response,
                response_body_window_label: final(self).response_body_window_label,
                main_display: DashboardDisplay::ResponseBody,
                ..*old(self)
            }),
    {
        let body = match body {
            Some(b) => b,
            None => String::from_str("Could not read error response body"),
        };
        self.response = body.clone();
        self.response_body_window_label = label_for(status);
        self.main_display = DashboardDisplay::ResponseBody;
        let effects = vec![
            DashboardEffect::Focus(FocusTarget::ResponseRenderer),
            DashboardEffect::RenderResponse(body, String::from_str("txt")),
        ];
        effects
    }

    /// Reports a request that could not be built or sent: its message, or
    /// `Network error` when the failure has none.
    pub fn request_failed(&mut self, message: Option<String>)
        ensures
            shows_error(
                *old(self),
                *final(self),
                match message {
                    Some(m) => m@,
                    None => "Network error"@,
                },
            ),
    {
        match message {
            Some(m) => self.show_error(m.as_str()),
            None => self.show_error("Network error"),
        }
    }
}

/// What `http::Request::builder` says of a request with this method, URL
/// and headers: the text of its error, or nothing when it builds it. It
/// depends on these values alone.
pub uninterp spec fn spec_http_request_error(
    method: Seq<char>,
    url: Seq<char>,
    headers: Seq<(Seq<char>, Seq<char>)>,
) -> Option<Seq<char>>;

/// Builds the request with `http::Request::builder` (each header, then the
/// method, the URL and a body) and hands back the text of its error, if it
/// refuses the request. Which requests it refuses is named, not spelled
/// out.
#[verifier::external_body]
fn http_request_error(method: &str, url: &str, headers: &Vec<Header>) -> (error: Option<String>)
    ensures
        match error {
            Some(e) => spec_http_request_error(method@, url@, headers_view(headers@)) == Some(e@),
            None => spec_http_request_error(method@, url@, headers_view(headers@)) is None,
        },
{
    let mut builder = http::Request::builder();
    for header in headers {
        builder = builder.header(header.name.as_str(), header.value.as_str());
    }
    builder.method(method).uri(url).body(vec![0u8]).err().map(|e| e.to_string())
}

/// The error a planned request shows, when the HTTP library refuses it;
/// nothing is shown when it accepts it.
pub open spec fn check_request_post(pre: DashboardState, post: DashboardState, error: Option<Seq<char>>) -> bool {
    match error {
        Some(m) => shows_error(pre, post, m),
        None => post == pre,
    }
}

impl DashboardState {
    /// Builds the planned request as the HTTP library does before it is
    /// sent: a request the library refuses shows the library's error and is
    /// not sent. Returns whether the request can be sent.
    pub fn check_request(&mut self, plan: &RequestPlan) -> (sendable: bool)
        ensures
            sendable == (spec_http_request_error(plan.method@, plan.url@, headers_view(plan.headers@)) is None),
            check_request_post(
                *old(self),
                *final(self),
                spec_http_request_error(plan.method@, plan.url@, headers_view(plan.headers@)),
            ),
    {
        match http_request_error(plan.method.as_str(), plan.url.as_str(), &plan.headers) {
            Some(e) => {
                self.request_failed(Some(e));
                false
            },
            None => true,
        }
    }
}

} // verus!
