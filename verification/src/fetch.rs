//! HTTP fetches, as the tool "web_fetch".

use crate::state::OpenClawState;
use crate::text;
use crate::types::{HttpMethod, HttpRequest, HttpResponse};
use vstd::prelude::*;

verus! {

/// The method that a name asks for; a name that is not known, and none at all, ask for GET.
pub open spec fn requested_method(name: Option<Seq<char>>) -> HttpMethod {
    if name == Some("POST"@) {
        HttpMethod::Post
    } else if name == Some("PUT"@) {
        HttpMethod::Put
    } else if name == Some("DELETE"@) {
        HttpMethod::Delete
    } else if name == Some("PATCH"@) {
        HttpMethod::Patch
    } else {
        HttpMethod::Get
    }
}

fn method_named(name: &String) -> (r: HttpMethod)
    ensures
        r == requested_method(Some(name@)),
{
    if *name == "POST".to_string() {
        HttpMethod::Post
    } else if *name == "PUT".to_string() {
        HttpMethod::Put
    } else if *name == "DELETE".to_string() {
        HttpMethod::Delete
    } else if *name == "PATCH".to_string() {
        HttpMethod::Patch
    } else {
        HttpMethod::Get
    }
}

impl OpenClawState {
    /// Prepares an HTTP request.
    pub fn web_fetch(&self, url: String, method: Option<String>, body: Option<String>) -> (r:
        HttpRequest)
        ensures
            r == (HttpRequest { url, method: requested_method(method.deep_view()), body }),
            r.method == HttpMethod::Post <==> method is Some && method->0@ == "POST"@,
            r.method == HttpMethod::Put <==> method is Some && method->0@ == "PUT"@,
            r.method == HttpMethod::Delete <==> method is Some && method->0@ == "DELETE"@,
            r.method == HttpMethod::Patch <==> method is Some && method->0@ == "PATCH"@,
    {
        proof {
            reveal_strlit("POST");
            reveal_strlit("PUT");
            reveal_strlit("DELETE");
            reveal_strlit("PATCH");
            assert("POST"@.len() == 4 && "PUT"@.len() == 3);
            assert("DELETE"@.len() == 6 && "PATCH"@.len() == 5);
        }
        let method = match &method {
            Some(name) => method_named(name),
            None => HttpMethod::Get,
        };
        HttpRequest { url, method, body }
    }

    /// The answer to a fetch: the text received, unless the request failed or the status is 400
    /// or more.
    pub fn web_fetch_reply(outcome: Result<HttpResponse, String>) -> (r: Result<String, String>)
        ensures
            match outcome {
                Ok(response) => if response.status < 400 {
                    r == Ok::<String, String>(response.text)
                } else {
                    r matches Err(e) && e@ == "HTTP error "@ + text::decimal(response.status as nat)
                        + ": "@ + response.text@
                },
                Err(failure) => r matches Err(e) && e@ == "HTTP request failed: "@ + failure@,
            },
    {
        match outcome {
            Ok(response) => {
                if response.status >= 400 {
                    let mut e = text::concat3(
                        "HTTP error ",
                        text::decimal_text(response.status as u64).as_str(),
                        ": ",
                    );
                    e.append(response.text.as_str());
                    Err(e)
                } else {
                    Ok(response.text)
                }
            },
            Err(failure) => Err(text::concat2("HTTP request failed: ", failure.as_str())),
        }
    }
}

/// Each of the four names asks for its method, and no other name asks for it; everything else asks
/// for GET.
pub proof fn methods_go_by_their_names(name: Option<Seq<char>>)
    ensures
        requested_method(name) == HttpMethod::Post <==> name == Some("POST"@),
        requested_method(name) == HttpMethod::Put <==> name == Some("PUT"@),
        requested_method(name) == HttpMethod::Delete <==> name == Some("DELETE"@),
        requested_method(name) == HttpMethod::Patch <==> name == Some("PATCH"@),
{
    reveal_strlit("POST");
    reveal_strlit("PUT");
    reveal_strlit("DELETE");
    reveal_strlit("PATCH");
    assert("POST"@.len() == 4 && "PUT"@.len() == 3);
    assert("DELETE"@.len() == 6 && "PATCH"@.len() == 5);
}

} // verus!
