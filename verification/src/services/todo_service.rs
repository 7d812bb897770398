//! The placeholder to-do service.

use crate::services::http_client::{HttpRequest, Method, RequestView};
use crate::text::{decimal, push_decimal};
use vstd::prelude::*;

verus! {

/// The request that reads the to-do entry `id`.
pub open spec fn todo_request_of(id: u32) -> RequestView {
    RequestView {
        method: Method::Get,
        url: "https://jsonplaceholder.typicode.com/todos/"@ + decimal(id as nat),
        headers: Seq::empty(),
        query: Seq::empty(),
        timeout_secs: None,
    }
}

/// Describes the lookup of the to-do entry `id`.
pub fn todo_request(id: u32) -> (request: HttpRequest)
    ensures
        request@ == todo_request_of(id),
{
    let mut url = "https://jsonplaceholder.typicode.com/todos/".to_owned();
    push_decimal(&mut url, id as u64);
    let request = HttpRequest {
        method: Method::Get,
        url,
        headers: Vec::new(),
        query: Vec::new(),
        timeout_secs: None,
    };
    assert(request@.headers =~= todo_request_of(id).headers);
    request
}

} // verus!
