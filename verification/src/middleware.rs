//! Filters that a client puts around every request that it sends.

use crate::body::Body;
use crate::request::Request;
use crate::response::Response;
use vstd::prelude::*;

verus! {

/// Base trait for middleware.
///
/// A middleware sees every request before it is sent and every response before it is
/// returned, and may change either. Both filters are functions: what they return depends on
/// what they are given and on nothing else. They run on the caller's thread.
///
/// Since clients may be used to send requests concurrently, all middleware must be
/// synchronized and must be able to account for multiple requests being made in parallel.
pub trait Middleware: Send + Sync {
    /// The request that this middleware makes of a request.
    spec fn filtered_request(&self, request: Request) -> Request;

    /// The response that this middleware makes of a response.
    spec fn filtered_response(&self, response: Response<Body>) -> Response<Body>;

    /// Transform a request before it is sent.
    fn filter_request(&self, request: Request) -> (filtered: Request)
        ensures
            filtered == self.filtered_request(request),
    ;

    /// Transform a response after it is received.
    fn filter_response(&self, response: Response<Body>) -> (filtered: Response<Body>)
        ensures
            filtered == self.filtered_response(response),
    ;
}

/// The request that a chain of middleware makes of a request. The request goes through the
/// chain from the outermost layer to the innermost; the outermost layer is the one that was
/// added last.
pub open spec fn request_through(chain: Seq<Box<dyn Middleware>>, request: Request) -> Request
    decreases chain.len(),
{
    if chain.len() == 0 {
        request
    } else {
        request_through(chain.drop_last(), chain.last().filtered_request(request))
    }
}

/// The response that a chain of middleware makes of a response. The response goes through
/// the chain from the innermost layer to the outermost.
pub open spec fn response_through(chain: Seq<Box<dyn Middleware>>, response: Response<Body>) -> Response<Body>
    decreases chain.len(),
{
    if chain.len() == 0 {
        response
    } else {
        chain.last().filtered_response(response_through(chain.drop_last(), response))
    }
}

/// Sends a request through a chain of middleware, from the outermost layer to the
/// innermost.
pub fn filter_request(chain: &Vec<Box<dyn Middleware>>, request: Request) -> (filtered: Request)
    ensures
        filtered == request_through(chain@, request),
{
    let mut request = request;
    let mut i: usize = chain.len();
    let ghost first = request;
    proof {
        assert(chain@.take(chain.len() as int) =~= chain@);
    }
    while i > 0
        invariant
            i <= chain.len(),
            request_through(chain@, first) == request_through(chain@.take(i as int), request),
        decreases i,
    {
        proof {
            assert(chain@.take(i as int).drop_last() =~= chain@.take(i - 1));
        }
        i = i - 1;
        request = chain[i].filter_request(request);
    }
    request
}

/// Sends a response through a chain of middleware, from the innermost layer to the
/// outermost.
pub fn filter_response(chain: &Vec<Box<dyn Middleware>>, response: Response<Body>) -> (filtered: Response<Body>)
    ensures
        filtered == response_through(chain@, response),
{
    let mut response = response;
    let mut i: usize = 0;
    let ghost first = response;
    while i < chain.len()
        invariant
            i <= chain.len(),
            response == response_through(chain@.take(i as int), first),
        decreases chain.len() - i,
    {
        proof {
            assert(chain@.take(i + 1).drop_last() =~= chain@.take(i as int));
        }
        response = chain[i].filter_response(response);
        i = i + 1;
    }
    proof {
        assert(chain@.take(chain.len() as int) =~= chain@);
    }
    response
}

} // verus!
