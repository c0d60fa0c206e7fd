//! The way of a request through the interceptors of a client.
//!
//! A request passes the interceptors in their order and is handed to the invoker at last.
//! An interceptor is given the request and the context of the interceptors behind it; it may
//! send the request on in that context, answer it itself, or fail with a message. The
//! context says what a request is handed to next and what comes of an answer; to make the
//! call and to wait for the answer is left to the caller.

use crate::error::ClientError;
use vstd::prelude::*;
use vstd::slice::slice_subrange;

verus! {

/// Execution context for an interceptor: the interceptors of the type `I` that a request
/// has still to pass, and the invoker of the type `V` that it is handed to at last.
pub struct Context<'a, I, V> {
    invoker: &'a V,
    interceptors: &'a [I],
}

/// What a request is handed to next.
pub enum Next<'a, I, V> {
    /// The request goes to this interceptor, which sends it on in the context that comes
    /// with it.
    Intercept(&'a I, Context<'a, I, V>),
    /// The request has passed every interceptor and goes to the invoker.
    Invoke(&'a V),
}

/// What comes of the answer of an interceptor: its response as it is, and its failure as
/// an error of the client that carries the message.
pub open spec fn concluded<R>(answer: Result<R, String>) -> Result<R, ClientError> {
    match answer {
        Ok(response) => Ok(response),
        Err(message) => Err(ClientError::Curl(message)),
    }
}

/// Turns the answer of an interceptor into the result of sending the request.
pub fn conclude<R>(answer: Result<R, String>) -> (result: Result<R, ClientError>)
    ensures
        result == concluded(answer),
{
    match answer {
        Ok(response) => Ok(response),
        Err(message) => Err(ClientError::Curl(message)),
    }
}

impl<'a, I, V> Context<'a, I, V> {
    /// The interceptors that a request has still to pass, in their order.
    pub closed spec fn interceptors(&self) -> Seq<I> {
        self.interceptors@
    }

    /// What a request is handed to at last.
    pub closed spec fn invoker(&self) -> V {
        *self.invoker
    }

    /// Creates the context of a request that has the given interceptors to pass.
    pub fn new(invoker: &'a V, interceptors: &'a [I]) -> (cx: Context<'a, I, V>)
        ensures
            cx.interceptors() == interceptors@,
            cx.invoker() == *invoker,
    {
        Context { invoker, interceptors }
    }

    /// Returns the interceptors that a request has still to pass, in their order.
    pub fn remaining(&self) -> (rest: &'a [I])
        ensures
            rest@ == self.interceptors(),
    {
        self.interceptors
    }

    /// Says what a request is handed to next: the first of the interceptors that it has
    /// still to pass, together with the context of the others, or the invoker where it has
    /// passed them all.
    pub fn next(&self) -> (next: Next<'a, I, V>)
        ensures
            match next {
                Next::Intercept(interceptor, inner) => {
                    &&& self.interceptors().len() > 0
                    &&& *interceptor == self.interceptors()[0]
                    &&& inner.interceptors() == self.interceptors().skip(1)
                    &&& inner.invoker() == self.invoker()
                },
                Next::Invoke(invoker) => self.interceptors().len() == 0 && *invoker
                    == self.invoker(),
            },
    {
        if self.interceptors.len() > 0 {
            let rest = slice_subrange(self.interceptors, 1, self.interceptors.len());
            proof {
                assert(rest@ =~= self.interceptors@.skip(1));
            }
            Next::Intercept(
                &self.interceptors[0],
                Context { invoker: self.invoker, interceptors: rest },
            )
        } else {
            Next::Invoke(self.invoker)
        }
    }
}

} // verus!
