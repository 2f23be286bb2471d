//! The pipeline combinator: the chain builder and its operators.
//!
//! Evaluation is staged: each operator resolves its stage at the moment it
//! is attached, strictly in attachment order, and `finish` renders the
//! resolved state. A step never runs once an earlier stage has
//! short-circuited.

use vstd::prelude::*;
use crate::application::App;

verus! {

/// The state threaded through a chain: either processing may proceed with a
/// payload, or it has terminated early with a rendered error response.
///
/// Once `ShortCircuited(body, status)`, the value propagates unchanged
/// through every subsequent operator: steps never execute after a
/// short-circuit.
pub enum RouteOption<T> {
    /// Processing may proceed; the payload is the chain's current value.
    Continuing(T),
    /// Processing has terminated early with a response body and status code.
    ShortCircuited(String, u16),
}

/// A response at the transport boundary: a status code plus a body.
pub struct Response {
    pub status: u16,
    pub body: String,
}

/// How a resolved chain state is rendered at the boundary: a completed chain
/// renders its final payload with status 200; a short-circuited chain renders
/// the carried body with the carried status.
pub open spec fn rendered(o: RouteOption<String>) -> Response {
    match o {
        RouteOption::Continuing(s) => Response { status: 200, body: s },
        RouteOption::ShortCircuited(body, status) => Response { status: status, body: body },
    }
}

/// The chain builder: owns the shared context and the chain's current state.
pub struct Pipeline<T> {
    pub app: App,
    pub inp: RouteOption<T>,
}

impl<T> Pipeline<T> {
    /// Entry point: wraps an inbound value into an already-continuing chain.
    pub fn receive(req: T, app: App) -> (r: Pipeline<T>)
        ensures
            r.app == app,
            r.inp == RouteOption::Continuing(req),
    {
        Pipeline { app, inp: RouteOption::Continuing(req) }
    }

    /// Attaches a transformation step.
    ///
    /// If the chain is continuing, the step runs on the shared context and
    /// the current payload, and its result becomes the new payload verbatim.
    /// If the chain has already short-circuited, the step never runs and the
    /// carried response propagates unchanged.
    pub fn and_then<O, F: FnOnce(App, T) -> O>(self, func: F) -> (r: Pipeline<O>)
        requires
            self.inp matches RouteOption::Continuing(v) ==> call_requires(func, (self.app, v)),
        ensures
            r.app == self.app,
            self.inp matches RouteOption::ShortCircuited(body, status) ==> r.inp
                == RouteOption::<O>::ShortCircuited(body, status),
            self.inp matches RouteOption::Continuing(v) ==> (r.inp matches RouteOption::Continuing(
                out,
            ) && call_ensures(func, (self.app, v), out)),
    {
        match self.inp {
            RouteOption::Continuing(v) => {
                let app = self.app.clone();
                let out = func(app, v);
                Pipeline { app: self.app, inp: RouteOption::Continuing(out) }
            },
            RouteOption::ShortCircuited(body, status) => {
                Pipeline { app: self.app, inp: RouteOption::ShortCircuited(body, status) }
            },
        }
    }
}

impl<T, E> Pipeline<Result<T, E>> {
    /// Resolves a fallible payload.
    ///
    /// An `Ok` payload unwraps and the chain continues; on an `Err` payload
    /// the handler chooses the response body and status code and the chain
    /// short-circuits there. A chain that has already short-circuited
    /// propagates unchanged and the handler never runs.
    pub fn catch<F: FnOnce(E) -> (String, u16)>(self, func: F) -> (r: Pipeline<T>)
        requires
            self.inp matches RouteOption::Continuing(Err(e)) ==> call_requires(func, (e,)),
        ensures
            r.app == self.app,
            self.inp matches RouteOption::ShortCircuited(body, status) ==> r.inp
                == RouteOption::<T>::ShortCircuited(body, status),
            self.inp matches RouteOption::Continuing(Ok(v)) ==> r.inp == RouteOption::Continuing(
                v,
            ),
            self.inp matches RouteOption::Continuing(Err(e)) ==> (r.inp matches
                RouteOption::ShortCircuited(body, status) && call_ensures(
                func,
                (e,),
                (body, status),
            )),
    {
        match self.inp {
            RouteOption::Continuing(pre) => match pre {
                Ok(ok) => Pipeline { app: self.app, inp: RouteOption::Continuing(ok) },
                Err(err) => {
                    let ret = func(err);
                    Pipeline { app: self.app, inp: RouteOption::ShortCircuited(ret.0, ret.1) }
                },
            },
            RouteOption::ShortCircuited(body, status) => {
                Pipeline { app: self.app, inp: RouteOption::ShortCircuited(body, status) }
            },
        }
    }
}

impl<T> Pipeline<Option<T>> {
    /// Resolves an optional payload.
    ///
    /// A present payload unwraps and the chain continues; an absent one
    /// short-circuits with the given response body and status code. A chain
    /// that has already short-circuited propagates unchanged.
    pub fn if_none(self, message: (String, u16)) -> (r: Pipeline<T>)
        ensures
            r.app == self.app,
            self.inp matches RouteOption::ShortCircuited(body, status) ==> r.inp
                == RouteOption::<T>::ShortCircuited(body, status),
            self.inp matches RouteOption::Continuing(Some(v)) ==> r.inp == RouteOption::Continuing(
                v,
            ),
            self.inp == RouteOption::<Option<T>>::Continuing(None::<T>) ==> r.inp
                == RouteOption::<T>::ShortCircuited(message.0, message.1),
    {
        match self.inp {
            RouteOption::Continuing(pre) => match pre {
                Some(ok) => Pipeline { app: self.app, inp: RouteOption::Continuing(ok) },
                None => Pipeline {
                    app: self.app,
                    inp: RouteOption::ShortCircuited(message.0, message.1),
                },
            },
            RouteOption::ShortCircuited(body, status) => {
                Pipeline { app: self.app, inp: RouteOption::ShortCircuited(body, status) }
            },
        }
    }
}

impl Pipeline<String> {
    /// Ends the chain and renders the response.
    ///
    /// This is the chain's sole fallible-to-infallible boundary and it never
    /// itself fails: a completed chain renders its payload with status 200,
    /// a short-circuited chain renders the carried body and status.
    pub fn finish(self) -> (r: Response)
        ensures
            r == rendered(self.inp),
    {
        match self.inp {
            RouteOption::Continuing(body) => Response { status: 200, body },
            RouteOption::ShortCircuited(body, status) => Response { status, body },
        }
    }
}

/// Renders a domain result into the success/failure shape a chain's
/// resolving operators consume.
pub trait Responder: Sized {
    /// What `respond` returns for this value.
    spec fn respond_spec(self) -> Result<String, &'static str>;

    /// Converts this value into a response body or a failure message.
    fn respond(self) -> (r: Result<String, &'static str>)
        ensures
            r == self.respond_spec(),
    ;
}

impl Responder for Result<Option<String>, String> {
    /// The tri-state lookup result: a found, already-rendered payload
    /// succeeds; an absent one and a storage failure are distinguished
    /// failure messages, so a chain can map them to different statuses.
    open spec fn respond_spec(self) -> Result<String, &'static str> {
        match self {
            Ok(found) => match found {
                Some(body) => Ok(body),
                None => Err("Not Found"),
            },
            Err(_) => Err("Database error"),
        }
    }

    fn respond(self) -> (r: Result<String, &'static str>) {
        match self {
            Ok(found) => match found {
                Some(body) => Ok(body),
                None => Err("Not Found"),
            },
            Err(_) => Err("Database error"),
        }
    }
}

/// Pairs a newly computed value with a previously held one inside a fallible
/// result, so steps can accumulate several upstream values without nesting.
pub trait Combine<First, Error, Second>: Sized {
    /// What `adding` returns: the pair on success, the error untouched.
    spec fn adding_spec(self, second: Second) -> Result<(First, Second), Error>;

    /// Pairs `second` onto an existing fallible result, leaving an error
    /// unchanged.
    fn adding(self, second: Second) -> (r: Result<(First, Second), Error>)
        ensures
            r == self.adding_spec(second),
    ;
}

impl<First, Error, Second> Combine<First, Error, Second> for Result<First, Error> {
    open spec fn adding_spec(self, second: Second) -> Result<(First, Second), Error> {
        match self {
            Ok(first) => Ok((first, second)),
            Err(err) => Err(err),
        }
    }

    fn adding(self, second: Second) -> (r: Result<(First, Second), Error>) {
        match self {
            Ok(first) => Ok((first, second)),
            Err(err) => Err(err),
        }
    }
}

} // verus!
