//! Chain-level properties of the pipeline, stated and checked once and for
//! all: absorption of a short-circuit, identity of the success path, the
//! order in which attached steps consume one another's output, purity of
//! `adding`, and determinism of rendering.

use vstd::prelude::*;
use crate::application::App;
use crate::pipeline::{Combine, Pipeline, Response, RouteOption, rendered};

verus! {

/// Absorption: once a chain has short-circuited, every operator attached
/// afterwards is a pass-through. Whatever the appended step, error handler
/// and absence handler would compute, the rendered response is exactly the
/// carried body and status.
pub fn absorption_renders_carried_response<A, B, F, G, H>(
    chain: Pipeline<A>,
    step: F,
    handler: G,
    lookup: H,
    message: (String, u16),
) -> (r: Response) where
    F: FnOnce(App, A) -> Result<B, String>,
    G: FnOnce(String) -> (String, u16),
    H: FnOnce(App, B) -> Option<String>,

    requires
        chain.inp is ShortCircuited,
    ensures
        r == (Response { status: chain.inp->ShortCircuited_1, body: chain.inp->ShortCircuited_0 }),
{
    chain.and_then(step).catch(handler).and_then(lookup).if_none(message).finish()
}

/// Identity of the success path: a chain with no failing or absent stage
/// renders status 200, and the body is exactly what its final step produced
/// from the payload.
pub fn success_path_renders_payload<A, F>(chain: Pipeline<A>, render: F) -> (r: Response) where
    F: FnOnce(App, A) -> String,

    requires
        chain.inp is Continuing,
        call_requires(render, (chain.app, chain.inp->Continuing_0)),
    ensures
        r.status == 200,
        call_ensures(render, (chain.app, chain.inp->Continuing_0), r.body),
{
    chain.and_then(render).finish()
}

/// Identity of the success path through the resolving operators: when the
/// payload neither failed nor came up absent, the error handler and the
/// absence handler both pass it through unwrapped, and neither handler runs.
pub fn resolvers_preserve_a_successful_payload<T, E, G>(
    chain: Pipeline<Result<Option<T>, E>>,
    handler: G,
    message: (String, u16),
) -> (r: Pipeline<T>) where G: FnOnce(E) -> (String, u16),

    requires
        chain.inp matches RouteOption::Continuing(Ok(Some(v))),
    ensures
        r.app == chain.app,
        chain.inp matches RouteOption::Continuing(Ok(Some(v))) ==> r.inp
            == RouteOption::Continuing(v),
{
    chain.catch(handler).if_none(message)
}

/// Order preservation: on a continuing chain, the step attached second
/// consumes exactly what the step attached first produced — there is an
/// intermediate payload that the first step produced from the chain's value
/// and that the second step turned into the final one. On a short-circuited
/// chain neither step runs.
pub fn steps_flow_in_attachment_order<A, B, C, F1, F2>(
    chain: Pipeline<A>,
    first: F1,
    second: F2,
) -> (r: Pipeline<C>) where F1: FnOnce(App, A) -> B, F2: FnOnce(App, B) -> C,

    requires
        chain.inp is Continuing ==> call_requires(first, (chain.app, chain.inp->Continuing_0)),
        forall|mid: B|
            call_ensures(first, (chain.app, chain.inp->Continuing_0), mid) ==> call_requires(
                second,
                (chain.app, mid),
            ),
    ensures
        r.app == chain.app,
        chain.inp is Continuing ==> (r.inp is Continuing && (exists|mid: B|
            call_ensures(first, (chain.app, chain.inp->Continuing_0), mid) && call_ensures(
                second,
                (chain.app, mid),
                r.inp->Continuing_0,
            ))),
        chain.inp matches RouteOption::ShortCircuited(body, status) ==> r.inp
            == RouteOption::<C>::ShortCircuited(body, status),
{
    chain.and_then(first).and_then(second)
}

/// Purity of `adding`: pairing a value onto a success yields the pair, and
/// pairing one onto a failure returns the failure unchanged.
pub proof fn lemma_adding_pure<First, Error, Second>(x: Result<First, Error>, second: Second)
    ensures
        x matches Ok(first) ==> x.adding_spec(second) == Result::<(First, Second), Error>::Ok(
            (first, second),
        ),
        x matches Err(err) ==> x.adding_spec(second) == Result::<(First, Second), Error>::Err(err),
{
}

/// Idempotent rendering: the rendered response is a function of the resolved
/// chain state alone, so rendering equal states yields equal responses.
pub proof fn lemma_rendering_deterministic(a: RouteOption<String>, b: RouteOption<String>)
    requires
        a == b,
    ensures
        rendered(a) == rendered(b),
{
}

} // verus!
