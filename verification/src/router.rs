//! The routing decision: which handler a method and path reach, and the
//! standard responses for everything else.

use vstd::prelude::*;
use crate::format::health_body;
use crate::handler::exact_render_bound;
use crate::handler::health_checker_handler;
use crate::handler::metrics_body;
use crate::handler::metrics_handler;
use crate::format::str_eq;
use crate::model::AppState;
use crate::model::Reply;
use crate::prom::gauge_value;

verus! {

/// The status code the service answers with: the two known paths accept
/// only `GET` and answer 405 otherwise; everything else is 404.
pub open spec fn route_status(method: Seq<char>, path: Seq<char>) -> int {
    if path == "/healthchecker"@ || path == "/metrics"@ {
        if method == "GET"@ {
            200
        } else {
            405
        }
    } else {
        404
    }
}

/// Routes one request. `GET /healthchecker` and `GET /metrics` reach their
/// handlers; a known path with another method is answered 405 with an empty
/// body, an unknown path 404 with an empty body, and neither touches the
/// state.
pub fn dispatch(state: &mut AppState, method: &str, path: &str) -> (r: Reply)
    requires
        old(state).wf(),
    ensures
        final(state).wf(),
        final(state).config == old(state).config,
        r.status as int == route_status(method@, path@),
        (method@ == "GET"@ && path@ == "/healthchecker"@) ==> r.body@ == health_body(
            old(state).config.env@,
        ),
        (method@ == "GET"@ && path@ == "/metrics"@) ==> gauge_value(
            final(state).metric.ccu_template,
        ) == old(state).config.ccu as int && (-exact_render_bound() <= old(state).config.ccu as int
            <= exact_render_bound() ==> r.body@ == metrics_body(
            old(state).config.ccu as int,
            old(state).config.env@,
        )),
        route_status(method@, path@) != 200 ==> r.body@ =~= Seq::<char>::empty() && *final(state)
            == *old(state),
{
    proof {
        // The two route literals differ in length, so at most one branch's
        // hypothesis can hold.
        reveal_strlit("/healthchecker");
        reveal_strlit("/metrics");
        assert("/healthchecker"@.len() == 14);
        assert("/metrics"@.len() == 8);
    }
    let is_get = str_eq(method, "GET");
    if str_eq(path, "/healthchecker") {
        if is_get {
            health_checker_handler(state)
        } else {
            Reply { status: 405, body: String::new() }
        }
    } else if str_eq(path, "/metrics") {
        if is_get {
            let body = metrics_handler(state);
            Reply { status: 200, body }
        } else {
            Reply { status: 405, body: String::new() }
        }
    } else {
        Reply { status: 404, body: String::new() }
    }
}

} // verus!
