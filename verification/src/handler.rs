//! Request dispatch: which answer the endpoint gives to which request.

use vstd::prelude::*;
use vstd::seq_lib::group_filter_ensures;
use crate::exposition::{
    encode_text, encodes_ok, family_is_untyped, format_type, is_untyped, str_eq, text_encoding,
    text_format,
};
use crate::response::{HttpResponse, is_internal_error, is_metrics_ok, is_not_found};
use crate::state::MetricsState;

verus! {

/// The part of a snapshot the text encoder accepts: the untyped families
/// removed, everything else kept in its order.
pub open spec fn encodable_families(
    families: Seq<prometheus::proto::MetricFamily>,
) -> Seq<prometheus::proto::MetricFamily> {
    families.filter(|f: prometheus::proto::MetricFamily| !is_untyped(f))
}

/// Removes exactly the families the text encoder does not accept: those
/// whose type is untyped. The rest keep their order.
pub fn drop_untyped(families: Vec<prometheus::proto::MetricFamily>) -> (kept: Vec<
    prometheus::proto::MetricFamily,
>)
    ensures
        kept@ == encodable_families(families@),
        forall|i: int| 0 <= i < kept@.len() ==> !is_untyped(#[trigger] kept@[i]),
{
    let ghost orig = families@;
    let mut rest = families;
    let mut kept: Vec<prometheus::proto::MetricFamily> = Vec::new();
    let ghost mut processed: int = 0;
    proof {
        reveal(Seq::filter);
        assert(orig.take(0int) =~= Seq::<prometheus::proto::MetricFamily>::empty());
        assert(encodable_families(orig.take(0int)) =~= Seq::<
            prometheus::proto::MetricFamily,
        >::empty());
    }
    while rest.len() > 0
        invariant
            0 <= processed,
            processed + rest@.len() == orig.len(),
            rest@ == orig.skip(processed),
            kept@ == encodable_families(orig.take(processed)),
        decreases rest@.len(),
    {
        let family = rest.remove(0);
        let keep = !family_is_untyped(&family);
        proof {
            reveal(Seq::filter);
            assert(orig.skip(processed).remove(0) =~= orig.skip(processed + 1));
            let t1 = orig.take(processed + 1);
            assert(t1.drop_last() =~= orig.take(processed));
            assert(t1.last() == orig[processed]);
            assert(family == orig[processed]);
            if keep {
                assert(encodable_families(t1) == encodable_families(t1.drop_last()).push(
                    t1.last(),
                ));
            } else {
                assert(encodable_families(t1) == encodable_families(t1.drop_last()));
            }
        }
        if keep {
            kept.push(family);
        }
        proof {
            processed = processed + 1;
        }
    }
    proof {
        broadcast use group_filter_ensures;

        assert(orig.take(orig.len() as int) =~= orig);
        assert forall|i: int| 0 <= i < kept@.len() implies !is_untyped(#[trigger] kept@[i]) by {
            assert(kept@[i] == orig.filter(
                |f: prometheus::proto::MetricFamily| !is_untyped(f),
            )[i]);
        }
    }
    kept
}

/// The one route the endpoint serves: `GET` on `/metrics`.
pub open spec fn is_metrics_request(method: Seq<char>, path: Seq<char>) -> bool {
    method == "GET"@ && path == "/metrics"@
}

/// Decides whether a request asks for the metrics route.
pub fn route_matches(method: &str, path: &str) -> (b: bool)
    ensures
        b == is_metrics_request(method@, path@),
{
    str_eq(method, "GET") && str_eq(path, "/metrics")
}

/// The answer to every request outside the metrics route.
pub fn not_found_response() -> (r: HttpResponse)
    ensures
        is_not_found(r),
{
    HttpResponse { status: 404, content_type: None, body: "Not Found".to_owned() }
}

/// The answer for the metrics route, for each outcome of encoding the
/// gathered snapshot: the exposition text under the encoder's declared
/// content type when it encoded, and a plain internal error otherwise.
pub fn metrics_response(encoded: Result<String, prometheus::Error>) -> (r: HttpResponse)
    ensures
        encoded matches Ok(text) ==> is_metrics_ok(r, text@),
        encoded is Err ==> is_internal_error(r),
{
    match encoded {
        Ok(text) => HttpResponse { status: 200, content_type: Some(format_type()), body: text },
        Err(_) => HttpResponse {
            status: 500,
            content_type: None,
            body: "Internal Server Error".to_owned(),
        },
    }
}

/// Serves one request against the shared state: the encoded snapshot for
/// `GET /metrics`, the not-found answer for everything else, and the
/// internal error only where the metrics route met an encoder failure.
pub fn handle_request(method: &str, path: &str, state: &MetricsState) -> (r: HttpResponse)
    ensures
        r.status == 404 <==> !is_metrics_request(method@, path@),
        !is_metrics_request(method@, path@) ==> is_not_found(r),
        r.status == 200 || r.status == 404 || r.status == 500,
        r.status == 200 ==> (r.content_type matches Some(ct) && ct@ == text_format()),
        r.status == 200 ==> (exists|families: Seq<prometheus::proto::MetricFamily>|
            r.body@ == #[trigger] text_encoding(families) && encodes_ok(families)),
        r.status == 500 ==> is_internal_error(r),
{
    if route_matches(method, path) {
        let gathered = state.gather_families();
        let families = drop_untyped(gathered);
        let encoded = encode_text(&families);
        let ghost encoding_outcome = encoded;
        let r = metrics_response(encoded);
        proof {
            if encoding_outcome matches Ok(text) {
                assert(r.body@ == text_encoding(families@));
            }
        }
        r
    } else {
        not_found_response()
    }
}

/// Law: the metrics body is determined by the gathered snapshot — two
/// successful answers built from the same families carry the same body,
/// the same status and the same content type.
pub proof fn lemma_snapshot_determines_response(
    families: Seq<prometheus::proto::MetricFamily>,
    r1: HttpResponse,
    r2: HttpResponse,
)
    requires
        is_metrics_ok(r1, text_encoding(families)),
        is_metrics_ok(r2, text_encoding(families)),
    ensures
        r1.body@ == r2.body@,
        r1.status == r2.status,
        r1.content_type matches Some(c1) && r2.content_type matches Some(c2) && c1@ == c2@,
{
}

} // verus!
