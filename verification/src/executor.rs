//! The case executor: runs a test body once per parameter value, each call
//! against a fresh captured sink, and collects one record per case, in
//! submission order.
//!
//! The body signals failure by its returned flag rather than by unwinding,
//! and emits diagnostic text through the sink it is handed; what the
//! returned sink holds becomes the case's captured output. A concurrent
//! front end may instead run bodies in isolated execution units and build
//! the records itself; the report then comes from the same renderer.

use vstd::prelude::*;

use crate::report::{case_label, case_label_spec, CaseRecord};
use crate::sink::OutputSink;

verus! {

/// What one call of the body vouches for one record: handed a fresh
/// captured sink, the body produced this record's status, and the sink it
/// returned held exactly this record's captured text.
pub open spec fn case_ran<T, F: Fn(T, OutputSink) -> (OutputSink, bool)>(
    body: F,
    param: T,
    before: OutputSink,
    after: OutputSink,
    record: CaseRecord,
) -> bool {
    &&& before.is_captured()
    &&& before.captured_text().len() == 0
    &&& call_ensures(body, (param, before), (after, record.passed))
    &&& record.captured@ == after.captured_text()
}

/// Runs the body once per parameter, in order. The i-th record carries the
/// label composed from the run's name and the i-th rendering, and its
/// status and captured text are exactly what one call of the body on the
/// i-th parameter, handed a fresh captured sink, produced: no case touches
/// another's output.
pub fn run_cases<T, F: Fn(T, OutputSink) -> (OutputSink, bool)>(
    name: &str,
    rendered: Vec<String>,
    params: Vec<T>,
    body: F,
) -> (records: Vec<CaseRecord>)
    requires
        rendered@.len() == params@.len(),
        forall|t: T, s: OutputSink| #[trigger] call_requires(body, (t, s)),
    ensures
        records@.len() == params@.len(),
        forall|i: int|
            0 <= i < records@.len() ==> (#[trigger] records@[i]).label@ == case_label_spec(
                name@,
                rendered@[i]@,
            ),
        exists|starts: Seq<OutputSink>, ends: Seq<OutputSink>|
            {
                &&& #[trigger] starts.len() == params@.len()
                &&& #[trigger] ends.len() == params@.len()
                &&& forall|i: int|
                    0 <= i < records@.len() ==> case_ran(
                        body,
                        params@[i],
                        starts[i],
                        ends[i],
                        #[trigger] records@[i],
                    )
            },
{
    let ghost orig_params = params@;
    let ghost orig_rendered = rendered@;
    let mut ps = params;
    let mut rs = rendered;
    let mut records: Vec<CaseRecord> = Vec::new();
    let ghost mut w_starts: Seq<OutputSink> = Seq::empty();
    let ghost mut w_ends: Seq<OutputSink> = Seq::empty();
    while ps.len() > 0
        invariant
            rs@.len() == ps@.len(),
            records@.len() + ps@.len() == orig_params.len(),
            ps@ == orig_params.skip(records@.len() as int),
            rs@ == orig_rendered.skip(records@.len() as int),
            orig_rendered.len() == orig_params.len(),
            w_starts.len() == records@.len(),
            w_ends.len() == records@.len(),
            forall|t: T, s: OutputSink| #[trigger] call_requires(body, (t, s)),
            forall|i: int|
                0 <= i < records@.len() ==> (#[trigger] records@[i]).label@ == case_label_spec(
                    name@,
                    orig_rendered[i]@,
                ),
            forall|i: int|
                0 <= i < records@.len() ==> case_ran(
                    body,
                    orig_params[i],
                    w_starts[i],
                    w_ends[i],
                    #[trigger] records@[i],
                ),
        decreases ps@.len(),
    {
        let ghost k = records@.len() as int;
        proof {
            assert(ps@[0] == orig_params[k]);
            assert(rs@[0] == orig_rendered[k]);
        }
        let param = ps.remove(0);
        let rend = rs.remove(0);
        let label = case_label(name, rend.as_str());
        let sink = OutputSink::captured();
        let ghost g_sink = sink;
        let (sink_out, ok) = body(param, sink);
        let ghost g_out = sink_out;
        let captured = sink_out.drain();
        let ghost pre_records = records@;
        records.push(CaseRecord { label, passed: ok, captured });
        proof {
            w_starts = w_starts.push(g_sink);
            w_ends = w_ends.push(g_out);
            assert(ps@ =~= orig_params.skip(records@.len() as int));
            assert(rs@ =~= orig_rendered.skip(records@.len() as int));
            assert(case_ran(body, orig_params[k], w_starts[k], w_ends[k], records@[k]));
            assert(forall|i: int|
                0 <= i < k ==> #[trigger] records@[i] == pre_records[i] && w_starts[i]
                    == w_starts.drop_last()[i] && w_ends[i] == w_ends.drop_last()[i]);
        }
    }
    proof {
        assert(exists|starts: Seq<OutputSink>, ends: Seq<OutputSink>|
            {
                &&& #[trigger] starts.len() == orig_params.len()
                &&& #[trigger] ends.len() == orig_params.len()
                &&& forall|i: int|
                    0 <= i < records@.len() ==> case_ran(
                        body,
                        orig_params[i],
                        starts[i],
                        ends[i],
                        #[trigger] records@[i],
                    )
            }) by {
            assert(w_starts.len() == orig_params.len());
            assert(w_ends.len() == orig_params.len());
        }
    }
    records
}

} // verus!
