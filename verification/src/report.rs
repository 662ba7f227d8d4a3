//! Case records and the aggregated report: one status line per case in
//! submission order, a diagnostic block for every failing case, and a
//! summary message when any case failed.

use vstd::prelude::*;

use crate::digits::{dec_rep, usize_to_string};
use crate::style::{status_spec, status_text};

verus! {

/// What one case left behind: the label rendered when the case was
/// started, whether its body returned normally, and the text it emitted
/// while running.
pub struct CaseRecord {
    pub label: String,
    pub passed: bool,
    pub captured: String,
}

/// How a whole run ended: success when every case passed, otherwise a
/// failure carrying the counts and the summary message.
pub enum RunOutcome {
    Passed,
    Failed { failed: usize, total: usize, message: String },
}

/// The label of a case: the run's name followed by the parameter's
/// rendering in parentheses.
pub open spec fn case_label_spec(name: Seq<char>, rendered: Seq<char>) -> Seq<char> {
    name + " ("@ + rendered + ")"@
}

/// A case's status line: "test <label> ... <status>".
pub open spec fn status_line_spec(label: Seq<char>, passed: bool, colored: bool) -> Seq<char> {
    "test "@ + label + " ... "@ + status_spec(passed, colored)
}

/// The header above a failing case's captured output.
pub open spec fn diagnostic_header_spec(label: Seq<char>) -> Seq<char> {
    "---- "@ + label + " stdout ----"@
}

/// The diagnostic block of one failing case: a blank line, the header,
/// then the captured text verbatim.
pub open spec fn diagnostic_block_spec(r: CaseRecord) -> Seq<Seq<char>> {
    seq![Seq::<char>::empty(), diagnostic_header_spec(r.label@), r.captured@]
}

/// The status lines of a run, one per case, in submission order.
pub open spec fn status_lines_spec(rs: Seq<CaseRecord>, colored: bool) -> Seq<Seq<char>> {
    Seq::new(rs.len(), |i: int| status_line_spec(rs[i].label@, rs[i].passed, colored))
}

/// The diagnostic section of a run: the blocks of the failing cases, in
/// submission order, and nothing else.
pub open spec fn diagnostic_lines_spec(rs: Seq<CaseRecord>) -> Seq<Seq<char>>
    decreases rs.len(),
{
    if rs.len() == 0 {
        Seq::empty()
    } else {
        diagnostic_lines_spec(rs.drop_last()) + (if rs.last().passed {
            Seq::empty()
        } else {
            diagnostic_block_spec(rs.last())
        })
    }
}

/// The failing cases of a run, in submission order.
pub open spec fn failed_records(rs: Seq<CaseRecord>) -> Seq<CaseRecord>
    decreases rs.len(),
{
    if rs.len() == 0 {
        Seq::empty()
    } else {
        failed_records(rs.drop_last()) + (if rs.last().passed {
            Seq::empty()
        } else {
            seq![rs.last()]
        })
    }
}

/// How many cases failed.
pub open spec fn failed_count_spec(rs: Seq<CaseRecord>) -> nat
    decreases rs.len(),
{
    if rs.len() == 0 {
        0
    } else {
        failed_count_spec(rs.drop_last()) + (if rs.last().passed {
            0nat
        } else {
            1nat
        })
    }
}

/// The summary message of a failing run.
pub open spec fn summary_spec(failed: nat, total: nat) -> Seq<char> {
    dec_rep(failed) + " of "@ + dec_rep(total) + " tests failed"@
}

/// Every line the report prints: the status lines, the diagnostic blocks,
/// and one closing blank line when any case failed.
pub open spec fn report_lines_spec(rs: Seq<CaseRecord>, colored: bool) -> Seq<Seq<char>> {
    status_lines_spec(rs, colored) + diagnostic_lines_spec(rs) + (if failed_count_spec(rs) == 0 {
        Seq::<Seq<char>>::empty()
    } else {
        seq![Seq::<char>::empty()]
    })
}

/// The text of each line of a rendered report.
pub open spec fn lines_view(lines: Seq<String>) -> Seq<Seq<char>> {
    lines.map_values(|s: String| s@)
}

/// Renders a case's label from the run's name and the parameter's
/// rendering. Done once, when the case is started: the status line and
/// the diagnostic header both reuse this one rendering.
pub fn case_label(name: &str, rendered: &str) -> (r: String)
    ensures
        r@ == case_label_spec(name@, rendered@),
{
    let mut s = name.to_owned();
    s.append(" (");
    s.append(rendered);
    s.append(")");
    proof {
        assert(s@ =~= case_label_spec(name@, rendered@));
    }
    s
}

/// Renders one case's status line.
pub fn status_line(label: &str, passed: bool, colored: bool) -> (r: String)
    ensures
        r@ == status_line_spec(label@, passed, colored),
{
    let mut s = String::new();
    s.append("test ");
    s.append(label);
    s.append(" ... ");
    let st = status_text(passed, colored);
    s.append(st.as_str());
    proof {
        assert(s@ =~= status_line_spec(label@, passed, colored));
    }
    s
}

/// Renders the header above a failing case's captured output.
pub fn diagnostic_header(label: &str) -> (r: String)
    ensures
        r@ == diagnostic_header_spec(label@),
{
    let mut s = String::new();
    s.append("---- ");
    s.append(label);
    s.append(" stdout ----");
    proof {
        assert(s@ =~= diagnostic_header_spec(label@));
    }
    s
}

/// Counts the cases that failed.
pub fn failed_count(records: &Vec<CaseRecord>) -> (n: usize)
    ensures
        n == failed_count_spec(records@),
{
    let mut n: usize = 0;
    let mut i: usize = 0;
    while i < records.len()
        invariant
            i <= records.len(),
            n <= i,
            n == failed_count_spec(records@.take(i as int)),
        decreases records.len() - i,
    {
        proof {
            assert(records@.take(i + 1).drop_last() =~= records@.take(i as int));
        }
        if !records[i].passed {
            n = n + 1;
        }
        i = i + 1;
    }
    proof {
        assert(records@.take(records@.len() as int) =~= records@);
    }
    n
}

/// Renders the summary message of a failing run.
pub fn summary_message(failed: usize, total: usize) -> (r: String)
    ensures
        r@ == summary_spec(failed as nat, total as nat),
{
    let mut s = usize_to_string(failed);
    s.append(" of ");
    let t = usize_to_string(total);
    s.append(t.as_str());
    s.append(" tests failed");
    proof {
        assert(s@ =~= summary_spec(failed as nat, total as nat));
    }
    s
}

/// Renders the whole report for the given records, with colors on or off
/// as asked: every line to print, in order, and the run's outcome.
pub fn render_report(records: &Vec<CaseRecord>, colored: bool) -> (r: (Vec<String>, RunOutcome))
    ensures
        lines_view(r.0@) == report_lines_spec(records@, colored),
        (r.1 is Passed <==> failed_count_spec(records@) == 0),
        r.1 matches RunOutcome::Failed { failed, total, message } ==> failed
            == failed_count_spec(records@) && total == records@.len() && message@ == summary_spec(
            failed_count_spec(records@),
            records@.len(),
        ),
{
    let mut lines: Vec<String> = Vec::new();
    let mut i: usize = 0;
    while i < records.len()
        invariant
            i <= records.len(),
            lines_view(lines@) == status_lines_spec(records@.take(i as int), colored),
        decreases records.len() - i,
    {
        let ghost prev = lines@;
        let line = status_line(records[i].label.as_str(), records[i].passed, colored);
        let ghost lv = line@;
        lines.push(line);
        i = i + 1;
        proof {
            assert(lines_view(prev).len() == prev.len());
            assert(lines_view(prev).len() == status_lines_spec(
                records@.take(i as int - 1),
                colored,
            ).len());
            assert(records@.take(i as int - 1).len() == i - 1);
            assert(lines@.len() == i);
            assert(lines@[i - 1]@ == lv);
            assert forall|k: int| 0 <= k < i implies lines_view(lines@)[k] == status_lines_spec(
                records@.take(i as int),
                colored,
            )[k] by {
                assert(lines_view(lines@)[k] == lines@[k]@);
                assert(status_lines_spec(records@.take(i as int), colored)[k] == status_line_spec(
                    records@[k].label@,
                    records@[k].passed,
                    colored,
                ));
                if k < i - 1 {
                    assert(lines@[k] == prev[k]);
                    assert(lines_view(prev)[k] == prev[k]@);
                    assert(lines_view(prev)[k] == status_lines_spec(
                        records@.take(i - 1),
                        colored,
                    )[k]);
                }
            }
            assert(lines_view(lines@) =~~= status_lines_spec(records@.take(i as int), colored));
        }
    }
    proof {
        assert(records@.take(records@.len() as int) =~= records@);
    }
    let mut j: usize = 0;
    while j < records.len()
        invariant
            j <= records.len(),
            lines_view(lines@) == status_lines_spec(records@, colored) + diagnostic_lines_spec(
                records@.take(j as int),
            ),
        decreases records.len() - j,
    {
        proof {
            assert(records@.take(j + 1).drop_last() =~= records@.take(j as int));
            assert(records@.take(j + 1).last() == records@[j as int]);
        }
        let ghost prev = lines@;
        let ghost dprev = diagnostic_lines_spec(records@.take(j as int));
        let ghost sl = status_lines_spec(records@, colored);
        if !records[j].passed {
            lines.push(String::new());
            let header = diagnostic_header(records[j].label.as_str());
            lines.push(header);
            lines.push(records[j].captured.clone());
        }
        j = j + 1;
        proof {
            assert(lines_view(prev).len() == prev.len());
            assert(lines_view(prev).len() == (sl + dprev).len());
            assert(prev.len() == sl.len() + dprev.len());
            let target = sl + diagnostic_lines_spec(records@.take(j as int));
            assert(diagnostic_lines_spec(records@.take(j as int)) == dprev + (if records@[j
                - 1].passed {
                Seq::<Seq<char>>::empty()
            } else {
                diagnostic_block_spec(records@[j - 1])
            }));
            assert(lines@.len() == target.len());
            assert forall|k: int| 0 <= k < lines@.len() implies lines_view(lines@)[k]
                == target[k] by {
                assert(lines_view(lines@)[k] == lines@[k]@);
                if k < prev.len() {
                    assert(lines@[k] == prev[k]);
                    assert(lines_view(prev)[k] == prev[k]@);
                    assert(lines_view(prev)[k] == (sl + dprev)[k]);
                }
            }
            assert(lines_view(lines@) =~~= sl + diagnostic_lines_spec(records@.take(j as int)));
        }
    }
    proof {
        assert(records@.take(records@.len() as int) =~= records@);
    }
    let k = failed_count(records);
    if k == 0 {
        proof {
            assert(lines_view(lines@) =~~= report_lines_spec(records@, colored));
        }
        (lines, RunOutcome::Passed)
    } else {
        lines.push(String::new());
        let message = summary_message(k, records.len());
        proof {
            assert(lines_view(lines@) =~~= report_lines_spec(records@, colored));
        }
        (lines, RunOutcome::Failed { failed: k, total: records.len(), message })
    }
}

/// Renders the whole report, colored exactly when standard output is a
/// terminal. Which of the two renderings comes back depends on the
/// environment alone; the outcome does not.
pub fn run_report(records: &Vec<CaseRecord>) -> (r: (Vec<String>, RunOutcome))
    ensures
        lines_view(r.0@) == report_lines_spec(records@, true) || lines_view(r.0@)
            == report_lines_spec(records@, false),
        (r.1 is Passed <==> failed_count_spec(records@) == 0),
        r.1 matches RunOutcome::Failed { failed, total, message } ==> failed
            == failed_count_spec(records@) && total == records@.len() && message@ == summary_spec(
            failed_count_spec(records@),
            records@.len(),
        ),
{
    let colored = crate::style::stdout_is_tty();
    render_report(records, colored)
}

/// Law: the report opens with exactly one status line per case, in
/// submission order, whatever the cases' outcomes.
pub proof fn lemma_status_lines_in_order(rs: Seq<CaseRecord>, colored: bool)
    ensures
        report_lines_spec(rs, colored).len() >= rs.len(),
        forall|i: int|
            0 <= i < rs.len() ==> report_lines_spec(rs, colored)[i] == status_line_spec(
                (#[trigger] rs[i]).label@,
                rs[i].passed,
                colored,
            ),
{
}

/// Law: each case's status line is decided by that case's outcome alone,
/// and the line of a pass never coincides with the line of a failure:
/// under either color setting the rendered status words differ.
pub proof fn lemma_status_reflects_outcome(rs: Seq<CaseRecord>, colored: bool, i: int)
    requires
        0 <= i < rs.len(),
    ensures
        report_lines_spec(rs, colored)[i] == status_line_spec(rs[i].label@, rs[i].passed, colored),
        status_line_spec(rs[i].label@, true, colored) != status_line_spec(
            rs[i].label@,
            false,
            colored,
        ),
        crate::style::status_spec(true, false) == crate::style::ok_word(),
        crate::style::status_spec(false, false) == crate::style::failed_word(),
{
    reveal_strlit("ok");
    reveal_strlit("FAILED");
    reveal_strlit("\u{1b}[38;5;2m");
    reveal_strlit("\u{1b}[38;5;1m");
    reveal_strlit("\u{1b}[39m");
    assert(status_line_spec(rs[i].label@, true, colored).len() != status_line_spec(
        rs[i].label@,
        false,
        colored,
    ).len());
}

/// Law: the diagnostic section holds one block per failed case, in
/// submission order; each block opens with a blank line and that case's
/// header and shows that case's captured output and no other's. A passing
/// case gets no block.
pub proof fn lemma_diagnostics_exactly_for_failures(rs: Seq<CaseRecord>)
    ensures
        failed_records(rs).len() == failed_count_spec(rs),
        diagnostic_lines_spec(rs).len() == 3 * failed_count_spec(rs),
        forall|j: int|
            0 <= j < failed_records(rs).len() ==> !(#[trigger] failed_records(rs)[j]).passed,
        forall|j: int|
            0 <= j < failed_records(rs).len() ==> diagnostic_lines_spec(rs).subrange(
                3 * j,
                3 * j + 3,
            ) =~~= diagnostic_block_spec(#[trigger] failed_records(rs)[j]),
    decreases rs.len(),
{
    if rs.len() > 0 {
        lemma_diagnostics_exactly_for_failures(rs.drop_last());
        let fprev = failed_records(rs.drop_last());
        let dprev = diagnostic_lines_spec(rs.drop_last());
        assert forall|j: int|
            0 <= j < failed_records(rs).len() implies diagnostic_lines_spec(rs).subrange(
            3 * j,
            3 * j + 3,
        ) =~~= diagnostic_block_spec(#[trigger] failed_records(rs)[j]) by {
            if j < fprev.len() {
                assert(failed_records(rs)[j] == fprev[j]);
                assert(dprev.subrange(3 * j, 3 * j + 3) =~~= diagnostic_block_spec(fprev[j]));
                assert(diagnostic_lines_spec(rs).subrange(3 * j, 3 * j + 3) =~= dprev.subrange(
                    3 * j,
                    3 * j + 3,
                ));
            } else {
                assert(!rs.last().passed);
                assert(failed_records(rs)[j] == rs.last());
                assert(3 * j == dprev.len());
                assert(diagnostic_lines_spec(rs).subrange(3 * j, 3 * j + 3)
                    =~= diagnostic_block_spec(rs.last()));
            }
        }
    }
}

/// Law: the diagnostic section stands in the full report right after the
/// status lines, unchanged.
pub proof fn lemma_diagnostics_position(rs: Seq<CaseRecord>, colored: bool)
    ensures
        forall|t: int|
            0 <= t < diagnostic_lines_spec(rs).len() ==> report_lines_spec(rs, colored)[rs.len()
                + t] == #[trigger] diagnostic_lines_spec(rs)[t],
{
}

/// Law: the status line and the diagnostic header of one case carry the
/// same label text, character for character: the rendering done when the
/// case was started is reused, never redone.
pub proof fn lemma_label_rendered_once(label: Seq<char>, passed: bool, colored: bool)
    ensures
        status_line_spec(label, passed, colored).subrange(5, 5 + label.len() as int) == label,
        diagnostic_header_spec(label).subrange(5, 5 + label.len() as int) == label,
{
    reveal_strlit("test ");
    reveal_strlit("---- ");
    assert(status_line_spec(label, passed, colored).subrange(5, 5 + label.len() as int) =~= label);
    assert(diagnostic_header_spec(label).subrange(5, 5 + label.len() as int) =~= label);
}

/// Law: an empty parameter sequence yields an empty report and a
/// succeeding run: no status lines, no diagnostics, no failure.
pub proof fn lemma_empty_run(colored: bool)
    ensures
        report_lines_spec(Seq::<CaseRecord>::empty(), colored).len() == 0,
        failed_count_spec(Seq::<CaseRecord>::empty()) == 0,
{
}

/// Law: a run succeeds exactly when every case passed; the failure count
/// never exceeds the case count, and reaches it exactly when every case
/// failed.
pub proof fn lemma_failed_count_bounds(rs: Seq<CaseRecord>)
    ensures
        failed_count_spec(rs) <= rs.len(),
        failed_count_spec(rs) == 0 <==> (forall|i: int|
            0 <= i < rs.len() ==> (#[trigger] rs[i]).passed),
        failed_count_spec(rs) == rs.len() <==> (forall|i: int|
            0 <= i < rs.len() ==> !(#[trigger] rs[i]).passed),
    decreases rs.len(),
{
    if rs.len() > 0 {
        lemma_failed_count_bounds(rs.drop_last());
        assert(forall|i: int| 0 <= i < rs.len() - 1 ==> rs.drop_last()[i] == rs[i]);
        assert(rs.last() == rs[rs.len() - 1]);
    }
}

} // verus!
