use vstd::prelude::*;

use crate::frame::{plan_at, scheduled_pipeline, Command, DrawStep, Pipeline, Step, PLAN_LEN};

verus! {

/// The state that a frame reaches when the host reports `reports` in turn,
/// one for each issued command; reports that come after the frame ended
/// change nothing.
pub open spec fn run(s: DrawStep, reports: Seq<bool>) -> DrawStep
    decreases reports.len(),
{
    if reports.len() == 0 || !(s.next_spec() is Issue) {
        s
    } else {
        run(s.after(reports[0]), reports.drop_first())
    }
}

/// The commands that a frame issues when the host reports `reports` in turn.
pub open spec fn issued(s: DrawStep, reports: Seq<bool>) -> Seq<Command>
    decreases reports.len(),
{
    if reports.len() == 0 || !(s.next_spec() is Issue) {
        Seq::empty()
    } else {
        seq![s.next_spec()->Issue_0] + issued(s.after(reports[0]), reports.drop_first())
    }
}

/// Whether the frame has ended, drawn or abandoned.
pub open spec fn is_over(s: DrawStep) -> bool {
    !(s.next_spec() is Issue)
}

/// An upper bound on the number of reports before the frame ends.
spec fn work_left(s: DrawStep) -> nat {
    match s.failure {
        None => (PLAN_LEN - s.pos + 1) as nat,
        Some(_) => if s.bound != s.prior { 1 } else { 0 },
    }
}

proof fn lemma_after_keeps(s: DrawStep, ok: bool)
    requires
        s.wf(),
        s.next_spec() is Issue,
    ensures
        s.after(ok).wf(),
        s.after(ok).prior == s.prior,
        work_left(s.after(ok)) < work_left(s),
{
}

proof fn lemma_run_keeps(s: DrawStep, reports: Seq<bool>)
    requires
        s.wf(),
    ensures
        run(s, reports).wf(),
        run(s, reports).prior == s.prior,
        reports.len() >= work_left(s) ==> is_over(run(s, reports)),
    decreases reports.len(),
{
    if reports.len() != 0 && s.next_spec() is Issue {
        lemma_after_keeps(s, reports[0]);
        lemma_run_keeps(s.after(reports[0]), reports.drop_first());
    }
}

/// Whatever each command reports, success or failure, once the frame has
/// ended the pipeline that was bound before it is bound again.
pub proof fn lemma_scope_restored(prior: Pipeline, reports: Seq<bool>)
    ensures
        is_over(run(DrawStep::initial(prior), reports)) ==> run(
            DrawStep::initial(prior),
            reports,
        ).bound == prior,
{
    lemma_run_keeps(DrawStep::initial(prior), reports);
}

/// Whatever each command reports, the frame ends after at most one report
/// more than the plan has commands.
pub proof fn lemma_frame_ends(prior: Pipeline, reports: Seq<bool>)
    requires
        reports.len() > PLAN_LEN,
    ensures
        is_over(run(DrawStep::initial(prior), reports)),
{
    lemma_run_keeps(DrawStep::initial(prior), reports);
}

/// Whatever each command reports, every command but those of the shader's
/// scope (the upload, the circle inside it and the restoring command) is
/// issued with the prior pipeline bound, so no binding of the shader wraps
/// it; and the circle inside the scope is issued with the dimmer bound, with
/// no failure so far, at its place in the plan, past the binding and the
/// upload.
pub proof fn lemma_outside_draws_unshaded(prior: Pipeline, reports: Seq<bool>)
    ensures
        ({
            let s = run(DrawStep::initial(prior), reports);
            &&& s.next_spec() == Step::Issue(Command::DrawCenterCircle) ==> {
                &&& s.bound == Pipeline::Dimmer
                &&& s.failure is None
                &&& s.pos == 6
            }
            &&& forall|c: Command|
                s.next_spec() == Step::Issue(c) && c != Command::DrawCenterCircle && c
                    != Command::UploadRate && c != Command::RestorePipeline ==> s.bound
                    == prior
        }),
{
    let s0 = DrawStep::initial(prior);
    lemma_run_keeps(s0, reports);
    let s = run(s0, reports);
    assert(s.failure is None ==> s.bound == scheduled_pipeline(s.pos as int, prior));
}

proof fn lemma_all_succeed_from(s: DrawStep, reports: Seq<bool>)
    requires
        s.wf(),
        s.failure is None,
        reports.len() == PLAN_LEN - s.pos,
        forall|i: int| 0 <= i < reports.len() ==> reports[i],
    ensures
        issued(s, reports) == Seq::new((PLAN_LEN - s.pos) as nat, |i: int| plan_at(s.pos + i)),
        run(s, reports).next_spec() == Step::Finished,
        run(s, reports).bound == s.prior,
    decreases reports.len(),
{
    let want = Seq::new((PLAN_LEN - s.pos) as nat, |i: int| plan_at(s.pos + i));
    if reports.len() == 0 {
        assert(issued(s, reports) =~= want);
    } else {
        let t = s.after(reports[0]);
        lemma_all_succeed_from(t, reports.drop_first());
        assert(issued(s, reports) =~= want);
    }
}

/// A frame in which every command succeeds issues exactly the plan, in
/// order (among them one upload and one circle inside the shader's scope,
/// two circles outside it), then finishes with the prior pipeline bound.
pub proof fn lemma_full_frame(prior: Pipeline, reports: Seq<bool>)
    requires
        reports.len() == PLAN_LEN,
        forall|i: int| 0 <= i < reports.len() ==> reports[i],
    ensures
        issued(DrawStep::initial(prior), reports) == Seq::new(PLAN_LEN as nat, |i: int| plan_at(i)),
        run(DrawStep::initial(prior), reports).next_spec() == Step::Finished,
        run(DrawStep::initial(prior), reports).bound == prior,
{
    let s0 = DrawStep::initial(prior);
    lemma_all_succeed_from(s0, reports);
    assert(Seq::new((PLAN_LEN - s0.pos) as nat, |i: int| plan_at(s0.pos + i)) =~= Seq::new(
        PLAN_LEN as nat,
        |i: int| plan_at(i),
    ));
}

} // verus!
