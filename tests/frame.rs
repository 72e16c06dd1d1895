use shader_dimmer::{command_at, Command, DrawError, DrawStep, Pipeline, Step, PLAN_LEN};

/// Drives one frame, answering each issued command with `outcome(command,
/// index)`; returns the commands with the pipeline bound when each was
/// issued, and the step the frame ended on.
fn drive(
    prior: Pipeline,
    outcome: impl Fn(Command, usize) -> bool,
) -> (Vec<(Command, Pipeline)>, Step, DrawStep) {
    let mut step = DrawStep::new(prior);
    let mut issued = Vec::new();
    loop {
        match step.next_action() {
            Step::Issue(c) => {
                issued.push((c, step.bound));
                let ok = outcome(c, issued.len() - 1);
                step.report(ok);
            }
            end => return (issued, end, step),
        }
    }
}

fn is_circle(c: Command) -> bool {
    matches!(
        c,
        Command::DrawLeftCircle | Command::DrawCenterCircle | Command::DrawRightCircle
    )
}

#[test]
fn plan_lists_the_frame_in_order() {
    let plan: Vec<Command> = (0..PLAN_LEN).map(command_at).collect();
    assert_eq!(
        plan,
        vec![
            Command::Clear,
            Command::DrawTicksLabel,
            Command::DrawFpsLabel,
            Command::DrawLeftCircle,
            Command::BindDimmer,
            Command::UploadRate,
            Command::DrawCenterCircle,
            Command::RestorePipeline,
            Command::DrawRightCircle,
            Command::Present,
        ]
    );
}

#[test]
fn successful_frame_issues_the_plan() {
    let (issued, end, step) = drive(Pipeline::Default, |_, _| true);
    let commands: Vec<Command> = issued.iter().map(|p| p.0).collect();
    let plan: Vec<Command> = (0..PLAN_LEN).map(command_at).collect();
    assert_eq!(commands, plan);
    assert_eq!(end, Step::Finished);
    assert_eq!(step.bound, Pipeline::Default);
    assert!(step.is_over());
}

#[test]
fn one_shaded_circle_and_two_unshaded_per_frame() {
    // Three frames in a row, as the ticks advance.
    for _frame in 0..3 {
        let (issued, end, _) = drive(Pipeline::Default, |_, _| true);
        assert_eq!(end, Step::Finished);
        let shaded = issued
            .iter()
            .filter(|(c, p)| is_circle(*c) && *p == Pipeline::Dimmer)
            .count();
        let unshaded = issued
            .iter()
            .filter(|(c, p)| is_circle(*c) && *p == Pipeline::Default)
            .count();
        assert_eq!(shaded, 1);
        assert_eq!(unshaded, 2);
        let uploads = issued.iter().filter(|(c, _)| *c == Command::UploadRate).count();
        assert_eq!(uploads, 1);
    }
}

#[test]
fn draws_outside_the_scope_have_no_shader_bound() {
    let (issued, _, _) = drive(Pipeline::Default, |_, _| true);
    for (c, p) in issued {
        match c {
            Command::UploadRate | Command::DrawCenterCircle | Command::RestorePipeline => {
                assert_eq!(p, Pipeline::Dimmer)
            }
            _ => assert_eq!(p, Pipeline::Default),
        }
    }
}

#[test]
fn failed_upload_restores_then_aborts() {
    let (issued, end, step) = drive(Pipeline::Default, |c, _| c != Command::UploadRate);
    let commands: Vec<Command> = issued.iter().map(|p| p.0).collect();
    assert_eq!(&commands[4..], &[Command::BindDimmer, Command::UploadRate, Command::RestorePipeline]);
    assert_eq!(end, Step::Aborted(DrawError::ShaderUploadFailed));
    assert_eq!(step.bound, Pipeline::Default);
}

#[test]
fn failed_bind_restores_then_aborts() {
    let (issued, end, step) = drive(Pipeline::Default, |c, _| c != Command::BindDimmer);
    let commands: Vec<Command> = issued.iter().map(|p| p.0).collect();
    assert_eq!(&commands[4..], &[Command::BindDimmer, Command::RestorePipeline]);
    assert_eq!(end, Step::Aborted(DrawError::ShaderUploadFailed));
    assert_eq!(step.bound, Pipeline::Default);
}

#[test]
fn failed_shaded_draw_restores_then_aborts() {
    let (issued, end, step) = drive(Pipeline::Default, |c, _| c != Command::DrawCenterCircle);
    let commands: Vec<Command> = issued.iter().map(|p| p.0).collect();
    assert_eq!(
        &commands[4..],
        &[
            Command::BindDimmer,
            Command::UploadRate,
            Command::DrawCenterCircle,
            Command::RestorePipeline
        ]
    );
    assert_eq!(end, Step::Aborted(DrawError::DrawFailed));
    assert_eq!(step.bound, Pipeline::Default);
}

#[test]
fn failed_draw_before_the_scope_aborts_without_binding() {
    let (issued, end, step) = drive(Pipeline::Default, |c, _| c != Command::DrawLeftCircle);
    assert_eq!(issued.len(), 4);
    assert!(issued.iter().all(|(c, p)| *c != Command::BindDimmer && *p == Pipeline::Default));
    assert_eq!(end, Step::Aborted(DrawError::DrawFailed));
    assert_eq!(step.bound, Pipeline::Default);
}

#[test]
fn failed_draw_after_the_scope_aborts() {
    let (issued, end, step) = drive(Pipeline::Default, |c, _| c != Command::DrawRightCircle);
    assert_eq!(issued.len(), 9);
    assert_eq!(end, Step::Aborted(DrawError::DrawFailed));
    assert_eq!(step.bound, Pipeline::Default);
}

#[test]
fn every_command_failing_ends_at_once() {
    let (issued, end, step) = drive(Pipeline::Default, |_, _| false);
    assert_eq!(issued.len(), 1);
    assert_eq!(end, Step::Aborted(DrawError::DrawFailed));
    assert_eq!(step.bound, Pipeline::Default);
}

#[test]
fn any_single_failure_restores_the_prior_pipeline() {
    for prior in [Pipeline::Default, Pipeline::Dimmer] {
        for failing in 0..PLAN_LEN {
            let (issued, end, step) = drive(prior, |_, i| i != failing);
            assert!(issued.len() <= PLAN_LEN + 1);
            assert!(matches!(end, Step::Aborted(_)) || end == Step::Finished);
            assert_eq!(step.bound, prior);
            assert!(step.is_over());
        }
    }
}

#[test]
fn restoring_ignores_a_reported_failure() {
    let (issued, end, step) = drive(Pipeline::Default, |c, _| c != Command::RestorePipeline);
    assert_eq!(issued.len(), PLAN_LEN);
    assert_eq!(end, Step::Finished);
    assert_eq!(step.bound, Pipeline::Default);
}

#[test]
fn new_frame_starts_with_clear() {
    let step = DrawStep::new(Pipeline::Default);
    assert_eq!(step.next_action(), Step::Issue(Command::Clear));
    assert!(!step.is_over());
    assert_eq!(step.pos, 0);
    assert_eq!(step.failure, None);
}
