use vstd::prelude::*;

verus! {

/// The rendering pipeline that the device has bound.
#[derive(Clone, Copy, Debug, PartialEq, Eq, Structural)]
pub enum Pipeline {
    /// The runtime's ordinary, unshaded pipeline.
    Default,
    /// The dimming shader program.
    Dimmer,
}

/// One piece of outside work of a frame's draw step.
#[derive(Clone, Copy, Debug, PartialEq, Eq, Structural)]
pub enum Command {
    Clear,
    DrawTicksLabel,
    DrawFpsLabel,
    DrawLeftCircle,
    /// Enter the shader's scope: bind the dimming program.
    BindDimmer,
    /// Upload the current dim parameter to the bound program.
    UploadRate,
    DrawCenterCircle,
    /// Leave the shader's scope: bind the pipeline that was active before it.
    RestorePipeline,
    DrawRightCircle,
    Present,
}

/// Why a frame's draw step was aborted.
#[derive(Clone, Copy, Debug, PartialEq, Eq, Structural)]
pub enum DrawError {
    ShaderUploadFailed,
    DrawFailed,
}

/// What the host must do next.
#[derive(Clone, Copy, Debug, PartialEq, Eq, Structural)]
pub enum Step {
    /// Perform the command, then report whether it succeeded.
    Issue(Command),
    /// Every command succeeded; the frame is drawn.
    Finished,
    /// A command failed; the frame is abandoned with this error.
    Aborted(DrawError),
}

/// Number of commands in a frame that draws without failure.
pub const PLAN_LEN: usize = 10;

/// Position in the plan of the command that enters the shader's scope.
pub open spec fn bind_pos() -> int {
    4
}

/// Position in the plan of the command that leaves the shader's scope.
pub open spec fn restore_pos() -> int {
    7
}

/// The frame's commands in order: two labels and a circle unshaded, one
/// circle inside the shader's scope, and one more circle unshaded.
pub open spec fn plan_at(i: int) -> Command {
    if i == 0 {
        Command::Clear
    } else if i == 1 {
        Command::DrawTicksLabel
    } else if i == 2 {
        Command::DrawFpsLabel
    } else if i == 3 {
        Command::DrawLeftCircle
    } else if i == 4 {
        Command::BindDimmer
    } else if i == 5 {
        Command::UploadRate
    } else if i == 6 {
        Command::DrawCenterCircle
    } else if i == 7 {
        Command::RestorePipeline
    } else if i == 8 {
        Command::DrawRightCircle
    } else {
        Command::Present
    }
}

/// The command at position `i` of a frame's plan.
pub fn command_at(i: usize) -> (r: Command)
    requires
        i < PLAN_LEN,
    ensures
        r == plan_at(i as int),
{
    if i == 0 {
        Command::Clear
    } else if i == 1 {
        Command::DrawTicksLabel
    } else if i == 2 {
        Command::DrawFpsLabel
    } else if i == 3 {
        Command::DrawLeftCircle
    } else if i == 4 {
        Command::BindDimmer
    } else if i == 5 {
        Command::UploadRate
    } else if i == 6 {
        Command::DrawCenterCircle
    } else if i == 7 {
        Command::RestorePipeline
    } else if i == 8 {
        Command::DrawRightCircle
    } else {
        Command::Present
    }
}

/// The error that a failed command aborts the frame with.
pub open spec fn failure_of(c: Command) -> DrawError {
    if c == Command::BindDimmer || c == Command::UploadRate {
        DrawError::ShaderUploadFailed
    } else {
        DrawError::DrawFailed
    }
}

/// The pipeline that is bound, in a frame with no failure so far, when the
/// command at `pos` is next: the dimmer from its binding up to the restoring
/// command, the prior pipeline everywhere else.
pub open spec fn scheduled_pipeline(pos: int, prior: Pipeline) -> Pipeline {
    if bind_pos() < pos <= restore_pos() {
        Pipeline::Dimmer
    } else {
        prior
    }
}

/// State of one frame's draw step.
pub struct DrawStep {
    /// Position in the plan of the next command, while nothing has failed.
    pub pos: usize,
    /// The pipeline that is bound now.
    pub bound: Pipeline,
    /// The pipeline that was bound when the frame began.
    pub prior: Pipeline,
    /// The error of the first command that failed, if any.
    pub failure: Option<DrawError>,
}

impl DrawStep {
    pub open spec fn wf(self) -> bool {
        &&& self.pos <= PLAN_LEN
        &&& self.failure is None ==> self.bound == scheduled_pipeline(self.pos as int, self.prior)
    }

    /// The state of a frame that has not begun, with `prior` bound.
    pub open spec fn initial(prior: Pipeline) -> DrawStep {
        DrawStep { pos: 0, bound: prior, prior, failure: None }
    }

    /// What comes next: after a failure, the restoring command while the
    /// prior pipeline is not bound again, then the abort; otherwise the next
    /// command of the plan, and at its end the finish.
    pub open spec fn next_spec(self) -> Step {
        match self.failure {
            Some(e) => if self.bound != self.prior {
                Step::Issue(Command::RestorePipeline)
            } else {
                Step::Aborted(e)
            },
            None => if self.pos < PLAN_LEN {
                Step::Issue(plan_at(self.pos as int))
            } else {
                Step::Finished
            },
        }
    }

    /// The state after the issued command was performed, `ok` telling
    /// whether it succeeded. Restoring the prior pipeline cannot fail. A
    /// failed binding still counts as bound, so that the scope is left
    /// through the restoring command all the same.
    pub open spec fn after(self, ok: bool) -> DrawStep {
        let c = self.next_spec()->Issue_0;
        if c == Command::RestorePipeline {
            DrawStep {
                pos: if self.failure is None { (self.pos + 1) as usize } else { self.pos },
                bound: self.prior,
                ..self
            }
        } else if c == Command::BindDimmer {
            DrawStep {
                pos: (self.pos + 1) as usize,
                bound: Pipeline::Dimmer,
                failure: if ok { None } else { Some(DrawError::ShaderUploadFailed) },
                ..self
            }
        } else if ok {
            DrawStep { pos: (self.pos + 1) as usize, ..self }
        } else {
            DrawStep { failure: Some(failure_of(c)), ..self }
        }
    }

    /// Begins a frame with `prior` bound.
    pub fn new(prior: Pipeline) -> (r: DrawStep)
        ensures
            r == DrawStep::initial(prior),
            r.wf(),
    {
        DrawStep { pos: 0, bound: prior, prior, failure: None }
    }

    /// What the host must do next.
    pub fn next_action(&self) -> (r: Step)
        requires
            self.wf(),
        ensures
            r == self.next_spec(),
    {
        match self.failure {
            Some(e) => if self.bound != self.prior {
                Step::Issue(Command::RestorePipeline)
            } else {
                Step::Aborted(e)
            },
            None => if self.pos < PLAN_LEN {
                Step::Issue(command_at(self.pos))
            } else {
                Step::Finished
            },
        }
    }

    /// Records the outcome of the command that `next_action` issued.
    pub fn report(&mut self, ok: bool)
        requires
            old(self).wf(),
            old(self).next_spec() is Issue,
        ensures
            *final(self) == old(self).after(ok),
            final(self).wf(),
    {
        let c = match self.next_action() {
            Step::Issue(c) => c,
            _ => Command::Present,
        };
        if c == Command::RestorePipeline {
            if self.failure.is_none() {
                self.pos = self.pos + 1;
            }
            self.bound = self.prior;
        } else if c == Command::BindDimmer {
            self.pos = self.pos + 1;
            self.bound = Pipeline::Dimmer;
            self.failure = if ok { None } else { Some(DrawError::ShaderUploadFailed) };
        } else if ok {
            self.pos = self.pos + 1;
        } else {
            self.failure = Some(if c == Command::UploadRate {
                DrawError::ShaderUploadFailed
            } else {
                DrawError::DrawFailed
            });
        }
    }

    /// Whether the frame has ended, drawn or abandoned.
    pub fn is_over(&self) -> (r: bool)
        requires
            self.wf(),
        ensures
            r == !(self.next_spec() is Issue),
    {
        match self.next_action() {
            Step::Issue(_) => false,
            _ => true,
        }
    }
}

} // verus!
