//! The decision logic of a frame that draws one shape through a dimming
//! shader: which draw command comes next, which pipeline is bound while it
//! runs, and how a failure inside the shader's scope still ends with the
//! prior pipeline restored.

mod frame;
mod laws;

pub use frame::{command_at, plan_at, Command, DrawError, DrawStep, Pipeline, Step, PLAN_LEN};
pub use laws::{
    is_over, issued, lemma_frame_ends, lemma_full_frame, lemma_outside_draws_unshaded,
    lemma_scope_restored, run,
};
