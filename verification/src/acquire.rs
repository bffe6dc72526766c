//! Copying a region of the screen through the platform's drawing interface:
//! which handle to ask for next, what to give back when a step fails, and
//! how large the buffer for the pixels is.
//!
//! The calls themselves are the caller's; this module decides their order.

use vstd::prelude::*;
use vstd::string::*;
use crate::error::{default_message, CaptureError, ErrorKind};
use crate::region::CaptureRegion;

verus! {

/// Number of handles that a copy holds at its height.
pub const HANDLE_COUNT: u8 = 4;

/// A handle that the copy holds for a time and has to give back.
#[derive(Clone, Copy, Debug, PartialEq, Eq, Structural)]
pub enum Handle {
    /// The device context of the screen.
    ScreenContext,
    /// A memory device context compatible with the screen.
    MemoryContext,
    /// A bitmap of the size of the region.
    Bitmap,
    /// The bitmap selected into the memory context; giving it back selects
    /// the object that was there before.
    Selection,
}

/// One call that the copy asks its caller to make.
#[derive(Clone, Copy, Debug, PartialEq, Eq, Structural)]
pub enum CopyStep {
    /// Ask the platform for a handle.
    Acquire(Handle),
    /// Copy the region from the screen into the bitmap.
    CopyPixels,
    /// Read the pixels of the bitmap into the buffer.
    ReadPixels,
    /// Give a handle back.
    Release(Handle),
    /// Nothing is left to do and nothing is held. `None` says that the buffer
    /// holds the pixels, `Some` names the step that failed.
    Done(Option<FailedStep>),
}

/// The calls that can fail, each reported on its own.
#[derive(Clone, Copy, Debug, PartialEq, Eq, Structural)]
pub enum FailedStep {
    ScreenContext,
    MemoryContext,
    Bitmap,
    CopyPixels,
    ReadPixels,
}

/// Where a copy stands.
#[derive(Clone, Copy, Debug, PartialEq, Eq, Structural)]
pub enum Phase {
    /// Asking for the next handle.
    Acquiring,
    /// All handles held, pixels being copied.
    Copying,
    /// All handles held, pixels being read.
    Reading,
    /// Giving handles back.
    Releasing,
    /// Over.
    Finished,
}

/// What a copy is: how many handles it holds, always the first ones in the
/// order of acquisition; where it stands; and the step that failed, if any.
pub struct CopyModel {
    pub held: nat,
    pub phase: Phase,
    pub failure: Option<FailedStep>,
}

/// The `index`-th handle in the order of acquisition.
pub open spec fn handle_at(index: nat) -> Handle {
    if index == 0 {
        Handle::ScreenContext
    } else if index == 1 {
        Handle::MemoryContext
    } else if index == 2 {
        Handle::Bitmap
    } else {
        Handle::Selection
    }
}

/// The failure to report when the `index`-th handle cannot be had. Selecting
/// the bitmap is not checked, so it has no failure of its own.
pub open spec fn failure_at(index: nat) -> Option<FailedStep> {
    if index == 0 {
        Some(FailedStep::ScreenContext)
    } else if index == 1 {
        Some(FailedStep::MemoryContext)
    } else if index == 2 {
        Some(FailedStep::Bitmap)
    } else {
        None
    }
}

impl CopyModel {
    /// A copy that has not asked for anything yet.
    pub open spec fn start() -> CopyModel {
        CopyModel { held: 0, phase: Phase::Acquiring, failure: None }
    }

    /// The states that a copy can be in.
    pub open spec fn well_formed(self) -> bool {
        match self.phase {
            Phase::Acquiring => self.held < 4 && self.failure is None,
            Phase::Copying => self.held == 4 && self.failure is None,
            Phase::Reading => self.held == 4 && self.failure is None,
            Phase::Releasing => 1 <= self.held <= 4,
            Phase::Finished => self.held == 0,
        }
    }

    /// The call that the copy waits for the outcome of.
    pub open spec fn pending(self) -> CopyStep {
        match self.phase {
            Phase::Acquiring => CopyStep::Acquire(handle_at(self.held)),
            Phase::Copying => CopyStep::CopyPixels,
            Phase::Reading => CopyStep::ReadPixels,
            Phase::Releasing => CopyStep::Release(handle_at((self.held - 1) as nat)),
            Phase::Finished => CopyStep::Done(self.failure),
        }
    }

    /// The copy with everything given back that it holds, one handle at a
    /// time, the last one acquired first.
    pub open spec fn winding_down(self, failure: Option<FailedStep>) -> CopyModel {
        if self.held == 0 {
            CopyModel { held: 0, phase: Phase::Finished, failure }
        } else {
            CopyModel { held: self.held, phase: Phase::Releasing, failure }
        }
    }

    /// The copy after the pending call came back, `succeeded` saying how. A
    /// handle that cannot be given back counts as given back.
    pub open spec fn next(self, succeeded: bool) -> CopyModel {
        match self.phase {
            Phase::Acquiring => if succeeded || failure_at(self.held) is None {
                if self.held + 1 < 4 {
                    CopyModel { held: self.held + 1, phase: Phase::Acquiring, failure: None }
                } else {
                    CopyModel { held: 4, phase: Phase::Copying, failure: None }
                }
            } else {
                self.winding_down(failure_at(self.held))
            },
            Phase::Copying => if succeeded {
                CopyModel { held: 4, phase: Phase::Reading, failure: None }
            } else {
                self.winding_down(Some(FailedStep::CopyPixels))
            },
            Phase::Reading => if succeeded {
                self.winding_down(None)
            } else {
                self.winding_down(Some(FailedStep::ReadPixels))
            },
            Phase::Releasing => CopyModel {
                held: (self.held - 1) as nat,
                phase: self.phase,
                failure: self.failure,
            }.winding_down(self.failure),
            Phase::Finished => self,
        }
    }

    /// The copy after the pending calls came back one after the other with
    /// `outcomes`.
    pub open spec fn after(self, outcomes: Seq<bool>) -> CopyModel
        decreases outcomes.len(),
    {
        if outcomes.len() == 0 {
            self
        } else {
            self.after(outcomes.drop_last()).next(outcomes.last())
        }
    }

    /// Number of calls that a copy in this state still asks for at most.
    pub open spec fn calls_left(self) -> nat {
        match self.phase {
            Phase::Acquiring => (10 - self.held) as nat,
            Phase::Copying => 6,
            Phase::Reading => 5,
            Phase::Releasing => self.held,
            Phase::Finished => 0,
        }
    }
}

/// A step leads from one state of a copy to another and brings the end
/// nearer. The pixels are read only after they were copied with all four
/// handles held, and the copy is over only when nothing is held.
pub proof fn lemma_next_keeps_well_formed(copy: CopyModel, succeeded: bool)
    requires
        copy.well_formed(),
    ensures
        copy.next(succeeded).well_formed(),
        copy.phase != Phase::Finished ==> copy.next(succeeded).calls_left() < copy.calls_left(),
        copy.next(succeeded).phase == Phase::Finished ==> copy.next(succeeded).held == 0,
        copy.next(succeeded).phase == Phase::Reading ==> copy.phase == Phase::Copying && succeeded,
        copy.next(succeeded).failure is None && copy.next(succeeded).phase == Phase::Finished
            && copy.phase != Phase::Finished ==> copy.phase == Phase::Releasing
            && copy.failure is None,
{
}

/// Every exit gives back what was acquired: whatever the outcomes of the
/// calls, after ten of them the copy is over and holds nothing.
pub proof fn lemma_copy_ends_with_nothing_held(outcomes: Seq<bool>)
    requires
        outcomes.len() >= 10,
    ensures
        CopyModel::start().after(outcomes).phase == Phase::Finished,
        CopyModel::start().after(outcomes).held == 0,
{
    lemma_calls_left_shrinks(outcomes);
}

/// After some outcomes the copy is in one of its states and asks for as many
/// calls fewer as it got outcomes, or is over.
proof fn lemma_calls_left_shrinks(outcomes: Seq<bool>)
    ensures
        CopyModel::start().after(outcomes).well_formed(),
        CopyModel::start().after(outcomes).calls_left() + outcomes.len() <= 10
            || CopyModel::start().after(outcomes).phase == Phase::Finished,
    decreases outcomes.len(),
{
    if outcomes.len() > 0 {
        lemma_calls_left_shrinks(outcomes.drop_last());
        lemma_next_keeps_well_formed(
            CopyModel::start().after(outcomes.drop_last()),
            outcomes.last(),
        );
    }
}

/// The sentence that reports the failure of `step`.
pub open spec fn failure_sentence(step: FailedStep) -> Seq<char> {
    match step {
        FailedStep::ScreenContext => "Failed to access screen device context."@,
        FailedStep::MemoryContext => "Failed to create compatible DC."@,
        FailedStep::Bitmap => "Failed to create bitmap."@,
        FailedStep::CopyPixels => "Failed to copy screen pixels."@,
        FailedStep::ReadPixels => "Failed to read bitmap data."@,
    }
}

/// The error that reports the failure of `step`.
pub fn copy_failure(step: FailedStep) -> (out: CaptureError)
    ensures
        out.kind == ErrorKind::PlatformResourceFailure,
        out.message@ == failure_sentence(step),
{
    let sentence = match step {
        FailedStep::ScreenContext => "Failed to access screen device context.",
        FailedStep::MemoryContext => "Failed to create compatible DC.",
        FailedStep::Bitmap => "Failed to create bitmap.",
        FailedStep::CopyPixels => "Failed to copy screen pixels.",
        FailedStep::ReadPixels => "Failed to read bitmap data.",
    };
    CaptureError::described(ErrorKind::PlatformResourceFailure, sentence)
}

/// The sizes that the platform calls of a copy are made with.
#[derive(Clone, Copy, Debug, PartialEq, Eq, Structural)]
pub struct CopyPlan {
    /// Width of the bitmap, as the platform takes it.
    pub width: i32,
    /// Height of the bitmap, as the platform takes it.
    pub height: i32,
    /// Length of the buffer in bytes: four for each pixel of the region, and
    /// no more.
    pub buffer_len: usize,
}

/// Whether the platform can be asked for a bitmap of `region`: its edges fit
/// the platform's signed sizes and its bytes can be addressed.
pub open spec fn copyable(region: CaptureRegion) -> bool {
    &&& region.width <= i32::MAX
    &&& region.height <= i32::MAX
    &&& 4 * region.width * region.height <= usize::MAX
}

/// The sizes to copy `region` with: none for a region without area, which is
/// never copied, and none for one that is too large for the platform.
pub fn copy_plan(region: CaptureRegion) -> (out: Result<CopyPlan, CaptureError>)
    ensures
        match out {
            Ok(plan) => {
                &&& !region.is_empty()
                &&& copyable(region)
                &&& plan.width == region.width
                &&& plan.height == region.height
                &&& plan.buffer_len == 4 * region.width * region.height
            },
            Err(error) => if region.is_empty() {
                error.kind == ErrorKind::EmptyRegion && error.message@ == default_message(
                    ErrorKind::EmptyRegion,
                )
            } else {
                &&& !copyable(region)
                &&& error.kind == ErrorKind::PlatformResourceFailure
                &&& error.message@ == failure_sentence(FailedStep::Bitmap)
            },
        },
{
    if region.has_no_area() {
        return Err(CaptureError::of_kind(ErrorKind::EmptyRegion));
    }
    if region.width > 0x7fff_ffff || region.height > 0x7fff_ffff {
        return Err(copy_failure(FailedStep::Bitmap));
    }
    let wide_width: u128 = region.width as u128;
    let wide_height: u128 = region.height as u128;
    assert(4 * wide_width * wide_height <= 4 * 0x7fff_ffff * 0x7fff_ffff) by (nonlinear_arith)
        requires
            wide_width <= 0x7fff_ffff,
            wide_height <= 0x7fff_ffff,
    ;
    let bytes: u128 = 4 * wide_width * wide_height;
    if bytes > usize::MAX as u128 {
        return Err(copy_failure(FailedStep::Bitmap));
    }
    Ok(CopyPlan { width: region.width as i32, height: region.height as i32, buffer_len: bytes as usize })
}

/// A copy of a region of the screen in progress.
#[derive(Clone, Copy, Debug)]
pub struct PixelCopy {
    held: u8,
    phase: Phase,
    failure: Option<FailedStep>,
}

impl View for PixelCopy {
    type V = CopyModel;

    closed spec fn view(&self) -> CopyModel {
        CopyModel { held: self.held as nat, phase: self.phase, failure: self.failure }
    }
}

impl PixelCopy {
    #[verifier::type_invariant]
    closed spec fn in_a_state(self) -> bool {
        self@.well_formed()
    }

    /// A copy that has not asked for anything yet. Its first call is for the
    /// device context of the screen.
    pub fn start() -> (out: PixelCopy)
        ensures
            out@ == CopyModel::start(),
    {
        PixelCopy { held: 0, phase: Phase::Acquiring, failure: None }
    }

    /// The `index`-th handle in the order of acquisition.
    fn handle(index: u8) -> (out: Handle)
        ensures
            out == handle_at(index as nat),
    {
        if index == 0 {
            Handle::ScreenContext
        } else if index == 1 {
            Handle::MemoryContext
        } else if index == 2 {
            Handle::Bitmap
        } else {
            Handle::Selection
        }
    }

    /// The call that the copy waits for the outcome of.
    pub fn pending(&self) -> (out: CopyStep)
        ensures
            out == self@.pending(),
            self@.well_formed(),
    {
        proof {
            use_type_invariant(self);
        }
        match self.phase {
            Phase::Acquiring => CopyStep::Acquire(Self::handle(self.held)),
            Phase::Copying => CopyStep::CopyPixels,
            Phase::Reading => CopyStep::ReadPixels,
            Phase::Releasing => CopyStep::Release(Self::handle(self.held - 1)),
            Phase::Finished => CopyStep::Done(self.failure),
        }
    }

    /// Takes note of how the pending call came back and says which call to
    /// make next.
    pub fn advance(&mut self, succeeded: bool) -> (out: CopyStep)
        ensures
            final(self)@ == old(self)@.next(succeeded),
            out == final(self)@.pending(),
            final(self)@.well_formed(),
    {
        proof {
            use_type_invariant(&*self);
            lemma_next_keeps_well_formed(self@, succeeded);
        }
        let held = self.held;
        let failure: Option<FailedStep> = match self.phase {
            Phase::Acquiring => if held == 0 {
                Some(FailedStep::ScreenContext)
            } else if held == 1 {
                Some(FailedStep::MemoryContext)
            } else if held == 2 {
                Some(FailedStep::Bitmap)
            } else {
                None
            },
            Phase::Copying => Some(FailedStep::CopyPixels),
            Phase::Reading => Some(FailedStep::ReadPixels),
            Phase::Releasing => None,
            Phase::Finished => None,
        };
        let next = match self.phase {
            Phase::Acquiring => if succeeded || failure.is_none() {
                if held + 1 < 4 {
                    PixelCopy { held: held + 1, phase: Phase::Acquiring, failure: None }
                } else {
                    PixelCopy { held: 4, phase: Phase::Copying, failure: None }
                }
            } else {
                Self::wind_down(held, failure)
            },
            Phase::Copying => if succeeded {
                PixelCopy { held: 4, phase: Phase::Reading, failure: None }
            } else {
                Self::wind_down(held, failure)
            },
            Phase::Reading => if succeeded {
                Self::wind_down(held, None)
            } else {
                Self::wind_down(held, failure)
            },
            Phase::Releasing => Self::wind_down(held - 1, self.failure),
            Phase::Finished => PixelCopy { held: 0, phase: Phase::Finished, failure: self.failure },
        };
        *self = next;
        self.pending()
    }

    /// A copy that holds `held` handles and gives them back.
    fn wind_down(held: u8, failure: Option<FailedStep>) -> (out: PixelCopy)
        requires
            held <= 4,
        ensures
            out@ == (CopyModel { held: held as nat, phase: Phase::Releasing, failure }).winding_down(
                failure,
            ),
    {
        if held == 0 {
            PixelCopy { held: 0, phase: Phase::Finished, failure }
        } else {
            PixelCopy { held, phase: Phase::Releasing, failure }
        }
    }
}

} // verus!
