use vstd::prelude::*;

use crate::compositor::{composite_result, composited, CompositeError, Framebuffer, Rect};
use crate::step_gate::StepGate;

verus! {

/// Resolution at which the decoder is asked to produce the image.
#[derive(Clone, Copy, Debug, PartialEq, Eq, Structural)]
pub enum Scale {
    Full,
    Half,
    Quarter,
    Eighth,
}

pub open spec fn scale_divisor(s: Scale) -> nat {
    match s {
        Scale::Full => 1,
        Scale::Half => 2,
        Scale::Quarter => 4,
        Scale::Eighth => 8,
    }
}

impl Scale {
    /// By how much each image dimension is divided.
    pub fn divisor(&self) -> (r: u32)
        ensures
            r == scale_divisor(*self),
    {
        match self {
            Scale::Full => 1,
            Scale::Half => 2,
            Scale::Quarter => 4,
            Scale::Eighth => 8,
        }
    }

    /// The option bits that select this scale in the decoder's decode call.
    pub fn decoder_flag(&self) -> (r: i32)
        ensures
            r == if *self == Scale::Full {
                0
            } else {
                scale_divisor(*self) as int
            },
    {
        match self {
            Scale::Full => 0,
            Scale::Half => 2,
            Scale::Quarter => 4,
            Scale::Eighth => 8,
        }
    }
}

/// Why a decode pass produced no report.
#[derive(Clone, Debug)]
pub enum DecodeError {
    /// The decoder would not open the source bytes; its own explanation.
    OpenFailed { message: String },
    /// The decoder opened the source but the decode call failed.
    DecodeFailed,
    /// A block was rejected by the compositor and the pass aborts on that.
    CompositorRejected(CompositeError),
}

/// What a successful decode pass did.
#[derive(Clone, Copy, Debug, PartialEq, Eq, Structural)]
pub struct DecodeReport {
    pub rectangles_emitted: u64,
    pub rectangles_written: u64,
    pub rectangles_skipped: u64,
    pub elapsed_micros: u64,
}

/// One more, stopping at the largest `u64`.
pub open spec fn bump(n: nat) -> nat {
    if n < u64::MAX {
        n + 1
    } else {
        n
    }
}

/// The decoder's blocks as one decode pass receives them: each is handed to
/// the compositor, and the pass counts what was written and what was skipped.
pub struct DecodePass {
    emitted: u64,
    written: u64,
    skipped: u64,
    rejection: Option<CompositeError>,
    abort_on_reject: bool,
}

fn bumped(n: u64) -> (r: u64)
    ensures
        r == bump(n as nat),
{
    if n < u64::MAX {
        n + 1
    } else {
        n
    }
}

impl DecodePass {
    pub closed spec fn emitted_spec(&self) -> nat {
        self.emitted as nat
    }

    pub closed spec fn written_spec(&self) -> nat {
        self.written as nat
    }

    pub closed spec fn skipped_spec(&self) -> nat {
        self.skipped as nat
    }

    /// The first rejection of the pass, if any.
    pub closed spec fn rejection_spec(&self) -> Option<CompositeError> {
        self.rejection
    }

    pub closed spec fn aborts_on_reject(&self) -> bool {
        self.abort_on_reject
    }

    /// A pass that has seen no block. With `abort_on_reject` a rejected block
    /// fails the whole pass; without it the block is skipped.
    pub fn new(abort_on_reject: bool) -> (p: DecodePass)
        ensures
            p.emitted_spec() == 0,
            p.written_spec() == 0,
            p.skipped_spec() == 0,
            p.rejection_spec() is None,
            p.aborts_on_reject() == abort_on_reject,
    {
        DecodePass { emitted: 0, written: 0, skipped: 0, rejection: None, abort_on_reject }
    }

    pub fn emitted(&self) -> (r: u64)
        ensures
            r == self.emitted_spec(),
    {
        self.emitted
    }

    pub fn written(&self) -> (r: u64)
        ensures
            r == self.written_spec(),
    {
        self.written
    }

    pub fn skipped(&self) -> (r: u64)
        ensures
            r == self.skipped_spec(),
    {
        self.skipped
    }

    /// Composites one block the decoder emitted and counts the outcome.
    pub fn on_block(&mut self, fb: &mut Framebuffer, r: &Rect, pixels: &[u16]) -> (res: Result<
        (),
        CompositeError,
    >)
        requires
            old(fb).wf(),
            pixels@.len() == r.width * r.height,
        ensures
            final(fb).wf(),
            final(fb)@.width == old(fb)@.width,
            final(fb)@.height == old(fb)@.height,
            res == composite_result(*r, old(fb)@.width, old(fb)@.height),
            res is Ok ==> final(fb)@.cells == composited(
                old(fb)@.cells,
                old(fb)@.width,
                *r,
                pixels@,
            ),
            res is Err ==> final(fb)@.cells == old(fb)@.cells,
            final(self).emitted_spec() == bump(old(self).emitted_spec()),
            final(self).written_spec() == if res is Ok {
                bump(old(self).written_spec())
            } else {
                old(self).written_spec()
            },
            final(self).skipped_spec() == if res is Err {
                bump(old(self).skipped_spec())
            } else {
                old(self).skipped_spec()
            },
            final(self).rejection_spec() == if old(self).rejection_spec() is None && res is Err {
                Some(res->Err_0)
            } else {
                old(self).rejection_spec()
            },
            final(self).aborts_on_reject() == old(self).aborts_on_reject(),
    {
        self.emitted = bumped(self.emitted);
        let res = fb.composite(r, pixels);
        match res {
            Ok(()) => {
                self.written = bumped(self.written);
            },
            Err(e) => {
                self.skipped = bumped(self.skipped);
                if self.rejection.is_none() {
                    self.rejection = Some(e);
                }
            },
        }
        res
    }

    /// Offers one block to the step gate and composites it only where the
    /// gate lets it through; true when it was let through.
    pub fn on_gated_block(
        &mut self,
        gate: &mut StepGate,
        fb: &mut Framebuffer,
        r: &Rect,
        pixels: &[u16],
    ) -> (drawn: bool)
        requires
            old(gate).wf(),
            old(fb).wf(),
            pixels@.len() == r.width * r.height,
        ensures
            final(gate).wf(),
            final(gate).target_spec() == old(gate).target_spec(),
            final(gate).ceiling_spec() == old(gate).ceiling_spec(),
            drawn == (old(gate).seen_spec() < u64::MAX && old(gate).seen_spec() + 1
                == old(gate).target_spec()),
            final(gate).drawn_spec() == old(gate).drawn_spec() + if drawn {
                1nat
            } else {
                0nat
            },
            final(fb).wf(),
            final(fb)@.width == old(fb)@.width,
            final(fb)@.height == old(fb)@.height,
            drawn && composite_result(*r, old(fb)@.width, old(fb)@.height) is Ok
                ==> final(fb)@.cells == composited(old(fb)@.cells, old(fb)@.width, *r, pixels@),
            !drawn || composite_result(*r, old(fb)@.width, old(fb)@.height) is Err
                ==> final(fb)@.cells == old(fb)@.cells,
            final(self).emitted_spec() == bump(old(self).emitted_spec()),
            final(self).aborts_on_reject() == old(self).aborts_on_reject(),
    {
        if gate.offer() {
            let _ = self.on_block(fb, r, pixels);
            true
        } else {
            self.emitted = bumped(self.emitted);
            false
        }
    }

    /// The outcome of the pass, from what the decoder reported: whether it
    /// opened the source, whether the decode call succeeded, its last error
    /// text and the time the decode took.
    pub fn finish(&self, opened: bool, decoded: bool, last_error: String, elapsed_micros: u64) -> (res:
        Result<DecodeReport, DecodeError>)
        ensures
            !opened ==> (res matches Err(DecodeError::OpenFailed { message }) && message@
                == last_error@),
            opened && !decoded ==> (res matches Err(DecodeError::DecodeFailed)),
            opened && decoded && self.aborts_on_reject() && self.rejection_spec() is Some ==> (
            res matches Err(DecodeError::CompositorRejected(e)) && Some(e)
                == self.rejection_spec()),
            opened && decoded && !(self.aborts_on_reject() && self.rejection_spec() is Some) ==> res
                == Ok::<DecodeReport, DecodeError>(
                DecodeReport {
                    rectangles_emitted: self.emitted_spec() as u64,
                    rectangles_written: self.written_spec() as u64,
                    rectangles_skipped: self.skipped_spec() as u64,
                    elapsed_micros,
                },
            ),
    {
        if !opened {
            return Err(DecodeError::OpenFailed { message: last_error });
        }
        if !decoded {
            return Err(DecodeError::DecodeFailed);
        }
        if self.abort_on_reject {
            if let Some(e) = self.rejection {
                return Err(DecodeError::CompositorRejected(e));
            }
        }
        Ok(
            DecodeReport {
                rectangles_emitted: self.emitted,
                rectangles_written: self.written,
                rectangles_skipped: self.skipped,
                elapsed_micros,
            },
        )
    }
}

} // verus!
