//! Interrupt dispatch: the strict-priority resolution of the two interrupt
//! conditions the picture unit reports each processor step.

use vstd::prelude::*;

verus! {

/// Per-instruction output of the picture unit: the two interrupt conditions
/// and whether a frame was completed during the step.
#[derive(Clone, Copy, PartialEq, Eq, Structural, Debug)]
pub struct StepResult {
    pub vblank_nmi: bool,
    pub scanline_irq: bool,
    pub new_frame: bool,
}

/// The single interrupt (if any) dispatched toward the processor in one step.
#[derive(Clone, Copy, PartialEq, Eq, Structural, Debug)]
pub enum Interrupt {
    Nmi,
    Irq,
    NoInterrupt,
}

/// The dispatch rule, recomputed fresh from each step's conditions and never
/// carried across steps: NMI if `vblank_nmi`; else IRQ if `scanline_irq`;
/// else nothing.
pub open spec fn dispatch_rule(r: StepResult) -> Interrupt {
    if r.vblank_nmi {
        Interrupt::Nmi
    } else if r.scanline_irq {
        Interrupt::Irq
    } else {
        Interrupt::NoInterrupt
    }
}

/// Resolves one step's interrupt conditions into at most one dispatch.
pub fn dispatch(r: StepResult) -> (int_out: Interrupt)
    ensures
        int_out == dispatch_rule(r),
{
    if r.vblank_nmi {
        Interrupt::Nmi
    } else if r.scanline_irq {
        Interrupt::Irq
    } else {
        Interrupt::NoInterrupt
    }
}

/// Whenever `vblank_nmi` holds, the step dispatches NMI and never IRQ,
/// whatever `scanline_irq` reports: NMI outranks IRQ and the two are mutually
/// exclusive per step.
pub proof fn lemma_nmi_outranks_irq(r: StepResult)
    requires
        r.vblank_nmi,
    ensures
        dispatch_rule(r) == Interrupt::Nmi,
        dispatch_rule(r) != Interrupt::Irq,
{
}

/// Whenever `scanline_irq` holds without `vblank_nmi`, the step dispatches
/// IRQ and nothing else.
pub proof fn lemma_irq_when_unmasked_by_nmi(r: StepResult)
    requires
        !r.vblank_nmi,
        r.scanline_irq,
    ensures
        dispatch_rule(r) == Interrupt::Irq,
{
}

} // verus!
