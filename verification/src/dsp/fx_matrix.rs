use vstd::prelude::*;
use crate::params::{EffectMode, FxChannelTarget, StereoLink};

verus! {

/// Number of processing slots in the effects matrix.
pub const MAX_SLOTS: usize = 8;

// ── Dynamics slot: channel gating and engine choice ─────────────────────────

/// Which stereo engine of a Dynamics slot processes a channel.
#[derive(Debug, Clone, Copy, PartialEq, Eq, Structural)]
pub enum EngineSide {
    /// The shared engine (left channel, or all channels when linked).
    Main,
    /// The right-channel engine of an independent stereo link.
    Right,
}

/// What a Dynamics slot does with one hop of one channel.
#[derive(Debug, Clone, Copy, PartialEq, Eq, Structural)]
pub enum SlotAction {
    /// The bins pass through unchanged and the slot reports no suppression.
    PassThrough,
    /// The spectral contrast engine processes the bins.
    Contrast,
    /// The compressor engine of the given side processes the bins.
    Compress(EngineSide),
}

/// A slot that targets Mid or Side does not process a channel that is not
/// that half of a Mid/Side signal.
pub open spec fn spec_slot_gated_off(target: FxChannelTarget, link: StereoLink, channel: usize) -> bool {
    match (target, link) {
        (FxChannelTarget::Mid, StereoLink::MidSide) => channel == 1,
        (FxChannelTarget::Side, StereoLink::MidSide) => channel == 0,
        (FxChannelTarget::Mid, _) => true,
        (FxChannelTarget::Side, _) => true,
        _ => false,
    }
}

pub open spec fn spec_engine_side(link: StereoLink, channel: usize) -> EngineSide {
    if link == StereoLink::Independent && channel == 1 {
        EngineSide::Right
    } else {
        EngineSide::Main
    }
}

pub open spec fn spec_dynamics_action(
    target: FxChannelTarget,
    link: StereoLink,
    channel: usize,
    mode: EffectMode,
) -> SlotAction {
    if spec_slot_gated_off(target, link, channel) {
        SlotAction::PassThrough
    } else {
        match mode {
            EffectMode::Bypass => SlotAction::PassThrough,
            EffectMode::SpectralContrast => SlotAction::Contrast,
            _ => SlotAction::Compress(spec_engine_side(link, channel)),
        }
    }
}

/// Whether a slot with channel target `target` skips `channel` under `link`.
pub fn slot_gated_off(target: FxChannelTarget, link: StereoLink, channel: usize) -> (skip: bool)
    ensures
        skip == spec_slot_gated_off(target, link, channel),
{
    match (target, link) {
        (FxChannelTarget::Mid, StereoLink::MidSide) => channel == 1,
        (FxChannelTarget::Side, StereoLink::MidSide) => channel == 0,
        (FxChannelTarget::Mid, _) => true,
        (FxChannelTarget::Side, _) => true,
        _ => false,
    }
}

/// The decision part of a Dynamics slot's hop: whether the slot is gated off
/// for this channel, and otherwise which engine runs. Freeze and phase
/// randomisation run after the matrix, so in those modes the compressor runs.
pub fn dynamics_action(
    target: FxChannelTarget,
    link: StereoLink,
    channel: usize,
    mode: EffectMode,
) -> (a: SlotAction)
    ensures
        a == spec_dynamics_action(target, link, channel, mode),
{
    if slot_gated_off(target, link, channel) {
        return SlotAction::PassThrough;
    }
    let side = if link == StereoLink::Independent && channel == 1 {
        EngineSide::Right
    } else {
        EngineSide::Main
    };
    match mode {
        EffectMode::Bypass => SlotAction::PassThrough,
        EffectMode::SpectralContrast => SlotAction::Contrast,
        _ => SlotAction::Compress(side),
    }
}

/// A slot that targets all channels is never gated off; a Mid slot runs only
/// on the mid channel (any channel but 1) of a Mid/Side link, a Side slot
/// only on the side channel (any channel but 0).
pub proof fn lemma_gating(link: StereoLink, channel: usize)
    ensures
        !spec_slot_gated_off(FxChannelTarget::All, link, channel),
        !spec_slot_gated_off(FxChannelTarget::Mid, link, channel) <==> (link == StereoLink::MidSide
            && channel != 1),
        !spec_slot_gated_off(FxChannelTarget::Side, link, channel) <==> (link == StereoLink::MidSide
            && channel != 0),
{
}

/// What a Dynamics slot does, in terms of its inputs: Bypass passes the bins
/// through on every channel; a slot that runs on the channel (an All slot, or
/// a Mid/Side slot on its half of a Mid/Side signal) applies the contrast
/// engine in SpectralContrast mode and a compressor in Freeze and PhaseRand
/// mode; the right-channel compressor serves exactly channel 1 of an
/// independent link; a slot that does not run on the channel passes through.
pub proof fn lemma_dynamics_action(
    target: FxChannelTarget,
    link: StereoLink,
    channel: usize,
    mode: EffectMode,
)
    ensures
        ({
            let a = spec_dynamics_action(target, link, channel, mode);
            let runs = target == FxChannelTarget::All || (link == StereoLink::MidSide && ((target
                == FxChannelTarget::Mid && channel != 1) || (target == FxChannelTarget::Side
                && channel != 0)));
            let right = link == StereoLink::Independent && channel == 1;
            &&& mode == EffectMode::Bypass ==> a == SlotAction::PassThrough
            &&& !runs ==> a == SlotAction::PassThrough
            &&& runs && mode == EffectMode::SpectralContrast ==> a == SlotAction::Contrast
            &&& runs && (mode == EffectMode::Freeze || mode == EffectMode::PhaseRand) ==> a
                == SlotAction::Compress(
                if right {
                    EngineSide::Right
                } else {
                    EngineSide::Main
                },
            )
            &&& a == SlotAction::PassThrough <==> (!runs || mode == EffectMode::Bypass)
            &&& a == SlotAction::Compress(EngineSide::Right) ==> right && mode != EffectMode::Bypass
            &&& a == SlotAction::Contrast ==> mode == EffectMode::SpectralContrast
        }),
{
}

// ── Hop plan: the order and inputs of the slot chain ────────────────────────

/// How one active slot assembles its input for the current hop.
pub struct SlotStep {
    /// Whether the plugin's main audio input is added (slot 0 only).
    pub main_input: bool,
    /// `forward[j]`: slot j's output of this hop is sent to this slot.
    pub forward: Vec<bool>,
    /// `feedback[j]`: slot j's output of the previous hop is sent to this slot.
    pub feedback: Vec<bool>,
    /// Channel target the slot processes with.
    pub target: FxChannelTarget,
}

/// The schedule of one hop through the slot chain. Slots run in index order;
/// `steps[i]` is `None` for an empty slot.
pub struct HopPlan {
    pub steps: Vec<Option<SlotStep>>,
    /// Slot whose output replaces the hop's bins; `None` leaves them unchanged.
    pub output: Option<usize>,
}

/// A send from `src` to `dst` is a feedback send (read from the previous hop)
/// when the source comes after the destination.
pub open spec fn send_is_feedback(src: int, dst: int) -> bool {
    src > dst
}

/// A send from `src` to `dst` is a forward send (read from the current hop)
/// when the source comes before the destination.
pub open spec fn send_is_forward(src: int, dst: int) -> bool {
    src < dst
}

/// The highest index below `n` whose slot is active.
pub open spec fn last_active(active: Seq<bool>, n: int) -> Option<int>
    decreases n,
{
    if n <= 0 {
        None
    } else if active[n - 1] {
        Some(n - 1)
    } else {
        last_active(active, n - 1)
    }
}

pub open spec fn step_ok(
    step: SlotStep,
    i: int,
    send_on: Seq<[bool; 8]>,
    target0: FxChannelTarget,
) -> bool {
    &&& step.main_input == (i == 0)
    &&& step.forward@.len() == MAX_SLOTS
    &&& step.feedback@.len() == MAX_SLOTS
    &&& forall|j: int|
        0 <= j < MAX_SLOTS ==> #[trigger] step.forward@[j] == (send_is_forward(j, i)
            && send_on[j]@[i])
    &&& forall|j: int|
        0 <= j < MAX_SLOTS ==> #[trigger] step.feedback@[j] == (send_is_feedback(j, i)
            && send_on[j]@[i])
    &&& step.target == (if i == 0 {
        target0
    } else {
        FxChannelTarget::All
    })
}

fn plan_step(i: usize, send_on: &[[bool; 8]; 8], target0: FxChannelTarget) -> (step: SlotStep)
    requires
        i < MAX_SLOTS,
    ensures
        step_ok(step, i as int, send_on@, target0),
{
    let mut forward: Vec<bool> = Vec::new();
    let mut feedback: Vec<bool> = Vec::new();
    let mut j: usize = 0;
    while j < MAX_SLOTS
        invariant
            i < MAX_SLOTS,
            j <= MAX_SLOTS,
            forward@.len() == j,
            feedback@.len() == j,
            forall|k: int| 0 <= k < j ==> #[trigger] forward@[k] == (k < i && send_on@[k]@[i as int]),
            forall|k: int| 0 <= k < j ==> #[trigger] feedback@[k] == (k > i && send_on@[k]@[i as int]),
        decreases MAX_SLOTS - j,
    {
        let on = send_on[j][i];
        forward.push(j < i && on);
        feedback.push(j > i && on);
        j = j + 1;
    }
    let target = if i == 0 {
        target0
    } else {
        FxChannelTarget::All
    };
    SlotStep { main_input: i == 0, forward, feedback, target }
}

/// Plans one STFT hop through the slot chain.
///
/// `active[i]` tells whether slot `i` holds a module; `send_on[src][dst]`
/// whether the send amplitude from `src` to `dst` is audible. Slot 0 always
/// receives the main audio input; a slot reads forward sends of this hop from
/// earlier slots and feedback sends of the previous hop from later slots. The
/// last active slot's output replaces the bins; with no active slot they pass
/// through unchanged.
pub fn plan_hop(
    active: &[bool; 8],
    send_on: &[[bool; 8]; 8],
    target0: FxChannelTarget,
) -> (plan: HopPlan)
    ensures
        plan.steps@.len() == MAX_SLOTS,
        forall|i: int|
            0 <= i < MAX_SLOTS ==> (#[trigger] plan.steps@[i] is Some) == active@[i],
        forall|i: int|
            0 <= i < MAX_SLOTS && active@[i] ==> step_ok(
                #[trigger] plan.steps@[i]->Some_0,
                i,
                send_on@,
                target0,
            ),
        plan.output == (match last_active(active@, MAX_SLOTS as int) {
            Some(i) => Some(i as usize),
            None => None,
        }),
        plan.output is None <==> (forall|i: int| 0 <= i < MAX_SLOTS ==> !active@[i]),
        plan.output matches Some(k) ==> k < MAX_SLOTS && active@[k as int] && (forall|i: int|
            k < i < MAX_SLOTS ==> !active@[i]),
{
    let mut steps: Vec<Option<SlotStep>> = Vec::new();
    let mut output: Option<usize> = None;
    let mut i: usize = 0;
    while i < MAX_SLOTS
        invariant
            i <= MAX_SLOTS,
            steps@.len() == i,
            forall|k: int| 0 <= k < i ==> (#[trigger] steps@[k] is Some) == active@[k],
            forall|k: int|
                0 <= k < i && active@[k] ==> step_ok(
                    #[trigger] steps@[k]->Some_0,
                    k,
                    send_on@,
                    target0,
                ),
            output == (match last_active(active@, i as int) {
                Some(k) => Some(k as usize),
                None => None,
            }),
        decreases MAX_SLOTS - i,
    {
        if active[i] {
            let step = plan_step(i, send_on, target0);
            steps.push(Some(step));
            output = Some(i);
        } else {
            steps.push(None);
        }
        i = i + 1;
    }
    proof {
        lemma_last_active(active@, MAX_SLOTS as int);
    }
    HopPlan { steps, output }
}

/// How each active slot takes its input, in terms of the send matrix: slot 0
/// alone takes the main input; a slot reads every audible send from each
/// earlier slot (the one just before included) from the current hop, and from
/// each later slot from the previous hop; it never reads its own output; no
/// send is read both ways; slot 0 runs with the given target, all others
/// with All.
pub proof fn lemma_step_inputs(step: SlotStep, i: int, send_on: Seq<[bool; 8]>, target0: FxChannelTarget)
    requires
        0 <= i < MAX_SLOTS,
        step_ok(step, i, send_on, target0),
    ensures
        step.main_input <==> i == 0,
        forall|j: int| 0 <= j < i ==> #[trigger] step.forward@[j] == send_on[j]@[i],
        forall|j: int| i < j < MAX_SLOTS ==> #[trigger] step.feedback@[j] == send_on[j]@[i],
        forall|j: int| 0 <= j < i ==> !#[trigger] step.feedback@[j],
        forall|j: int| i < j < MAX_SLOTS ==> !#[trigger] step.forward@[j],
        !step.forward@[i] && !step.feedback@[i],
        forall|j: int| 0 <= j < MAX_SLOTS ==> !(#[trigger] step.forward@[j] && step.feedback@[j]),
        i == 0 ==> step.target == target0,
        i != 0 ==> step.target == FxChannelTarget::All,
{
}

/// The last active slot is active and no later slot is; there is none exactly
/// when no slot is active.
pub proof fn lemma_last_active(active: Seq<bool>, n: int)
    requires
        0 <= n <= active.len(),
    ensures
        last_active(active, n) is None <==> (forall|i: int| 0 <= i < n ==> !active[i]),
        last_active(active, n) matches Some(k) ==> 0 <= k < n && active[k] && (forall|i: int|
            k < i < n ==> !active[i]),
    decreases n,
{
    if n > 0 {
        lemma_last_active(active, n - 1);
    }
}

} // verus!
