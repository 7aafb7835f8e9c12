use vstd::prelude::*;

verus! {

/// Number of dynamics parameter curve sets.
pub const NUM_CURVE_SETS: usize = 7;
/// Number of nodes in each curve.
pub const NUM_NODES: usize = 6;
/// Number of user slots in the effects routing matrix.
pub const NUM_FX_SLOTS: usize = 8;

/// Index of each of the 7 parameter curve sets.
pub const CURVE_IDX_THRESHOLD: usize = 0;
pub const CURVE_IDX_RATIO: usize = 1;
pub const CURVE_IDX_ATTACK: usize = 2;
pub const CURVE_IDX_RELEASE: usize = 3;
pub const CURVE_IDX_KNEE: usize = 4;
pub const CURVE_IDX_MAKEUP: usize = 5;
pub const CURVE_IDX_MIX: usize = 6;

#[derive(Debug, Clone, Copy, PartialEq, Eq, Structural)]
pub enum ThresholdMode {
    Absolute,
    Relative,
}

#[derive(Debug, Clone, Copy, PartialEq, Eq, Structural)]
pub enum StereoLink {
    Independent,
    Linked,
    MidSide,
}

#[derive(Debug, Clone, Copy, PartialEq, Eq, Structural)]
pub enum EffectMode {
    Bypass,
    Freeze,
    PhaseRand,
    SpectralContrast,
}

#[derive(Debug, Clone, Copy, PartialEq, Eq, Structural)]
pub enum FxModuleType {
    Empty,
    Dynamics,
}

impl Default for FxModuleType {
    fn default() -> (r: Self)
        ensures
            r == FxModuleType::Empty,
    {
        FxModuleType::Empty
    }
}

#[derive(Debug, Clone, Copy, PartialEq, Eq, Structural)]
pub enum FxChannelTarget {
    All,
    Mid,
    Side,
}

impl Default for FxChannelTarget {
    fn default() -> (r: Self)
        ensures
            r == FxChannelTarget::All,
    {
        FxChannelTarget::All
    }
}

/// The text shown for a channel target.
pub open spec fn target_label(t: FxChannelTarget) -> Seq<char> {
    match t {
        FxChannelTarget::All => "All"@,
        FxChannelTarget::Mid => "Mid"@,
        FxChannelTarget::Side => "Side"@,
    }
}

impl FxChannelTarget {
    pub fn label(self) -> (s: &'static str)
        ensures
            s@ == target_label(self),
    {
        match self {
            FxChannelTarget::All => "All",
            FxChannelTarget::Mid => "Mid",
            FxChannelTarget::Side => "Side",
        }
    }
}

/// The channel-target labels shown in the editor.
pub proof fn lemma_target_labels()
    ensures
        target_label(FxChannelTarget::All) == "All"@,
        target_label(FxChannelTarget::Mid) == "Mid"@,
        target_label(FxChannelTarget::Side) == "Side"@,
{
}

/// The per-slot configuration of the effects matrix that the plugin persists:
/// module type, display name and channel target of each of the 8 slots.
pub struct FxSlotConfig {
    pub module_types: [FxModuleType; 8],
    pub module_names: [String; 8],
    pub module_targets: [FxChannelTarget; 8],
}

/// The default display name of slot `i`: "Dynamics" for slot 0, "Slot i" for the others.
pub open spec fn default_slot_name(i: int) -> Seq<char> {
    if i == 0 {
        "Dynamics"@
    } else {
        "Slot "@ + seq![('0' as int + i) as char]
    }
}

impl FxSlotConfig {
    /// The configuration of a fresh plugin instance: slot 0 holds the Dynamics
    /// module, the other seven slots are empty; all slots process all channels.
    pub fn new() -> (c: Self)
        ensures
            c.module_types@[0] == FxModuleType::Dynamics,
            forall|i: int| 1 <= i < 8 ==> c.module_types@[i] == FxModuleType::Empty,
            forall|i: int| 0 <= i < 8 ==> c.module_targets@[i] == FxChannelTarget::All,
            forall|i: int| 0 <= i < 8 ==> #[trigger] c.module_names@[i]@ == default_slot_name(i),
    {
        let names = [
            String::from_str("Dynamics"),
            String::from_str("Slot 1"),
            String::from_str("Slot 2"),
            String::from_str("Slot 3"),
            String::from_str("Slot 4"),
            String::from_str("Slot 5"),
            String::from_str("Slot 6"),
            String::from_str("Slot 7"),
        ];
        proof {
            reveal_strlit("Dynamics");
            reveal_strlit("Slot 1");
            reveal_strlit("Slot 2");
            reveal_strlit("Slot 3");
            reveal_strlit("Slot 4");
            reveal_strlit("Slot 5");
            reveal_strlit("Slot 6");
            reveal_strlit("Slot 7");
            reveal_strlit("Slot ");
            assert forall|i: int| 0 <= i < 8 implies #[trigger] names@[i]@ == default_slot_name(i) by {
                if i == 1 { assert(names@[1]@ =~= default_slot_name(1)); }
                if i == 2 { assert(names@[2]@ =~= default_slot_name(2)); }
                if i == 3 { assert(names@[3]@ =~= default_slot_name(3)); }
                if i == 4 { assert(names@[4]@ =~= default_slot_name(4)); }
                if i == 5 { assert(names@[5]@ =~= default_slot_name(5)); }
                if i == 6 { assert(names@[6]@ =~= default_slot_name(6)); }
                if i == 7 { assert(names@[7]@ =~= default_slot_name(7)); }
            }
        }
        FxSlotConfig {
            module_types: [
                FxModuleType::Dynamics,
                FxModuleType::Empty,
                FxModuleType::Empty,
                FxModuleType::Empty,
                FxModuleType::Empty,
                FxModuleType::Empty,
                FxModuleType::Empty,
                FxModuleType::Empty,
            ],
            module_names: names,
            module_targets: [FxChannelTarget::All; 8],
        }
    }
}

} // verus!
