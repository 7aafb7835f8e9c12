use vstd::prelude::*;
use crate::dsp::fx_matrix::{MAX_SLOTS, send_is_feedback};
use crate::params::FxModuleType;

verus! {

/// What a cell of the routing-matrix grid shows.
#[derive(Debug, Clone, Copy, PartialEq, Eq, Structural)]
pub enum GridCell {
    /// A diagonal cell: the module of a slot, clicked to select it for editing.
    Module(usize),
    /// An off-diagonal cell: the amount of the send from slot `src` to slot `dst`.
    Send { src: usize, dst: usize, feedback: bool },
}

/// The cell at `row`, `col` of the grid. Row `r` lists what slot `r`
/// receives: the cell in column `c` edits the send from slot `c` to slot `r`,
/// drawn as feedback (upper triangle) exactly when the matrix reads that send
/// from the previous hop.
pub fn grid_cell(row: usize, col: usize) -> (cell: GridCell)
    requires
        row < MAX_SLOTS,
        col < MAX_SLOTS,
    ensures
        row == col ==> cell == GridCell::Module(row),
        row != col ==> cell == (GridCell::Send {
            src: col,
            dst: row,
            feedback: send_is_feedback(col as int, row as int),
        }),
{
    if row == col {
        GridCell::Module(row)
    } else {
        GridCell::Send { src: col, dst: row, feedback: col > row }
    }
}

/// Background of a module cell.
#[derive(Debug, Clone, Copy, PartialEq, Eq, Structural)]
pub enum CellFill {
    /// Raised background of an empty slot.
    Raised,
    /// Lit module colour of the slot being edited.
    ModuleLit,
    /// Dim module colour of an occupied slot not being edited.
    ModuleDim,
}

/// Text of a module cell.
#[derive(Debug, Clone, Copy, PartialEq, Eq, Structural)]
pub enum CellLabel {
    /// "+", offering to fill an empty slot.
    Plus,
    /// The slot's display name.
    SlotName,
}

/// Colour of a module cell's text.
#[derive(Debug, Clone, Copy, PartialEq, Eq, Structural)]
pub enum TextTone {
    Dim,
    Background,
}

#[derive(Debug, Clone, Copy, PartialEq, Eq, Structural)]
pub struct ModuleCellStyle {
    pub fill: CellFill,
    pub label: CellLabel,
    pub text: TextTone,
    /// A thick border marks the slot being edited.
    pub strong_border: bool,
}

pub open spec fn spec_module_cell_style(ty: FxModuleType, selected: bool) -> ModuleCellStyle {
    match ty {
        FxModuleType::Empty => ModuleCellStyle {
            fill: CellFill::Raised,
            label: CellLabel::Plus,
            text: TextTone::Dim,
            strong_border: selected,
        },
        FxModuleType::Dynamics => ModuleCellStyle {
            fill: if selected {
                CellFill::ModuleLit
            } else {
                CellFill::ModuleDim
            },
            label: CellLabel::SlotName,
            text: if selected {
                TextTone::Background
            } else {
                TextTone::Dim
            },
            strong_border: selected,
        },
    }
}

/// How the module cell of a slot holding `ty` is drawn; `selected` when it is
/// the slot being edited.
pub fn module_cell_style(ty: FxModuleType, selected: bool) -> (s: ModuleCellStyle)
    ensures
        s == spec_module_cell_style(ty, selected),
{
    match ty {
        FxModuleType::Empty => ModuleCellStyle {
            fill: CellFill::Raised,
            label: CellLabel::Plus,
            text: TextTone::Dim,
            strong_border: selected,
        },
        FxModuleType::Dynamics => ModuleCellStyle {
            fill: if selected {
                CellFill::ModuleLit
            } else {
                CellFill::ModuleDim
            },
            label: CellLabel::SlotName,
            text: if selected {
                TextTone::Background
            } else {
                TextTone::Dim
            },
            strong_border: selected,
        },
    }
}

/// How a module cell looks, in terms of the slot: the "+" offer appears
/// exactly on an empty slot, and an occupied slot shows its name whether it is
/// being edited or not; the raised background marks exactly an empty slot;
/// the lit colour marks exactly an occupied slot being edited; the text is in
/// the background tone exactly on that lit cell; the thick border marks
/// exactly the slot being edited.
pub proof fn lemma_module_cell_style(ty: FxModuleType, selected: bool)
    ensures
        ({
            let s = spec_module_cell_style(ty, selected);
            &&& s.label == CellLabel::Plus <==> ty == FxModuleType::Empty
            &&& s.label == CellLabel::SlotName <==> ty == FxModuleType::Dynamics
            &&& s.label == spec_module_cell_style(ty, !selected).label
            &&& s.fill == CellFill::Raised <==> ty == FxModuleType::Empty
            &&& s.fill == CellFill::ModuleLit <==> (ty == FxModuleType::Dynamics && selected)
            &&& s.fill == CellFill::ModuleDim <==> (ty == FxModuleType::Dynamics && !selected)
            &&& s.text == TextTone::Background <==> (ty == FxModuleType::Dynamics && selected)
            &&& s.strong_border == selected
        }),
{
}

/// The grid shows each slot's module on the diagonal and, off it, every send
/// between two different slots exactly once: the cell in row `dst`, column
/// `src` edits the send from `src` to `dst`, drawn as feedback exactly when the
/// source comes after the destination.
pub proof fn lemma_grid_layout(row: usize, col: usize, cell: GridCell)
    requires
        row < MAX_SLOTS,
        col < MAX_SLOTS,
        row == col ==> cell == GridCell::Module(row),
        row != col ==> cell == (GridCell::Send {
            src: col,
            dst: row,
            feedback: send_is_feedback(col as int, row as int),
        }),
    ensures
        cell matches GridCell::Module(slot) ==> slot == row && slot == col,
        cell matches GridCell::Send { src, dst, feedback } ==> src == col && dst == row && src
            != dst && (feedback <==> col > row),
{
}

} // verus!
