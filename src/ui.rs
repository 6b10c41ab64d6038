use vstd::prelude::*;

verus! {

/// What an entry of the right-click menu does.
#[derive(Debug, Clone)]
pub enum ContextMenuAction {
    ChopTree,
    PickupItem,
    Attack,
    Fish,
    OpenBank,
    Examine(String),
    WithdrawOne,
    WithdrawTen,
    WithdrawHundred,
    WithdrawAll,
    WithdrawX,
    DepositOne,
    DepositTen,
    DepositHundred,
    DepositX,
    DepositAll,
    NoAction,
}

/// One entry of the right-click menu: its text and what it does.
#[derive(Debug, Clone)]
pub struct ContextMenuItem {
    pub text: String,
    pub action: ContextMenuAction,
}

} // verus!
