use vstd::prelude::*;

verus! {

#[derive(Clone, Debug, Default)]
pub struct BankGold {
    /// The quantity of the item.
    pub quantity: u32,
}

} // verus!
