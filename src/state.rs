use vstd::prelude::*;

verus! {

/// The one persisted record: who manages the contract, who may mint, and
/// which factory denominations the contract administers.
#[derive(Debug, Clone, PartialEq, Eq)]
pub struct Config {
    pub manager: String,
    pub allowed_mint_addresses: Vec<String>,
    pub denoms: Vec<String>,
}

/// The abstract value of a `Config`.
pub struct ConfigView {
    pub manager: Seq<char>,
    pub allowed_mint_addresses: Seq<Seq<char>>,
    pub denoms: Seq<Seq<char>>,
}

impl View for Config {
    type V = ConfigView;

    open spec fn view(&self) -> ConfigView {
        ConfigView {
            manager: self.manager@,
            allowed_mint_addresses: crate::lists::views(self.allowed_mint_addresses@),
            denoms: crate::lists::views(self.denoms@),
        }
    }
}

impl ConfigView {
    /// Neither the whitelist nor the denomination set holds an entry twice.
    pub open spec fn wf(self) -> bool {
        &&& self.allowed_mint_addresses.no_duplicates()
        &&& self.denoms.no_duplicates()
    }
}

} // verus!
