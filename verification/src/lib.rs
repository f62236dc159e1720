use vstd::prelude::*;

pub mod blink;
pub mod blink_program;
pub mod collection;
pub mod donations;
pub mod errors;
pub mod laws;
pub mod ledger;
pub mod math;
pub mod metadata;
pub mod mint;
pub mod nft;
pub mod payments;
pub mod pubkey;
pub mod store;
pub mod swap;
pub mod text;

verus! {

/// Everything the program keeps: one store for each kind of record. The
/// stores hand out their ids independently of one another.
pub struct Registry {
    pub blinks: store::Store<blink::Blink>,
    pub collections: store::Store<collection::Collection>,
    pub nfts: store::Store<nft::NFT>,
    pub donations: store::Store<donations::Donation>,
    pub payments: store::Store<payments::Payment>,
    pub swaps: store::Store<swap::Swap>,
}

impl Registry {
    /// A registry that holds no record of any kind.
    pub fn new() -> (registry: Registry)
        ensures
            registry.blinks@ == store::StoreView::<blink::Blink>::empty(),
            registry.collections@ == store::StoreView::<collection::Collection>::empty(),
            registry.nfts@ == store::StoreView::<nft::NFT>::empty(),
            registry.donations@ == store::StoreView::<donations::Donation>::empty(),
            registry.payments@ == store::StoreView::<payments::Payment>::empty(),
            registry.swaps@ == store::StoreView::<swap::Swap>::empty(),
    {
        Registry {
            blinks: store::Store::new(),
            collections: store::Store::new(),
            nfts: store::Store::new(),
            donations: store::Store::new(),
            payments: store::Store::new(),
            swaps: store::Store::new(),
        }
    }
}

} // verus!
