//! Network configuration of the coprocessor's task manager, resolved once
//! into an immutable value that is handed to the clients.
use vstd::prelude::*;
use crate::codec::Address;
use crate::config::{zero_address, zero_address_bytes};

verus! {

/// The task manager on Arbitrum Sepolia, 0xeA30c4B8b44078Bbf8a6ef5b9f1eC1626C7848D9.
pub open spec fn arbitrum_sepolia_task_manager() -> Seq<u8> {
    seq![0xeau8, 0x30u8, 0xc4u8, 0xb8u8, 0xb4u8, 0x40u8, 0x78u8, 0xbbu8, 0xf8u8, 0xa6u8, 0xefu8, 0x5bu8, 0x9fu8, 0x1eu8, 0xc1u8, 0x62u8, 0x6cu8, 0x78u8, 0x48u8, 0xd9u8]
}

/// The task manager on Arbitrum Sepolia, 0xeA30c4B8b44078Bbf8a6ef5b9f1eC1626C7848D9.
fn arbitrum_sepolia_task_manager_bytes() -> (r: Address)
    ensures
        r@ == arbitrum_sepolia_task_manager(),
{
    let r: Address = [0xeau8, 0x30u8, 0xc4u8, 0xb8u8, 0xb4u8, 0x40u8, 0x78u8, 0xbbu8, 0xf8u8, 0xa6u8, 0xefu8, 0x5bu8, 0x9fu8, 0x1eu8, 0xc1u8, 0x62u8, 0x6cu8, 0x78u8, 0x48u8, 0xd9u8];
    proof {
        assert(r@ =~= arbitrum_sepolia_task_manager());
    }
    r
}

/// Where the coprocessor's task manager is.
#[derive(Debug, Clone, Copy)]
pub struct CoFHEConfig {
    pub task_manager: Address,
}

impl CoFHEConfig {
    /// The configuration of the default network, Arbitrum Sepolia.
    pub fn current() -> (r: Self)
        ensures
            r.task_manager@ == arbitrum_sepolia_task_manager(),
    {
        Self::arbitrum_sepolia()
    }

    /// The Arbitrum Sepolia configuration.
    pub fn arbitrum_sepolia() -> (r: Self)
        ensures
            r.task_manager@ == arbitrum_sepolia_task_manager(),
    {
        CoFHEConfig { task_manager: arbitrum_sepolia_task_manager_bytes() }
    }

    /// The Ethereum Sepolia configuration, which uses the same task manager
    /// address.
    pub fn ethereum_sepolia() -> (r: Self)
        ensures
            r.task_manager@ == arbitrum_sepolia_task_manager(),
    {
        CoFHEConfig { task_manager: arbitrum_sepolia_task_manager_bytes() }
    }

    /// The configuration of a local development network, with no task
    /// manager deployed: the zero address.
    pub fn local_cofhe() -> (r: Self)
        ensures
            r.task_manager@ == zero_address(),
    {
        CoFHEConfig { task_manager: zero_address_bytes() }
    }

    /// The task manager's address.
    pub fn task_manager_address(&self) -> (r: Address)
        ensures
            r == self.task_manager,
    {
        self.task_manager
    }
}

/// The configuration of the default network.
pub fn get_cofhe_config() -> (r: CoFHEConfig)
    ensures
        r.task_manager@ == arbitrum_sepolia_task_manager(),
{
    CoFHEConfig::current()
}

} // verus!
