//! Network configuration of the encrypted-value machine's precompiles,
//! resolved once into an immutable value that is handed to the clients.
use vstd::prelude::*;
use crate::codec::Address;

verus! {

/// The operations precompile on Sepolia, 0x848B0066793BcC60346Da1F49049357399B8D595.
pub open spec fn sepolia_fhevm_precompile() -> Seq<u8> {
    seq![0x84u8, 0x8bu8, 0x00u8, 0x66u8, 0x79u8, 0x3bu8, 0xccu8, 0x60u8, 0x34u8, 0x6du8, 0xa1u8, 0xf4u8, 0x90u8, 0x49u8, 0x35u8, 0x73u8, 0x99u8, 0xb8u8, 0xd5u8, 0x95u8]
}

/// The operations precompile on Sepolia, 0x848B0066793BcC60346Da1F49049357399B8D595.
fn sepolia_fhevm_precompile_bytes() -> (r: Address)
    ensures
        r@ == sepolia_fhevm_precompile(),
{
    let r: Address = [0x84u8, 0x8bu8, 0x00u8, 0x66u8, 0x79u8, 0x3bu8, 0xccu8, 0x60u8, 0x34u8, 0x6du8, 0xa1u8, 0xf4u8, 0x90u8, 0x49u8, 0x35u8, 0x73u8, 0x99u8, 0xb8u8, 0xd5u8, 0x95u8];
    proof {
        assert(r@ =~= sepolia_fhevm_precompile());
    }
    r
}

/// The input verifier on Sepolia, 0xbc91f3daD1A5F19F8390c400196e58073B6a0BC4.
pub open spec fn sepolia_input_verifier() -> Seq<u8> {
    seq![0xbcu8, 0x91u8, 0xf3u8, 0xdau8, 0xd1u8, 0xa5u8, 0xf1u8, 0x9fu8, 0x83u8, 0x90u8, 0xc4u8, 0x00u8, 0x19u8, 0x6eu8, 0x58u8, 0x07u8, 0x3bu8, 0x6au8, 0x0bu8, 0xc4u8]
}

/// The input verifier on Sepolia, 0xbc91f3daD1A5F19F8390c400196e58073B6a0BC4.
fn sepolia_input_verifier_bytes() -> (r: Address)
    ensures
        r@ == sepolia_input_verifier(),
{
    let r: Address = [0xbcu8, 0x91u8, 0xf3u8, 0xdau8, 0xd1u8, 0xa5u8, 0xf1u8, 0x9fu8, 0x83u8, 0x90u8, 0xc4u8, 0x00u8, 0x19u8, 0x6eu8, 0x58u8, 0x07u8, 0x3bu8, 0x6au8, 0x0bu8, 0xc4u8];
    proof {
        assert(r@ =~= sepolia_input_verifier());
    }
    r
}

/// The access control list on Sepolia, 0x687820221192C5B662b25367F70076A37bc79b6c.
pub open spec fn sepolia_acl() -> Seq<u8> {
    seq![0x68u8, 0x78u8, 0x20u8, 0x22u8, 0x11u8, 0x92u8, 0xc5u8, 0xb6u8, 0x62u8, 0xb2u8, 0x53u8, 0x67u8, 0xf7u8, 0x00u8, 0x76u8, 0xa3u8, 0x7bu8, 0xc7u8, 0x9bu8, 0x6cu8]
}

/// The access control list on Sepolia, 0x687820221192C5B662b25367F70076A37bc79b6c.
fn sepolia_acl_bytes() -> (r: Address)
    ensures
        r@ == sepolia_acl(),
{
    let r: Address = [0x68u8, 0x78u8, 0x20u8, 0x22u8, 0x11u8, 0x92u8, 0xc5u8, 0xb6u8, 0x62u8, 0xb2u8, 0x53u8, 0x67u8, 0xf7u8, 0x00u8, 0x76u8, 0xa3u8, 0x7bu8, 0xc7u8, 0x9bu8, 0x6cu8];
    proof {
        assert(r@ =~= sepolia_acl());
    }
    r
}

/// The decryption gateway on Sepolia, 0x33472522f99C5e58A58D0d696D48309545D70a3C.
pub open spec fn sepolia_gateway() -> Seq<u8> {
    seq![0x33u8, 0x47u8, 0x25u8, 0x22u8, 0xf9u8, 0x9cu8, 0x5eu8, 0x58u8, 0xa5u8, 0x8du8, 0x0du8, 0x69u8, 0x6du8, 0x48u8, 0x30u8, 0x95u8, 0x45u8, 0xd7u8, 0x0au8, 0x3cu8]
}

/// The decryption gateway on Sepolia, 0x33472522f99C5e58A58D0d696D48309545D70a3C.
fn sepolia_gateway_bytes() -> (r: Address)
    ensures
        r@ == sepolia_gateway(),
{
    let r: Address = [0x33u8, 0x47u8, 0x25u8, 0x22u8, 0xf9u8, 0x9cu8, 0x5eu8, 0x58u8, 0xa5u8, 0x8du8, 0x0du8, 0x69u8, 0x6du8, 0x48u8, 0x30u8, 0x95u8, 0x45u8, 0xd7u8, 0x0au8, 0x3cu8];
    proof {
        assert(r@ =~= sepolia_gateway());
    }
    r
}

/// The key management verifier on Sepolia, 0x05fD2B95654057C6BA8c8C42FC0B3F54286431E5.
pub open spec fn sepolia_kms_verifier() -> Seq<u8> {
    seq![0x05u8, 0xfdu8, 0x2bu8, 0x95u8, 0x65u8, 0x40u8, 0x57u8, 0xc6u8, 0xbau8, 0x8cu8, 0x8cu8, 0x42u8, 0xfcu8, 0x0bu8, 0x3fu8, 0x54u8, 0x28u8, 0x64u8, 0x31u8, 0xe5u8]
}

/// The key management verifier on Sepolia, 0x05fD2B95654057C6BA8c8C42FC0B3F54286431E5.
fn sepolia_kms_verifier_bytes() -> (r: Address)
    ensures
        r@ == sepolia_kms_verifier(),
{
    let r: Address = [0x05u8, 0xfdu8, 0x2bu8, 0x95u8, 0x65u8, 0x40u8, 0x57u8, 0xc6u8, 0xbau8, 0x8cu8, 0x8cu8, 0x42u8, 0xfcu8, 0x0bu8, 0x3fu8, 0x54u8, 0x28u8, 0x64u8, 0x31u8, 0xe5u8];
    proof {
        assert(r@ =~= sepolia_kms_verifier());
    }
    r
}

/// The zero address.
pub open spec fn zero_address() -> Seq<u8> {
    Seq::new(20, |i: int| 0u8)
}

pub(crate) fn zero_address_bytes() -> (r: Address)
    ensures
        r@ == zero_address(),
{
    let r: Address = [0u8; 20];
    proof {
        assert(r@ =~= zero_address());
    }
    r
}

/// Where the precompiles of the encrypted-value machine are.
#[derive(Debug, Clone, Copy)]
pub struct FHEVMConfig {
    pub fhevm_precompile: Address,
    pub input_verifier: Address,
    pub acl: Address,
    pub gateway: Address,
    pub kms_verifier: Address,
}

/// `c` holds the Sepolia addresses.
pub open spec fn is_sepolia(c: FHEVMConfig) -> bool {
    &&& c.fhevm_precompile@ == sepolia_fhevm_precompile()
    &&& c.input_verifier@ == sepolia_input_verifier()
    &&& c.acl@ == sepolia_acl()
    &&& c.gateway@ == sepolia_gateway()
    &&& c.kms_verifier@ == sepolia_kms_verifier()
}

/// `c` holds only zero addresses: nothing is deployed there.
pub open spec fn is_undeployed(c: FHEVMConfig) -> bool {
    &&& c.fhevm_precompile@ == zero_address()
    &&& c.input_verifier@ == zero_address()
    &&& c.acl@ == zero_address()
    &&& c.gateway@ == zero_address()
    &&& c.kms_verifier@ == zero_address()
}

impl FHEVMConfig {
    /// The configuration of the default network, Sepolia.
    pub fn current() -> (r: Self)
        ensures
            is_sepolia(r),
    {
        Self::sepolia()
    }

    /// The Sepolia configuration.
    pub fn sepolia() -> (r: Self)
        ensures
            is_sepolia(r),
    {
        FHEVMConfig {
            fhevm_precompile: sepolia_fhevm_precompile_bytes(),
            input_verifier: sepolia_input_verifier_bytes(),
            acl: sepolia_acl_bytes(),
            gateway: sepolia_gateway_bytes(),
            kms_verifier: sepolia_kms_verifier_bytes(),
        }
    }

    /// The Arbitrum mainnet configuration: not deployed yet.
    pub fn arbitrum_mainnet() -> (r: Self)
        ensures
            is_undeployed(r),
    {
        let z = zero_address_bytes();
        FHEVMConfig { fhevm_precompile: z, input_verifier: z, acl: z, gateway: z, kms_verifier: z }
    }

    /// The Arbitrum testnet configuration: not deployed yet.
    pub fn arbitrum_testnet() -> (r: Self)
        ensures
            is_undeployed(r),
    {
        let z = zero_address_bytes();
        FHEVMConfig { fhevm_precompile: z, input_verifier: z, acl: z, gateway: z, kms_verifier: z }
    }

    /// The operations precompile's address.
    pub fn precompile_address(&self) -> (r: Address)
        ensures
            r == self.fhevm_precompile,
    {
        self.fhevm_precompile
    }

    /// The input verifier's address.
    pub fn input_verifier_address(&self) -> (r: Address)
        ensures
            r == self.input_verifier,
    {
        self.input_verifier
    }

    /// The access control list's address.
    pub fn acl_address(&self) -> (r: Address)
        ensures
            r == self.acl,
    {
        self.acl
    }

    /// The decryption gateway's address.
    pub fn gateway_address(&self) -> (r: Address)
        ensures
            r == self.gateway,
    {
        self.gateway
    }

    /// The key management verifier's address.
    pub fn kms_verifier_address(&self) -> (r: Address)
        ensures
            r == self.kms_verifier,
    {
        self.kms_verifier
    }
}

/// The configuration of the default network.
pub fn get_config() -> (r: FHEVMConfig)
    ensures
        is_sepolia(r),
{
    FHEVMConfig::current()
}

} // verus!
