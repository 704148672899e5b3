//! The accounts that the QRDX dev genesis funds: the first 20 accounts derived
//! from the mnemonic "test test test test test test test test test test test
//! junk", with 10,000 ETH each.

use vstd::prelude::*;
use crate::genesis::{GenesisAccount, balance_value};

verus! {

/// 10,000 ETH in wei, as four 64-bit limbs.
pub open spec fn dev_account_balance() -> [u64; 4] {
    [0x19e0c9bab2400000u64, 0x21e, 0, 0]
}

/// A dev account at the given address holding 10,000 ETH.
pub open spec fn dev_account(address: [u8; 20]) -> GenesisAccount {
    GenesisAccount { address, balance: dev_account_balance() }
}

/// The funded dev accounts, in increasing order of address.
pub open spec fn qrdx_dev_alloc_view() -> Seq<GenesisAccount> {
    seq![
        dev_account([0x14u8, 0xdc, 0x79, 0x96, 0x4d, 0xa2, 0xc0, 0x8b, 0x23, 0x69, 0x8b, 0x3d, 0x3c, 0xc7, 0xca, 0x32, 0x19, 0x3d, 0x99, 0x55]),
        dev_account([0x15u8, 0xd3, 0x4a, 0xaf, 0x54, 0x26, 0x7d, 0xb7, 0xd7, 0xc3, 0x67, 0x83, 0x9a, 0xaf, 0x71, 0xa0, 0x0a, 0x2c, 0x6a, 0x65]),
        dev_account([0x1cu8, 0xbd, 0x3b, 0x27, 0x70, 0x90, 0x9d, 0x4e, 0x10, 0xf1, 0x57, 0xca, 0xbc, 0x84, 0xc7, 0x26, 0x40, 0x73, 0xc9, 0xec]),
        dev_account([0x23u8, 0x61, 0x8e, 0x81, 0xe3, 0xf5, 0xcd, 0xf7, 0xf5, 0x4c, 0x3d, 0x65, 0xf7, 0xfb, 0xc0, 0xab, 0xf5, 0xb2, 0x1e, 0x8f]),
        dev_account([0x25u8, 0x46, 0xbc, 0xd3, 0xc8, 0x46, 0x21, 0xe9, 0x76, 0xd8, 0x18, 0x5a, 0x91, 0xa9, 0x22, 0xae, 0x77, 0xec, 0xec, 0x30]),
        dev_account([0x3cu8, 0x44, 0xcd, 0xdd, 0xb6, 0xa9, 0x00, 0xfa, 0x2b, 0x58, 0x5d, 0xd2, 0x99, 0xe0, 0x3d, 0x12, 0xfa, 0x42, 0x93, 0xbc]),
        dev_account([0x70u8, 0x99, 0x79, 0x70, 0xc5, 0x18, 0x12, 0xdc, 0x3a, 0x01, 0x0c, 0x7d, 0x01, 0xb5, 0x0e, 0x0d, 0x17, 0xdc, 0x79, 0xc8]),
        dev_account([0x71u8, 0xbe, 0x63, 0xf3, 0x38, 0x4f, 0x5f, 0xb9, 0x89, 0x95, 0x89, 0x8a, 0x86, 0xb0, 0x2f, 0xb2, 0x42, 0x6c, 0x57, 0x88]),
        dev_account([0x86u8, 0x26, 0xf6, 0x94, 0x0e, 0x2e, 0xb2, 0x89, 0x30, 0xef, 0xb4, 0xce, 0xf4, 0x9b, 0x2d, 0x1f, 0x2c, 0x9c, 0x11, 0x99]),
        dev_account([0x90u8, 0xf7, 0x9b, 0xf6, 0xeb, 0x2c, 0x4f, 0x87, 0x03, 0x65, 0xe7, 0x85, 0x98, 0x2e, 0x1f, 0x10, 0x1e, 0x93, 0xb9, 0x06]),
        dev_account([0x97u8, 0x6e, 0xa7, 0x40, 0x26, 0xe7, 0x26, 0x55, 0x4d, 0xb6, 0x57, 0xfa, 0x54, 0x76, 0x3a, 0xbd, 0x0c, 0x3a, 0x0a, 0xa9]),
        dev_account([0x99u8, 0x65, 0x50, 0x7d, 0x1a, 0x55, 0xbc, 0xc2, 0x69, 0x5c, 0x58, 0xba, 0x16, 0xfb, 0x37, 0xd8, 0x19, 0xb0, 0xa4, 0xdc]),
        dev_account([0xa0u8, 0xee, 0x7a, 0x14, 0x2d, 0x26, 0x7c, 0x1f, 0x36, 0x71, 0x4e, 0x4a, 0x8f, 0x75, 0x61, 0x2f, 0x20, 0xa7, 0x97, 0x20]),
        dev_account([0xbcu8, 0xd4, 0x04, 0x2d, 0xe4, 0x99, 0xd1, 0x4e, 0x55, 0x00, 0x1c, 0xcb, 0xb2, 0x4a, 0x55, 0x1f, 0x3b, 0x95, 0x40, 0x96]),
        dev_account([0xbdu8, 0xa5, 0x74, 0x7b, 0xfd, 0x65, 0xf0, 0x8d, 0xeb, 0x54, 0xcb, 0x46, 0x5e, 0xb8, 0x7d, 0x40, 0xe5, 0x1b, 0x19, 0x7e]),
        dev_account([0xcdu8, 0x3b, 0x76, 0x6c, 0xcd, 0xd6, 0xae, 0x72, 0x11, 0x41, 0xf4, 0x52, 0xc5, 0x50, 0xca, 0x63, 0x59, 0x64, 0xce, 0x71]),
        dev_account([0xddu8, 0x2f, 0xd4, 0x58, 0x12, 0x71, 0xe2, 0x30, 0x36, 0x02, 0x30, 0xf9, 0x33, 0x7d, 0x5c, 0x04, 0x30, 0xbf, 0x44, 0xc0]),
        dev_account([0xdfu8, 0x3e, 0x18, 0xd6, 0x4b, 0xc6, 0xa9, 0x83, 0xf6, 0x73, 0xab, 0x31, 0x9c, 0xca, 0xe4, 0xf1, 0xa5, 0x7c, 0x70, 0x97]),
        dev_account([0xf3u8, 0x9f, 0xd6, 0xe5, 0x1a, 0xad, 0x88, 0xf6, 0xf4, 0xce, 0x6a, 0xb8, 0x82, 0x72, 0x79, 0xcf, 0xff, 0xb9, 0x22, 0x66]),
        dev_account([0xfau8, 0xbb, 0x0a, 0xc9, 0xd6, 0x8b, 0x0b, 0x44, 0x5f, 0xb7, 0x35, 0x72, 0x72, 0xff, 0x20, 0x2c, 0x56, 0x51, 0x69, 0x4a]),
    ]
}

/// The funded dev accounts, in increasing order of address.
pub fn qrdx_dev_alloc() -> (r: Vec<GenesisAccount>)
    ensures
        r@ == qrdx_dev_alloc_view(),
{
    let r = vec![
        GenesisAccount { address: [0x14u8, 0xdc, 0x79, 0x96, 0x4d, 0xa2, 0xc0, 0x8b, 0x23, 0x69, 0x8b, 0x3d, 0x3c, 0xc7, 0xca, 0x32, 0x19, 0x3d, 0x99, 0x55], balance: [0x19e0c9bab2400000, 0x21e, 0, 0] },
        GenesisAccount { address: [0x15u8, 0xd3, 0x4a, 0xaf, 0x54, 0x26, 0x7d, 0xb7, 0xd7, 0xc3, 0x67, 0x83, 0x9a, 0xaf, 0x71, 0xa0, 0x0a, 0x2c, 0x6a, 0x65], balance: [0x19e0c9bab2400000, 0x21e, 0, 0] },
        GenesisAccount { address: [0x1cu8, 0xbd, 0x3b, 0x27, 0x70, 0x90, 0x9d, 0x4e, 0x10, 0xf1, 0x57, 0xca, 0xbc, 0x84, 0xc7, 0x26, 0x40, 0x73, 0xc9, 0xec], balance: [0x19e0c9bab2400000, 0x21e, 0, 0] },
        GenesisAccount { address: [0x23u8, 0x61, 0x8e, 0x81, 0xe3, 0xf5, 0xcd, 0xf7, 0xf5, 0x4c, 0x3d, 0x65, 0xf7, 0xfb, 0xc0, 0xab, 0xf5, 0xb2, 0x1e, 0x8f], balance: [0x19e0c9bab2400000, 0x21e, 0, 0] },
        GenesisAccount { address: [0x25u8, 0x46, 0xbc, 0xd3, 0xc8, 0x46, 0x21, 0xe9, 0x76, 0xd8, 0x18, 0x5a, 0x91, 0xa9, 0x22, 0xae, 0x77, 0xec, 0xec, 0x30], balance: [0x19e0c9bab2400000, 0x21e, 0, 0] },
        GenesisAccount { address: [0x3cu8, 0x44, 0xcd, 0xdd, 0xb6, 0xa9, 0x00, 0xfa, 0x2b, 0x58, 0x5d, 0xd2, 0x99, 0xe0, 0x3d, 0x12, 0xfa, 0x42, 0x93, 0xbc], balance: [0x19e0c9bab2400000, 0x21e, 0, 0] },
        GenesisAccount { address: [0x70u8, 0x99, 0x79, 0x70, 0xc5, 0x18, 0x12, 0xdc, 0x3a, 0x01, 0x0c, 0x7d, 0x01, 0xb5, 0x0e, 0x0d, 0x17, 0xdc, 0x79, 0xc8], balance: [0x19e0c9bab2400000, 0x21e, 0, 0] },
        GenesisAccount { address: [0x71u8, 0xbe, 0x63, 0xf3, 0x38, 0x4f, 0x5f, 0xb9, 0x89, 0x95, 0x89, 0x8a, 0x86, 0xb0, 0x2f, 0xb2, 0x42, 0x6c, 0x57, 0x88], balance: [0x19e0c9bab2400000, 0x21e, 0, 0] },
        GenesisAccount { address: [0x86u8, 0x26, 0xf6, 0x94, 0x0e, 0x2e, 0xb2, 0x89, 0x30, 0xef, 0xb4, 0xce, 0xf4, 0x9b, 0x2d, 0x1f, 0x2c, 0x9c, 0x11, 0x99], balance: [0x19e0c9bab2400000, 0x21e, 0, 0] },
        GenesisAccount { address: [0x90u8, 0xf7, 0x9b, 0xf6, 0xeb, 0x2c, 0x4f, 0x87, 0x03, 0x65, 0xe7, 0x85, 0x98, 0x2e, 0x1f, 0x10, 0x1e, 0x93, 0xb9, 0x06], balance: [0x19e0c9bab2400000, 0x21e, 0, 0] },
        GenesisAccount { address: [0x97u8, 0x6e, 0xa7, 0x40, 0x26, 0xe7, 0x26, 0x55, 0x4d, 0xb6, 0x57, 0xfa, 0x54, 0x76, 0x3a, 0xbd, 0x0c, 0x3a, 0x0a, 0xa9], balance: [0x19e0c9bab2400000, 0x21e, 0, 0] },
        GenesisAccount { address: [0x99u8, 0x65, 0x50, 0x7d, 0x1a, 0x55, 0xbc, 0xc2, 0x69, 0x5c, 0x58, 0xba, 0x16, 0xfb, 0x37, 0xd8, 0x19, 0xb0, 0xa4, 0xdc], balance: [0x19e0c9bab2400000, 0x21e, 0, 0] },
        GenesisAccount { address: [0xa0u8, 0xee, 0x7a, 0x14, 0x2d, 0x26, 0x7c, 0x1f, 0x36, 0x71, 0x4e, 0x4a, 0x8f, 0x75, 0x61, 0x2f, 0x20, 0xa7, 0x97, 0x20], balance: [0x19e0c9bab2400000, 0x21e, 0, 0] },
        GenesisAccount { address: [0xbcu8, 0xd4, 0x04, 0x2d, 0xe4, 0x99, 0xd1, 0x4e, 0x55, 0x00, 0x1c, 0xcb, 0xb2, 0x4a, 0x55, 0x1f, 0x3b, 0x95, 0x40, 0x96], balance: [0x19e0c9bab2400000, 0x21e, 0, 0] },
        GenesisAccount { address: [0xbdu8, 0xa5, 0x74, 0x7b, 0xfd, 0x65, 0xf0, 0x8d, 0xeb, 0x54, 0xcb, 0x46, 0x5e, 0xb8, 0x7d, 0x40, 0xe5, 0x1b, 0x19, 0x7e], balance: [0x19e0c9bab2400000, 0x21e, 0, 0] },
        GenesisAccount { address: [0xcdu8, 0x3b, 0x76, 0x6c, 0xcd, 0xd6, 0xae, 0x72, 0x11, 0x41, 0xf4, 0x52, 0xc5, 0x50, 0xca, 0x63, 0x59, 0x64, 0xce, 0x71], balance: [0x19e0c9bab2400000, 0x21e, 0, 0] },
        GenesisAccount { address: [0xddu8, 0x2f, 0xd4, 0x58, 0x12, 0x71, 0xe2, 0x30, 0x36, 0x02, 0x30, 0xf9, 0x33, 0x7d, 0x5c, 0x04, 0x30, 0xbf, 0x44, 0xc0], balance: [0x19e0c9bab2400000, 0x21e, 0, 0] },
        GenesisAccount { address: [0xdfu8, 0x3e, 0x18, 0xd6, 0x4b, 0xc6, 0xa9, 0x83, 0xf6, 0x73, 0xab, 0x31, 0x9c, 0xca, 0xe4, 0xf1, 0xa5, 0x7c, 0x70, 0x97], balance: [0x19e0c9bab2400000, 0x21e, 0, 0] },
        GenesisAccount { address: [0xf3u8, 0x9f, 0xd6, 0xe5, 0x1a, 0xad, 0x88, 0xf6, 0xf4, 0xce, 0x6a, 0xb8, 0x82, 0x72, 0x79, 0xcf, 0xff, 0xb9, 0x22, 0x66], balance: [0x19e0c9bab2400000, 0x21e, 0, 0] },
        GenesisAccount { address: [0xfau8, 0xbb, 0x0a, 0xc9, 0xd6, 0x8b, 0x0b, 0x44, 0x5f, 0xb7, 0x35, 0x72, 0x72, 0xff, 0x20, 0x2c, 0x56, 0x51, 0x69, 0x4a], balance: [0x19e0c9bab2400000, 0x21e, 0, 0] },
    ];
    assert(r@ =~= qrdx_dev_alloc_view());
    r
}

/// The dev genesis funds 20 distinct accounts with 10,000 ETH each, among them
/// 0xf39fd6e51aad88f6f4ce6ab8827279cfffb92266, the mnemonic's first account.
pub proof fn dev_alloc_funds_twenty_accounts()
    ensures
        qrdx_dev_alloc_view().len() == 20,
        forall|i: int| 0 <= i < 20 ==> balance_value(#[trigger] qrdx_dev_alloc_view()[i].balance) == 10_000_000_000_000_000_000_000nat,
        forall|i: int, j: int| 0 <= i < j < 20 ==> qrdx_dev_alloc_view()[i].address@[0] < qrdx_dev_alloc_view()[j].address@[0],
        forall|i: int, j: int| 0 <= i < j < 20 ==> qrdx_dev_alloc_view()[i].address != qrdx_dev_alloc_view()[j].address,
        qrdx_dev_alloc_view()[18].address == [0xf3u8, 0x9f, 0xd6, 0xe5, 0x1a, 0xad, 0x88, 0xf6, 0xf4, 0xce, 0x6a, 0xb8, 0x82, 0x72, 0x79, 0xcf, 0xff, 0xb9, 0x22, 0x66],
{
    assert(balance_value(dev_account_balance()) == 10_000_000_000_000_000_000_000nat);
}

} // verus!
