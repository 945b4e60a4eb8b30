//! Transaction envelope of a layer-2 ledger: the closed set of operation
//! kinds, their canonical byte encoding and content hash, fee classification,
//! batch-packing cost and the correctness gate.

pub mod address;
pub mod amount;
pub mod change_pubkey;
pub mod close;
pub mod digest;
pub mod encoding;
pub mod primitives;
pub mod signed;
pub mod transfer;
pub mod tx;
pub mod withdraw;

pub use crate::change_pubkey::ChangePubKey;
pub use crate::close::Close;
pub use crate::primitives::{Nonce, TokenId, TokenLike, TxFeeTypes, TxHash};
pub use crate::signed::{EthSignData, SignedFranklinTx, TxEthSignature};
pub use crate::transfer::Transfer;
pub use crate::tx::FranklinTx;
pub use crate::withdraw::Withdraw;
