//! An instruction as plain values: the program it is addressed to, the
//! accounts it names, and its payload.

use vstd::prelude::*;

verus! {

/// How one account takes part in an instruction.
#[derive(Clone, Copy, Debug, PartialEq, Eq)]
pub struct AccountMeta {
    /// Address of the account.
    pub pubkey: [u8; 32],
    /// Whether the account must have signed the transaction.
    pub is_signer: bool,
    /// Whether the instruction may change the account.
    pub is_writable: bool,
}

/// What an `AccountMeta` stands for in contracts.
pub struct AccountMetaView {
    pub pubkey: Seq<u8>,
    pub is_signer: bool,
    pub is_writable: bool,
}

impl View for AccountMeta {
    type V = AccountMetaView;

    open spec fn view(&self) -> AccountMetaView {
        AccountMetaView {
            pubkey: self.pubkey@,
            is_signer: self.is_signer,
            is_writable: self.is_writable,
        }
    }
}

/// A writable account.
pub open spec fn writable(pubkey: Seq<u8>, is_signer: bool) -> AccountMetaView {
    AccountMetaView { pubkey, is_signer, is_writable: true }
}

/// A read-only account.
pub open spec fn readonly(pubkey: Seq<u8>, is_signer: bool) -> AccountMetaView {
    AccountMetaView { pubkey, is_signer, is_writable: false }
}

impl AccountMeta {
    /// A writable account.
    pub fn new(pubkey: [u8; 32], is_signer: bool) -> (meta: AccountMeta)
        ensures
            meta@ == writable(pubkey@, is_signer),
    {
        AccountMeta { pubkey, is_signer, is_writable: true }
    }

    /// A read-only account.
    pub fn new_readonly(pubkey: [u8; 32], is_signer: bool) -> (meta: AccountMeta)
        ensures
            meta@ == readonly(pubkey@, is_signer),
    {
        AccountMeta { pubkey, is_signer, is_writable: false }
    }
}

/// A call into a program.
#[derive(Clone, Debug, PartialEq, Eq)]
pub struct Instruction {
    /// Address of the program that executes the instruction.
    pub program_id: [u8; 32],
    /// The accounts that the program is handed, in order.
    pub accounts: Vec<AccountMeta>,
    /// The payload, which the program interprets.
    pub data: Vec<u8>,
}

/// What an `Instruction` stands for in contracts.
pub struct InstructionView {
    pub program_id: Seq<u8>,
    pub accounts: Seq<AccountMetaView>,
    pub data: Seq<u8>,
}

/// The views of a list of accounts, in order.
pub open spec fn account_views(accounts: Seq<AccountMeta>) -> Seq<AccountMetaView> {
    accounts.map_values(|m: AccountMeta| m@)
}

impl View for Instruction {
    type V = InstructionView;

    open spec fn view(&self) -> InstructionView {
        InstructionView {
            program_id: self.program_id@,
            accounts: account_views(self.accounts@),
            data: self.data@,
        }
    }
}

} // verus!
