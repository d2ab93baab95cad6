use crate::address::Address;
use vstd::prelude::*;

verus! {

/// What the planner reads of an account handed to the program: its address and
/// the two privileges it was passed with.
#[derive(Clone, Copy, Debug, PartialEq, Eq)]
pub struct AccountRef {
    pub key: Address,
    pub is_signer: bool,
    pub is_writable: bool,
}

/// An account as an instruction lists it.
#[derive(Clone, Copy, Debug, PartialEq, Eq)]
pub struct AccountMeta {
    pub pubkey: Address,
    pub is_signer: bool,
    pub is_writable: bool,
}

impl AccountRef {
    /// The entry that lists this account in an instruction, privileges kept.
    pub open spec fn meta(self) -> AccountMeta {
        AccountMeta { pubkey: self.key, is_signer: self.is_signer, is_writable: self.is_writable }
    }

    pub fn to_meta(&self) -> (meta: AccountMeta)
        ensures
            meta == self.meta(),
    {
        AccountMeta { pubkey: self.key, is_signer: self.is_signer, is_writable: self.is_writable }
    }
}

/// The entries that list `accounts`, one for one and in the same order.
pub open spec fn metas(accounts: Seq<AccountRef>) -> Seq<AccountMeta> {
    Seq::new(accounts.len(), |i: int| accounts[i].meta())
}

/// An instruction for another program.
#[derive(Debug, PartialEq, Eq)]
pub struct Instruction {
    pub program_id: Address,
    pub accounts: Vec<AccountMeta>,
    pub data: Vec<u8>,
}

/// An instruction as plain values.
pub struct InstructionView {
    pub program_id: Address,
    pub accounts: Seq<AccountMeta>,
    pub data: Seq<u8>,
}

impl View for Instruction {
    type V = InstructionView;

    open spec fn view(&self) -> InstructionView {
        InstructionView { program_id: self.program_id, accounts: self.accounts@, data: self.data@ }
    }
}

/// A copy of `bytes`.
pub fn copy_bytes(bytes: &Vec<u8>) -> (copy: Vec<u8>)
    ensures
        copy@ == bytes@,
{
    let mut copy: Vec<u8> = Vec::new();
    let mut i: usize = 0;
    while i < bytes.len()
        invariant
            i <= bytes.len(),
            copy@ == bytes@.subrange(0, i as int),
        decreases bytes.len() - i,
    {
        copy.push(bytes[i]);
        i += 1;
    }
    assert(bytes@.subrange(0, bytes.len() as int) == bytes@);
    copy
}

/// Lists every account of `accounts` as an instruction entry.
pub fn to_metas(accounts: &Vec<AccountRef>) -> (listed: Vec<AccountMeta>)
    ensures
        listed@ == metas(accounts@),
{
    let mut listed: Vec<AccountMeta> = Vec::new();
    let mut i: usize = 0;
    while i < accounts.len()
        invariant
            i <= accounts.len(),
            listed@.len() == i,
            forall|k: int| 0 <= k < i ==> listed@[k] == accounts@[k].meta(),
        decreases accounts.len() - i,
    {
        listed.push(accounts[i].to_meta());
        i += 1;
    }
    assert(listed@ =~= metas(accounts@));
    listed
}

impl Instruction {
    /// A copy of the instruction.
    pub fn duplicate(&self) -> (copy: Instruction)
        ensures
            copy@ == self@,
    {
        let mut accounts: Vec<AccountMeta> = Vec::new();
        let mut i: usize = 0;
        while i < self.accounts.len()
            invariant
                i <= self.accounts.len(),
                accounts@ == self.accounts@.subrange(0, i as int),
            decreases self.accounts.len() - i,
        {
            accounts.push(self.accounts[i]);
            i += 1;
        }
        assert(self.accounts@.subrange(0, self.accounts.len() as int) == self.accounts@);
        Instruction { program_id: self.program_id, accounts, data: copy_bytes(&self.data) }
    }
}

} // verus!
