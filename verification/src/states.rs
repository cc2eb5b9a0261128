//! The data the program keeps in its accounts.
use vstd::prelude::*;
use crate::key::Key;

verus! {

/// How many addresses the pool's list of deactivating stake accounts holds at most.
pub const MAX_DEACTIVATING_STAKES: usize = 1024;

/// A counter after one more event: it stays at its maximum once there.
pub open spec fn count_after(count: u64) -> u64 {
    if count == u64::MAX {
        count
    } else {
        (count + 1) as u64
    }
}

/// The pool: its authorities, its LST mint and reserve, and its totals.
#[derive(Clone, Debug)]
pub struct Pool {
    pub admin: Key,
    pub reserve: Key,
    pub lst_mint: Key,
    pub bump: u8,
    pub reserve_bump: u8,
    /// Lamports that back the LST supply.
    pub total_staked: u128,
    /// LST in circulation, as the pool counts it.
    pub total_lst_minted: u128,
    pub staked_count: u64,
    pub unstaked_count: u64,
    pub lst_decimals: u8,
    pub deactivating_stakes: Vec<Key>,
}

impl Pool {
    /// The pool's invariant: LST in circulation is always backed by some
    /// lamports, and the list of deactivating stakes stays within its bound.
    pub open spec fn wf(&self) -> bool {
        &&& self.total_lst_minted > 0 ==> self.total_staked > 0
        &&& self.deactivating_stakes@.len() <= MAX_DEACTIVATING_STAKES
    }

    /// The pool with new totals and everything else unchanged.
    pub open spec fn with_totals(self, total_staked: u128, total_lst_minted: u128) -> Pool {
        Pool { total_staked, total_lst_minted, ..self }
    }
}

/// A user's claim on reserve lamports, made when LST is burned.
#[derive(Clone, Copy, Debug)]
pub struct UnstakeTicket {
    pub pool: Key,
    pub requester: Key,
    pub requested_lamports: u128,
    pub released: bool,
    pub index: u64,
}

/// A deposited stake account as the pool records it.
#[derive(Clone, Copy, Debug)]
pub struct StakeEntry {
    pub pool: Key,
    pub stake_account: Key,
    pub validator_voter: Key,
    pub deposited_lamports: u128,
    pub status: StakeStatus,
    pub index: u64,
}

impl StakeEntry {
    /// Bytes of a stake entry account: discriminator, three addresses,
    /// the deposit, the status and the index.
    pub const LEN: usize = 8 + 32 + 32 + 32 + 16 + 1 + 8;
}

/// Where a recorded stake account is in its life.
#[derive(Clone, Copy, Debug, PartialEq, Eq, Structural)]
pub enum StakeStatus {
    Active,
    Deactivating,
    Deactive,
}

} // verus!

verus! {

/// Whether `key` is in `list`.
pub open spec fn holds_key(list: Seq<Key>, key: Key) -> bool {
    exists|i: int| 0 <= i < list.len() && list[i]@ == key@
}

/// The test that keeps every address but `key`.
pub open spec fn other_than(key: Key) -> spec_fn(Key) -> bool {
    |k: Key| k@ != key@
}

/// Whether `key` is in `list`.
pub fn has_key(list: &Vec<Key>, key: &Key) -> (r: bool)
    ensures
        r == holds_key(list@, *key),
{
    let mut i: usize = 0;
    while i < list.len()
        invariant
            i <= list.len(),
            forall|j: int| 0 <= j < i ==> list@[j]@ != key@,
        decreases list.len() - i,
    {
        if list[i].same_as(key) {
            return true;
        }
        i = i + 1;
    }
    false
}

/// `list` without any occurrence of `key`, the rest in order.
pub fn without_key(list: &Vec<Key>, key: &Key) -> (r: Vec<Key>)
    ensures
        r@ == list@.filter(other_than(*key)),
{
    let mut kept: Vec<Key> = Vec::new();
    let mut i: usize = 0;
    while i < list.len()
        invariant
            i <= list.len(),
            kept@ == list@.take(i as int).filter(other_than(*key)),
        decreases list.len() - i,
    {
        proof {
            assert(list@.take(i + 1).drop_last() =~= list@.take(i as int));
            assert(list@.take(i + 1).last() == list@[i as int]);
            reveal_with_fuel(Seq::<Key>::filter, 1);
        }
        if !list[i].same_as(key) {
            kept.push(list[i]);
        }
        i = i + 1;
    }
    assert(list@.take(list@.len() as int) =~= list@);
    kept
}

} // verus!
