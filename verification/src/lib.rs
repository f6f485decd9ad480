//! Phase-separated dual-buffer channels.
//!
//! A channel holds two payload slots. Workers read and write single slots
//! during a data phase; a coordinator reconciles the two slots during a
//! channel phase. The two phases are witnessed by keys derived from a
//! [`MasterKey`], and the exclusive borrow of the master key keeps them
//! apart: while a [`DataKey`] lives there is no [`ChannelKey`], and the other
//! way round.
//!
//! The channels are modelled without shared memory. A channel owner holds
//! the slots, a data pointer holds the address of a slot, and a slot is
//! reached by handing the pointer the channel together with a data key.

pub mod bidirected;
pub mod directed;
pub mod undirected;

use core::marker::PhantomData;
use vstd::prelude::*;

verus! {

/// The singleton flag: whether a strict master key is alive.
pub struct MasterFlag {
    master_exists: bool,
}

impl View for MasterFlag {
    type V = bool;

    closed spec fn view(&self) -> bool {
        self.master_exists
    }
}

impl MasterFlag {
    /// A flag in the given state.
    pub fn new(master_exists: bool) -> (flag: Self)
        ensures
            flag@ == master_exists,
    {
        MasterFlag { master_exists }
    }

    /// Whether a strict master key is alive.
    pub fn master_exists(&self) -> (exists: bool)
        ensures
            exists == self@,
    {
        self.master_exists
    }
}

/// The master key.
///
/// A master key hands out a [`DataKey`] or a [`ChannelKey`]. Either one
/// borrows the master key exclusively, so at most one derived key exists at
/// any time, and never a data key together with a channel key.
///
/// A strict master key is a singleton under its [`MasterFlag`]. An unlimited
/// master key is not: it is meant for tests, and whoever creates one answers
/// for keeping the phases of different master keys apart.
pub struct MasterKey {
    unlimited: bool,
}

/// The key that opens the payload slots of a channel.
pub struct DataKey<'master_key> {
    unlimited: Ghost<bool>,
    scope: PhantomData<&'master_key mut MasterKey>,
}

/// The key that opens the reconciliation of a channel.
pub struct ChannelKey<'master_key> {
    unlimited: Ghost<bool>,
    scope: PhantomData<&'master_key mut MasterKey>,
}

impl MasterKey {
    /// Whether this key was made without regard to the singleton flag.
    pub closed spec fn unlimited(&self) -> bool {
        self.unlimited
    }

    /// Whether a strict master key may be created under `flag`.
    pub open spec fn may_create(flag: MasterFlag) -> bool {
        !flag@
    }

    /// Whether `self` may be destroyed under `flag`.
    pub open spec fn may_destroy(&self, flag: MasterFlag) -> bool {
        !self.unlimited() ==> flag@
    }

    /// Whether the creation of the strict master key `key` leads from the
    /// flag `before` to the flag `after`.
    pub open spec fn creates(before: MasterFlag, key: MasterKey, after: MasterFlag) -> bool {
        &&& Self::may_create(before)
        &&& !key.unlimited()
        &&& after@
    }

    /// Whether the destruction of `self` leads from the flag `before` to the
    /// flag `after`: a strict key clears the flag, an unlimited key leaves it
    /// as it is.
    pub open spec fn destroys(&self, before: MasterFlag, after: MasterFlag) -> bool {
        &&& self.may_destroy(before)
        &&& after@ == (self.unlimited() && before@)
    }

    /// Creates the strict master key and sets the flag. No strict master key
    /// may be alive.
    pub fn create(flag: &mut MasterFlag) -> (key: Self)
        requires
            Self::may_create(*old(flag)),
        ensures
            Self::creates(*old(flag), key, *final(flag)),
    {
        flag.master_exists = true;
        MasterKey { unlimited: false }
    }

    /// Creates a master key that leaves the singleton flag alone.
    pub fn create_unlimited() -> (key: Self)
        ensures
            key.unlimited(),
    {
        MasterKey { unlimited: true }
    }

    /// Whether this key was made without regard to the singleton flag.
    pub fn is_unlimited(&self) -> (unlimited: bool)
        ensures
            unlimited == self.unlimited(),
    {
        self.unlimited
    }

    /// Derives the data key. The key borrows the master key exclusively, so
    /// no other key exists beside it.
    pub fn get_data_key(&mut self) -> (key: DataKey<'_>)
        ensures
            key.unlimited() == old(self).unlimited(),
            *final(self) == *old(self),
    {
        DataKey { unlimited: Ghost(self.unlimited), scope: PhantomData }
    }

    /// Derives the channel key. The key borrows the master key exclusively,
    /// so no other key exists beside it.
    pub fn get_channel_key(&mut self) -> (key: ChannelKey<'_>)
        ensures
            key.unlimited() == old(self).unlimited(),
            *final(self) == *old(self),
    {
        ChannelKey { unlimited: Ghost(self.unlimited), scope: PhantomData }
    }

    /// Destroys the master key. A strict key clears the flag, which must be
    /// set; an unlimited key leaves the flag as it is.
    pub fn destroy(self, flag: &mut MasterFlag)
        requires
            self.may_destroy(*old(flag)),
        ensures
            self.destroys(*old(flag), *final(flag)),
    {
        if !self.unlimited {
            flag.master_exists = false;
        }
    }
}

impl<'master_key> DataKey<'master_key> {
    /// Whether the master key behind this key is an unlimited one.
    pub closed spec fn unlimited(&self) -> bool {
        self.unlimited@
    }

    /// Gives the data key up for the channel key of the same master key.
    pub fn into_channel_key(self) -> (key: ChannelKey<'master_key>)
        ensures
            key.unlimited() == self.unlimited(),
    {
        ChannelKey { unlimited: self.unlimited, scope: self.scope }
    }
}

impl<'master_key> ChannelKey<'master_key> {
    /// Whether the master key behind this key is an unlimited one.
    pub closed spec fn unlimited(&self) -> bool {
        self.unlimited@
    }

    /// Gives the channel key up for the data key of the same master key.
    pub fn into_data_key(self) -> (key: DataKey<'master_key>)
        ensures
            key.unlimited() == self.unlimited(),
    {
        DataKey { unlimited: self.unlimited, scope: self.scope }
    }
}

/// Over the life of a strict master key the flag is clear before the key is
/// created, set from its creation to its destruction, and clear afterwards.
pub proof fn lemma_strict_lifecycle(
    before: MasterFlag,
    key: MasterKey,
    during: MasterFlag,
    after: MasterFlag,
)
    requires
        MasterKey::creates(before, key, during),
        key.destroys(during, after),
    ensures
        !before@,
        during@,
        !after@,
{
}

/// While a strict master key is alive no second one can be created, and once
/// it has been destroyed one can be created again.
pub proof fn lemma_strict_master_is_singleton(
    before: MasterFlag,
    key: MasterKey,
    during: MasterFlag,
    after: MasterFlag,
)
    requires
        MasterKey::creates(before, key, during),
        key.destroys(during, after),
    ensures
        !MasterKey::may_create(during),
        MasterKey::may_create(after),
{
}

/// An unlimited master key can be destroyed under any flag, and the flag is
/// the same afterwards.
pub proof fn lemma_unlimited_master_leaves_flag(key: MasterKey, before: MasterFlag, after: MasterFlag)
    requires
        key.unlimited(),
    ensures
        key.may_destroy(before),
        key.destroys(before, after) ==> after@ == before@,
{
}

} // verus!
