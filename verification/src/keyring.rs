//! The keys of channels, by epoch.
use vstd::prelude::*;
use crate::chat::EpochKeyLookup;
use crate::collections::{ChannelKey, OrdMap, Replicate};

verus! {

/// Keys, by channel and epoch.
#[derive(Debug, PartialEq, Eq)]
pub struct Keyring {
    pub rings: OrdMap<ChannelKey, OrdMap<u64, [u8; 32]>>,
}

/// What a [`Keyring`] holds.
#[verifier::ext_equal]
pub struct KeyringModel {
    pub rings: Map<(Seq<char>, Seq<char>), Map<u64, Seq<u8>>>,
}

impl DeepView for Keyring {
    type V = KeyringModel;

    open spec fn deep_view(&self) -> KeyringModel {
        KeyringModel {
            rings: self.rings.deep_view(),
        }
    }
}

impl View for Keyring {
    type V = KeyringModel;

    open spec fn view(&self) -> KeyringModel {
        self.deep_view()
    }
}

impl Replicate for Keyring {
    fn replicate(&self) -> (copy: Self) {
        Keyring {
            rings: self.rings.replicate(),
        }
    }
}

impl Clone for Keyring {
    fn clone(&self) -> (copy: Self)
        ensures
            copy@ == self@,
    {
        self.replicate()
    }
}

/// The keys of a channel, by epoch.
pub open spec fn ring_of(keyring: KeyringModel, channel: (Seq<char>, Seq<char>)) -> Map<
    u64,
    Seq<u8>,
> {
    if keyring.rings.contains_key(channel) {
        keyring.rings[channel]
    } else {
        Map::empty()
    }
}

/// The key of an epoch of a channel.
pub open spec fn key_in(
    keyring: KeyringModel,
    channel: (Seq<char>, Seq<char>),
    epoch: u64,
) -> Option<Seq<u8>> {
    if ring_of(keyring, channel).contains_key(epoch) {
        Some(ring_of(keyring, channel)[epoch])
    } else {
        None
    }
}

impl EpochKeyLookup for Keyring {
    open spec fn key_of(&self, guild_id: Seq<char>, channel_id: Seq<char>, epoch: u64) -> Option<
        Seq<u8>,
    > {
        key_in(self@, (guild_id, channel_id), epoch)
    }

    open spec fn may_be_asked(&self, guild_id: Seq<char>, channel_id: Seq<char>, epoch: u64) -> bool {
        true
    }

    fn epoch_key(&self, guild_id: &str, channel_id: &str, epoch: u64) -> (key: Option<[u8; 32]>) {
        match self.rings.get(&ChannelKey::new(guild_id, channel_id)) {
            None => None,
            Some(ring) => match ring.get(&epoch) {
                None => None,
                Some(key) => {
                    proof {
                        assert(key.deep_view() =~= key@);
                    }
                    Some(*key)
                },
            },
        }
    }
}

/// A ring after the key of an epoch was handed out: where the epoch is new
/// (`renewed`) its key is taken in any case, otherwise only where there is none.
pub open spec fn rekeyed(
    ring: Map<u64, Seq<u8>>,
    epoch: u64,
    key: Seq<u8>,
    renewed: bool,
) -> Map<u64, Seq<u8>> {
    if renewed || !ring.contains_key(epoch) {
        ring.insert(epoch, key)
    } else {
        ring
    }
}

/// The keys after that of a channel's epoch was taken in: in any case where the
/// epoch is new (`renewed`), otherwise only where there is none yet.
pub open spec fn with_key(
    keyring: KeyringModel,
    channel: (Seq<char>, Seq<char>),
    epoch: u64,
    key: Seq<u8>,
    renewed: bool,
) -> KeyringModel {
    KeyringModel {
        rings: keyring.rings.insert(
            channel,
            rekeyed(ring_of(keyring, channel), epoch, key, renewed),
        ),
    }
}

impl Default for Keyring {
    fn default() -> (keyring: Self)
        ensures
            keyring@ == (KeyringModel { rings: Map::empty() }),
    {
        Keyring { rings: OrdMap::new() }
    }
}

impl Keyring {
    /// Takes in the key of a channel's epoch.
    pub fn take_key(&mut self, channel: &ChannelKey, epoch: u64, key: [u8; 32], renewed: bool)
        ensures
            final(self)@ == with_key(old(self)@, channel@, epoch, key.deep_view(), renewed),
    {
        let mut ring = match self.rings.take(channel) {
            Some(ring) => ring,
            None => OrdMap::new(),
        };
        if renewed || !ring.contains_key(&epoch) {
            ring.insert(epoch, key);
        }
        self.rings.insert(channel.replicate(), ring);
        proof {
            assert(self@.rings =~= with_key(
                old(self)@,
                channel@,
                epoch,
                key.deep_view(),
                renewed,
            ).rings);
        }
    }
}

} // verus!
