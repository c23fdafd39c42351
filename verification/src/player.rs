//! A player: a username, a last-seen time, and the farm the player owns.

use vstd::prelude::*;

use crate::farm::{Farm, FarmV};
use crate::{Seed, Time, ONE_DAY, ONE_MINUTE, SPEED};

verus! {

/// Mathematical view of a player.
#[verifier::ext_equal]
pub ghost struct PlayerV {
    pub username: Seq<char>,
    pub last_online: nat,
    pub farm: FarmV,
}

impl PlayerV {
    /// What `Player::new` builds.
    pub open spec fn spec_new(username: Seq<char>, time: nat, seed: Seed) -> PlayerV {
        PlayerV { username, last_online: time, farm: FarmV::spec_new(seed) }
    }

    /// Seen within the last three minutes of game time.
    pub open spec fn spec_is_online(self, time: nat) -> bool {
        (time - self.last_online) / (SPEED as int) < ONE_MINUTE * 3
    }

    /// Seen within the last day of game time.
    pub open spec fn spec_is_active(self, time: nat) -> bool {
        (time - self.last_online) / (SPEED as int) < ONE_DAY
    }
}

/// A participant of the simulation.
#[derive(Clone, Debug)]
pub struct Player {
    pub username: String,
    pub last_online: Time,
    pub farm: Farm,
}

impl Player {
    pub open spec fn model(&self) -> PlayerV {
        PlayerV {
            username: self.username@,
            last_online: self.last_online as nat,
            farm: self.farm.model(),
        }
    }

    /// A fresh player with a fresh farm grown from the event's seed.
    pub fn new(username: String, time: Time, seed: Seed) -> (r: Player)
        ensures
            r.model() == PlayerV::spec_new(username@, time as nat, seed),
    {
        let r = Player { username, last_online: time, farm: Farm::new(seed) };
        proof {
            assert(r.model() =~= PlayerV::spec_new(r.username@, time as nat, seed));
        }
        r
    }

    /// A field-for-field copy of this player.
    pub fn duplicate(&self) -> (r: Player)
        ensures
            r.model() == self.model(),
    {
        Player {
            username: self.username.clone(),
            last_online: self.last_online,
            farm: self.farm.duplicate(),
        }
    }

    /// Seen within the last three minutes of game time.
    pub fn is_online(&self, time: Time) -> (r: bool)
        requires
            self.last_online <= time,
        ensures
            r == self.model().spec_is_online(time as nat),
    {
        (time - self.last_online) / SPEED < ONE_MINUTE * 3
    }

    /// Seen within the last day of game time.
    pub fn is_active(&self, time: Time) -> (r: bool)
        requires
            self.last_online <= time,
        ensures
            r == self.model().spec_is_active(time as nat),
    {
        (time - self.last_online) / SPEED < ONE_DAY
    }
}

} // verus!
