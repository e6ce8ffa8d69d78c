//! Contract types for the example state machines, with their encodings.
//!
//! Each type encodes into a tagged variant under a family of its own, so
//! keys and states from different families can never collide in the
//! store.

use vstd::prelude::*;

use crate::encoding::Tagged;

verus! {

/// The variant family of [`DataKey`].
pub const DATA_KEY_FAMILY: u32 = 3;

/// The variant family of [`State`].
pub const STATE_FAMILY: u32 = 4;

/// The variant family of [`Region`].
pub const REGION_FAMILY: u32 = 5;

/// The variant family of [`Phase`].
pub const PHASE_FAMILY: u32 = 6;

/// The variant family of [`Domain`].
pub const DOMAIN_FAMILY: u32 = 7;

/// The variant family of [`WhitelistKey`].
pub const WHITELIST_KEY_FAMILY: u32 = 8;

/// Key of the stored newcomer record.
#[derive(Clone, Copy, Debug, PartialEq, Eq, Structural)]
pub enum DataKey {
    Newcomer,
}

impl DataKey {
    /// The encoded form of this key.
    pub open spec fn spec_encode(self) -> Tagged {
        Tagged::Plain { family: DATA_KEY_FAMILY, tag: 0 }
    }

    /// Encode this key.
    pub fn encode(&self) -> (r: Tagged)
        ensures
            r == self.spec_encode(),
    {
        Tagged::Plain { family: DATA_KEY_FAMILY, tag: 0 }
    }
}

/// A general-purpose example state: a bare tag or a tag carrying a runtime
/// count.
#[derive(Clone, Copy, Debug, PartialEq, Eq, Structural)]
pub enum State {
    Opened,
    Running(i32),
    Closed,
}

impl State {
    /// The encoded form of this state.
    pub open spec fn spec_encode(self) -> Tagged {
        match self {
            State::Opened => Tagged::Plain { family: STATE_FAMILY, tag: 0 },
            State::Running(n) => Tagged::Extended {
                family: STATE_FAMILY,
                tag: 1,
                value: signed_word(n),
            },
            State::Closed => Tagged::Plain { family: STATE_FAMILY, tag: 2 },
        }
    }

    /// Encode this state.
    pub fn encode(&self) -> (r: Tagged)
        ensures
            r == self.spec_encode(),
    {
        match self {
            State::Opened => Tagged::Plain { family: STATE_FAMILY, tag: 0 },
            State::Running(n) => Tagged::Extended {
                family: STATE_FAMILY,
                tag: 1,
                value: encode_signed_word(*n),
            },
            State::Closed => Tagged::Plain { family: STATE_FAMILY, tag: 2 },
        }
    }
}

/// A general-purpose example region: global, entity-specific, or the
/// circuit of the pausable-activity example.
#[derive(Clone, Copy, Debug, PartialEq, Eq, Structural)]
pub enum Region {
    Global,
    Specific(i32),
    Circuit,
}

impl Region {
    /// The encoded form of this region.
    pub open spec fn spec_encode(self) -> Tagged {
        match self {
            Region::Global => Tagged::Plain { family: REGION_FAMILY, tag: 0 },
            Region::Specific(n) => Tagged::Extended {
                family: REGION_FAMILY,
                tag: 1,
                value: signed_word(n),
            },
            Region::Circuit => Tagged::Plain { family: REGION_FAMILY, tag: 2 },
        }
    }

    /// Encode this region.
    pub fn encode(&self) -> (r: Tagged)
        ensures
            r == self.spec_encode(),
    {
        match self {
            Region::Global => Tagged::Plain { family: REGION_FAMILY, tag: 0 },
            Region::Specific(n) => Tagged::Extended {
                family: REGION_FAMILY,
                tag: 1,
                value: encode_signed_word(*n),
            },
            Region::Circuit => Tagged::Plain { family: REGION_FAMILY, tag: 2 },
        }
    }
}

/// An embedded signed value, shifted into the non-negative range so that
/// the mapping into a payload word is injective.
pub open spec fn signed_word(n: i32) -> u64 {
    (n + 2147483648) as u64
}

/// Encode an embedded signed value as a payload word.
pub fn encode_signed_word(n: i32) -> (r: u64)
    ensures
        r == signed_word(n),
{
    let shifted: i64 = (n as i64) + 2147483648;
    shifted as u64
}

/// A player of the two-player commitment game.
#[derive(Clone, Copy, Debug, PartialEq, Eq, Structural)]
pub enum Player {
    Alice,
    Bob,
}

impl Player {
    /// The payload word standing for this player.
    pub open spec fn spec_code(self) -> u64 {
        match self {
            Player::Alice => 0,
            Player::Bob => 1,
        }
    }

    /// The payload word standing for this player.
    pub fn code(&self) -> (r: u64)
        ensures
            r == self.spec_code(),
    {
        match self {
            Player::Alice => 0,
            Player::Bob => 1,
        }
    }

    /// The other player.
    pub open spec fn spec_other(self) -> Player {
        match self {
            Player::Alice => Player::Bob,
            Player::Bob => Player::Alice,
        }
    }

    /// The other player.
    pub fn other(&self) -> (r: Player)
        ensures
            r == self.spec_other(),
    {
        match self {
            Player::Alice => Player::Bob,
            Player::Bob => Player::Alice,
        }
    }
}

/// A phase of the commitment game, tracked per player and for the game as
/// a whole.
#[derive(Clone, Copy, Debug, PartialEq, Eq, Structural)]
pub enum Phase {
    Start,
    Committing(Player),
    Revealing(Player),
    Completed(Player),
    End,
}

impl Phase {
    /// The encoded form of this phase.
    pub open spec fn spec_encode(self) -> Tagged {
        match self {
            Phase::Start => Tagged::Plain { family: PHASE_FAMILY, tag: 0 },
            Phase::Committing(p) => Tagged::Extended {
                family: PHASE_FAMILY,
                tag: 1,
                value: p.spec_code(),
            },
            Phase::Revealing(p) => Tagged::Extended {
                family: PHASE_FAMILY,
                tag: 2,
                value: p.spec_code(),
            },
            Phase::Completed(p) => Tagged::Extended {
                family: PHASE_FAMILY,
                tag: 3,
                value: p.spec_code(),
            },
            Phase::End => Tagged::Plain { family: PHASE_FAMILY, tag: 4 },
        }
    }

    /// Encode this phase.
    pub fn encode(&self) -> (r: Tagged)
        ensures
            r == self.spec_encode(),
    {
        match self {
            Phase::Start => Tagged::Plain { family: PHASE_FAMILY, tag: 0 },
            Phase::Committing(p) => Tagged::Extended {
                family: PHASE_FAMILY,
                tag: 1,
                value: p.code(),
            },
            Phase::Revealing(p) => Tagged::Extended {
                family: PHASE_FAMILY,
                tag: 2,
                value: p.code(),
            },
            Phase::Completed(p) => Tagged::Extended {
                family: PHASE_FAMILY,
                tag: 3,
                value: p.code(),
            },
            Phase::End => Tagged::Plain { family: PHASE_FAMILY, tag: 4 },
        }
    }
}

/// A region of the commitment game: one concurrent track per player, and
/// one for the game as a whole.
#[derive(Clone, Copy, Debug, PartialEq, Eq, Structural)]
pub enum Domain {
    Players(Player),
    Game,
}

impl Domain {
    /// The encoded form of this region.
    pub open spec fn spec_encode(self) -> Tagged {
        match self {
            Domain::Players(p) => Tagged::Extended {
                family: DOMAIN_FAMILY,
                tag: 0,
                value: p.spec_code(),
            },
            Domain::Game => Tagged::Plain { family: DOMAIN_FAMILY, tag: 1 },
        }
    }

    /// Encode this region.
    pub fn encode(&self) -> (r: Tagged)
        ensures
            r == self.spec_encode(),
    {
        match self {
            Domain::Players(p) => Tagged::Extended {
                family: DOMAIN_FAMILY,
                tag: 0,
                value: p.code(),
            },
            Domain::Game => Tagged::Plain { family: DOMAIN_FAMILY, tag: 1 },
        }
    }
}

/// Key of the stored broker whitelist record.
#[derive(Clone, Copy, Debug, PartialEq, Eq, Structural)]
pub enum WhitelistKey {
    Broker,
}

impl WhitelistKey {
    /// The encoded form of this key.
    pub open spec fn spec_encode(self) -> Tagged {
        Tagged::Plain { family: WHITELIST_KEY_FAMILY, tag: 0 }
    }

    /// Encode this key.
    pub fn encode(&self) -> (r: Tagged)
        ensures
            r == self.spec_encode(),
    {
        Tagged::Plain { family: WHITELIST_KEY_FAMILY, tag: 0 }
    }
}

} // verus!
