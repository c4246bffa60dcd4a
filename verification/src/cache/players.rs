use vstd::prelude::*;
use crate::cache::split::Split;
use crate::utils::name_map::NameMap;
use crate::utils::text::lowercase;

verus! {

/// An elapsed time in whole minutes and seconds.
#[derive(Debug, Clone, Copy, PartialEq, Eq, Structural)]
pub struct BestTime {
    pub minutes: u64,
    pub seconds: u64,
}

/// The best time that is known of one runner at each milestone. A runner of
/// whom nothing is known yet has zero everywhere.
#[derive(Debug, Clone, Copy, PartialEq, Eq, Structural)]
pub struct PlayerSplitsData {
    pub first_structure: BestTime,
    pub second_structure: BestTime,
    pub blind: BestTime,
    pub eye_spy: BestTime,
    pub end_enter: BestTime,
}

impl PlayerSplitsData {
    /// The best time recorded for the milestone.
    pub open spec fn best(self, split: Split) -> BestTime {
        match split {
            Split::FirstStructure => self.first_structure,
            Split::SecondStructure => self.second_structure,
            Split::Blind => self.blind,
            Split::EyeSpy => self.eye_spy,
            Split::EndEnter => self.end_enter,
        }
    }

    /// The record of a runner of whom nothing is known.
    pub open spec fn unknown() -> PlayerSplitsData {
        let zero = BestTime { minutes: 0, seconds: 0 };
        PlayerSplitsData {
            first_structure: zero,
            second_structure: zero,
            blind: zero,
            eye_spy: zero,
            end_enter: zero,
        }
    }

    /// The best time recorded for the milestone.
    pub fn get(&self, split: &Split) -> (r: BestTime)
        ensures
            r == self.best(*split),
    {
        match split {
            Split::FirstStructure => self.first_structure,
            Split::SecondStructure => self.second_structure,
            Split::Blind => self.blind,
            Split::EyeSpy => self.eye_spy,
            Split::EndEnter => self.end_enter,
        }
    }

    /// Records a best time for one milestone and leaves the others as they
    /// were.
    pub fn set(&mut self, split: Split, minutes: u64, seconds: u64)
        ensures
            final(self).best(split) == (BestTime { minutes, seconds }),
            forall|other: Split| other != split ==> final(self).best(other) == old(self).best(other),
    {
        let time = BestTime { minutes, seconds };
        match split {
            Split::FirstStructure => {
                self.first_structure = time;
            },
            Split::SecondStructure => {
                self.second_structure = time;
            },
            Split::Blind => {
                self.blind = time;
            },
            Split::EyeSpy => {
                self.eye_spy = time;
            },
            Split::EndEnter => {
                self.end_enter = time;
            },
        }
    }
}

impl Default for PlayerSplitsData {
    fn default() -> (r: Self)
        ensures
            r == PlayerSplitsData::unknown(),
    {
        let zero = BestTime { minutes: 0, seconds: 0 };
        PlayerSplitsData {
            first_structure: zero,
            second_structure: zero,
            blind: zero,
            eye_spy: zero,
            end_enter: zero,
        }
    }
}

/// The name is the lowercase form of some nickname.
pub open spec fn is_lowercased(key: Seq<char>) -> bool {
    exists|nickname: Seq<char>| key == lowercase(nickname)
}

/// Every name that the mapping knows is the lowercase form of a nickname.
pub open spec fn keys_lowercased(players: Map<Seq<char>, PlayerSplitsData>) -> bool {
    forall|key: Seq<char>| players.contains_key(key) ==> is_lowercased(key)
}

/// The runners of one community with their records. A runner is known by
/// the lowercase form of the nickname, so that nicknames which differ only
/// in case name the same runner.
#[derive(Debug)]
pub struct Players {
    map: NameMap<PlayerSplitsData>,
}

impl View for Players {
    type V = Map<Seq<char>, PlayerSplitsData>;

    closed spec fn view(&self) -> Map<Seq<char>, PlayerSplitsData> {
        self.map@
    }
}

impl Players {
    /// No runners.
    pub fn new() -> (p: Self)
        ensures
            p@ == Map::<Seq<char>, PlayerSplitsData>::empty(),
            keys_lowercased(p@),
    {
        Players { map: NameMap::new() }
    }

    /// The record of the runner with this nickname, whatever its case.
    pub fn get(&self, nickname: &str) -> (r: Option<PlayerSplitsData>)
        ensures
            r == if self@.contains_key(lowercase(nickname@)) {
                Some(self@[lowercase(nickname@)])
            } else {
                None
            },
    {
        let key = nickname.to_lowercase();
        match self.map.get(&key) {
            Some(data) => Some(*data),
            None => None,
        }
    }

    /// Stores the record under the lowercase form of the nickname, in place
    /// of an earlier record of that runner.
    pub fn insert(&mut self, nickname: &str, data: PlayerSplitsData)
        ensures
            final(self)@ == old(self)@.insert(lowercase(nickname@), data),
            keys_lowercased(old(self)@) ==> keys_lowercased(final(self)@),
    {
        let key = nickname.to_lowercase();
        proof {
            assert(is_lowercased(key@));
        }
        self.map.insert(key, data);
    }
}

} // verus!
