use vstd::prelude::*;

verus! {

/// One event of a run: the marker that names what happened, and the in-game
/// time at which it happened, in milliseconds.
#[derive(Debug, Clone, PartialEq, Eq)]
pub struct Event {
    pub event_id: String,
    pub igt: u64,
}

/// The kinds of item that the feed counts.
#[derive(Debug, Clone, Copy, PartialEq, Eq, Hash, Structural)]
pub enum Item {
    MinecraftBlazeRod,
    MinecraftEnderPearl,
    MinecraftEnderEye,
    MinecraftObsidian,
}

/// The estimated count of one kind of item.
#[derive(Debug, Clone, Copy, PartialEq, Eq, Structural)]
pub struct ItemCount {
    pub item: Item,
    pub count: u64,
}

/// A snapshot of what the runner holds, one entry per kind of item that was
/// counted.
#[derive(Debug, Clone, PartialEq, Eq)]
pub struct ItemData {
    pub estimated_counts: Vec<ItemCount>,
}

/// The count that the first entry for `item` gives, if there is one.
pub open spec fn count_of(counts: Seq<ItemCount>, item: Item) -> Option<u64>
    decreases counts.len(),
{
    if counts.len() == 0 {
        None
    } else if counts[0].item == item {
        Some(counts[0].count)
    } else {
        count_of(counts.drop_first(), item)
    }
}

impl ItemData {
    /// The estimated count of one kind of item, if the snapshot has it.
    pub fn get(&self, item: Item) -> (r: Option<u64>)
        ensures
            r == count_of(self.estimated_counts@, item),
    {
        let mut i: usize = 0;
        proof {
            assert(self.estimated_counts@.skip(0) == self.estimated_counts@);
        }
        while i < self.estimated_counts.len()
            invariant
                i <= self.estimated_counts.len(),
                count_of(self.estimated_counts@, item) == count_of(
                    self.estimated_counts@.skip(i as int),
                    item,
                ),
            decreases self.estimated_counts.len() - i,
        {
            proof {
                assert(self.estimated_counts@.skip(i as int).drop_first()
                    == self.estimated_counts@.skip(i + 1));
            }
            if self.estimated_counts[i].item == item {
                return Some(self.estimated_counts[i].count);
            }
            i = i + 1;
        }
        None
    }
}

/// The account of the runner on the feed's side.
#[derive(Debug, Clone, PartialEq, Eq)]
pub struct User {
    /// The live broadcast of the runner, where there is one.
    pub live_account: Option<String>,
}

/// One sample of the feed: who runs, the events of the run so far with the
/// newest last, what the runner holds, and when the sample was taken, in
/// milliseconds since the epoch.
#[derive(Debug, Clone, PartialEq, Eq)]
pub struct Response {
    pub nickname: String,
    pub user: User,
    pub event_list: Vec<Event>,
    pub item_data: Option<ItemData>,
    pub last_updated: u64,
}

impl Response {
    /// The newest event of the run, which is the one that a sample reports.
    pub fn last_event(&self) -> (r: Option<&Event>)
        ensures
            r == if self.event_list@.len() == 0 {
                None
            } else {
                Some(&self.event_list@.last())
            },
    {
        if self.event_list.len() == 0 {
            None
        } else {
            Some(&self.event_list[self.event_list.len() - 1])
        }
    }
}

} // verus!
