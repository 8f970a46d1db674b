//! What the engine makes of the answers of the browse service: how much
//! of a list it loads, and which item of a loaded list it goes into.

use vstd::prelude::*;
use vstd::string::*;

use crate::text::contains;
use crate::text::occurs_in;

verus! {

/// How many items of a list are loaded at most.
pub const BROWSE_LOAD_LIMIT: usize = 20;

/// An item of a loaded list.
#[derive(Debug, PartialEq, Eq)]
pub struct BrowseItem {
    pub title: String,
    pub subtitle: Option<String>,
    pub item_key: Option<String>,
}

pub struct BrowseItemView {
    pub title: Seq<char>,
    pub subtitle: Option<Seq<char>>,
    pub item_key: Option<Seq<char>>,
}

impl View for BrowseItem {
    type V = BrowseItemView;

    open spec fn view(&self) -> BrowseItemView {
        BrowseItemView {
            title: self.title@,
            subtitle: self.subtitle.deep_view(),
            item_key: self.item_key.deep_view(),
        }
    }
}

impl DeepView for BrowseItem {
    type V = BrowseItemView;

    open spec fn deep_view(&self) -> BrowseItemView {
        self@
    }
}

/// How many items of a list of `count` items are loaded: all of them, but
/// no more than twenty.
pub fn load_count(count: usize) -> (loaded: usize)
    ensures
        loaded == (if count < BROWSE_LOAD_LIMIT {
            count
        } else {
            BROWSE_LOAD_LIMIT
        }),
{
    if count < BROWSE_LOAD_LIMIT {
        count
    } else {
        BROWSE_LOAD_LIMIT
    }
}

/// Does the item lead to what plays now or to the queue, and can it be
/// gone into?
pub open spec fn leads_to_queue(item: BrowseItemView) -> bool {
    (occurs_in("Now Playing"@, item.title) || occurs_in("Queue"@, item.title)) && item.item_key
        is Some
}

/// The key of the first item at or after `from` that leads to what plays
/// now or to the queue.
pub open spec fn browse_target_from(items: Seq<BrowseItemView>, from: int) -> Option<Seq<char>>
    decreases items.len() - from,
{
    if from < 0 || from >= items.len() {
        None
    } else if leads_to_queue(items[from]) {
        items[from].item_key
    } else {
        browse_target_from(items, from + 1)
    }
}

/// The key of the item of a loaded list that the engine goes into: the
/// first whose title holds `Now Playing` or `Queue` and that has a key.
pub fn browse_target(items: &Vec<BrowseItem>) -> (key: Option<String>)
    ensures
        key.deep_view() == browse_target_from(items.deep_view(), 0),
{
    let mut i: usize = 0;
    while i < items.len()
        invariant
            i <= items.len(),
            browse_target_from(items.deep_view(), 0) == browse_target_from(
                items.deep_view(),
                i as int,
            ),
        decreases items.len() - i,
    {
        let item = &items[i];
        assert(item@ == items.deep_view()[i as int]);
        if item.item_key.is_some() && (contains(item.title.as_str(), "Now Playing") || contains(
            item.title.as_str(),
            "Queue",
        )) {
            return item.item_key.clone();
        }
        i += 1;
    }
    None
}

} // verus!
