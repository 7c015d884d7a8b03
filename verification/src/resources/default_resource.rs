use vstd::prelude::*;

use crate::resources::common::{empty_item, is_empty_item, ChannelItem};

verus! {

/// The resource that answers every request with the empty item.
pub struct DefaultResource {}

impl DefaultResource {
    /// The resource.
    pub fn new() -> (r: Self) {
        DefaultResource {  }
    }

    /// The answer to `item`: always the empty item.
    pub fn fetch(&mut self, item: &ChannelItem) -> (r: ChannelItem)
        ensures
            is_empty_item(r),
    {
        empty_item()
    }
}

} // verus!
