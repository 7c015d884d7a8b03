use vstd::prelude::*;

verus! {

/// A request for one page of a thread: its post id and page number.
#[derive(Debug, Clone)]
pub struct ChannelShowItem {
    pub postid: String,
    pub page: usize,
}

/// A request for one page of a topic list.
#[derive(Debug, Clone)]
pub struct ChannelIndexItem {
    pub page: usize,
}

/// A request for an image.
#[derive(Debug, Clone)]
pub struct ChannelImageItem {
    pub url: String,
}

/// What a request passed between the user interface and the web worker asks for.
#[derive(Debug, Clone)]
pub enum ChannelItemType {
    Index(ChannelIndexItem),
    Show(ChannelShowItem),
    Image(ChannelImageItem),
}

/// A request, or its answer: what it asks for, and the text fetched for it.
#[derive(Debug, Clone)]
pub struct ChannelItem {
    pub extra: Option<ChannelItemType>,
    pub result: String,
}

/// Whether `item` is the empty item: it asks for nothing and holds no text.
pub open spec fn is_empty_item(item: ChannelItem) -> bool {
    item.extra is None && item.result@.len() == 0
}

/// The empty item: it asks for nothing and holds no text.
pub fn empty_item() -> (r: ChannelItem)
    ensures
        is_empty_item(r),
{
    ChannelItem { extra: None, result: String::new() }
}

/// The resource that answers a request.
pub enum ResourceKind {
    /// The topic list resource.
    Index,
    /// The thread page resource.
    Show,
    /// The image resource.
    Image,
    /// The resource that answers with the empty item.
    Empty,
}

/// The resource that answers `item`: the one for the kind of page it asks for, or the
/// one that answers with the empty item where it asks for nothing.
pub fn resource_for(item: &ChannelItem) -> (r: ResourceKind)
    ensures
        match item.extra {
            Some(ChannelItemType::Index(_)) => r is Index,
            Some(ChannelItemType::Show(_)) => r is Show,
            Some(ChannelItemType::Image(_)) => r is Image,
            None => r is Empty,
        },
{
    match &item.extra {
        Some(ChannelItemType::Index(_)) => ResourceKind::Index,
        Some(ChannelItemType::Show(_)) => ResourceKind::Show,
        Some(ChannelItemType::Image(_)) => ResourceKind::Image,
        None => ResourceKind::Empty,
    }
}

impl Default for ChannelItem {
    /// The empty item.
    fn default() -> (r: Self)
        ensures
            is_empty_item(r),
    {
        empty_item()
    }
}

} // verus!
