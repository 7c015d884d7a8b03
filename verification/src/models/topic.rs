use vstd::prelude::*;

verus! {

/// The answer of the forum's API to a request for a list of topics.
#[derive(Debug, Clone, Default)]
pub struct Result {
    pub success: usize,
    pub server_time: usize,
    pub response: Response,
}

/// A list of topics, as the API gives it.
#[derive(Debug, Clone, Default)]
pub struct Response {
    pub category: Category,
    pub items: Vec<Item>,
}

/// The category of a topic list.
#[derive(Debug, Clone, Default)]
pub struct Category {
    pub name: String,
}

/// One topic of a list, as the API gives it.
#[derive(Debug, Clone, Default)]
pub struct Item {
    pub thread_id: String,
    pub cat_id: String,
    pub title: String,
    pub user_nickname: String,
    pub no_of_reply: String,
    pub create_time: usize,
    pub last_reply_time: usize,
    pub total_page: usize,
}

} // verus!
