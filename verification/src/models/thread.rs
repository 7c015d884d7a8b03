use vstd::prelude::*;

verus! {

/// The answer of the forum's API to a request for one page of a thread.
#[derive(Debug, Clone, Default)]
pub struct Result {
    pub success: usize,
    pub server_time: usize,
    pub response: Response,
}

/// One page of a thread, as the API gives it.
#[derive(Debug, Clone, Default)]
pub struct Response {
    pub thread_id: String,
    pub cat_id: String,
    pub title: String,
    pub user_id: String,
    pub user_nickname: String,
    pub no_of_reply: String,
    pub create_time: usize,
    pub last_reply_time: usize,
    pub total_page: usize,
    pub page: usize,
    pub item_data: Vec<ItemData>,
}

/// One reply of a thread page, as the API gives it (`msg` is HTML).
#[derive(Debug, Clone, Default)]
pub struct ItemData {
    pub post_id: String,
    pub thread_id: String,
    pub user_nickname: String,
    pub reply_time: usize,
    pub msg: String,
}

} // verus!
