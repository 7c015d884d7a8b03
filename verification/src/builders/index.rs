use vstd::prelude::*;

use crate::model::{
    list_item_view, list_item_views, ListItemView, ListTopicAuthorItem, ListTopicItem,
    ListTopicTitleItem, UrlQueryItem,
};
use crate::models::topic;

verus! {

/// The row that the API's topic `item` gives: the category and thread ids as channel and
/// message, the title, the number of pages, the author's nickname and the reply count;
/// the other parts empty.
pub open spec fn topic_row_view(item: topic::Item) -> ListItemView {
    ListItemView {
        title_url: Seq::empty(),
        channel: item.cat_id@,
        message: item.thread_id@,
        title_text: item.title@,
        num_of_pages: item.total_page,
        author_url: Seq::empty(),
        author_name: item.user_nickname@,
        last_replied_date: Seq::empty(),
        last_replied_time: Seq::empty(),
        reply_count: item.no_of_reply@,
        rating: Seq::empty(),
    }
}

/// Builds topic list rows from the forum's API answers.
#[derive(Clone)]
pub struct Index {}

impl Index {
    /// A builder.
    pub fn new() -> (r: Self) {
        Index {  }
    }

    /// The rows of the topic list `document`, one for each of its items, in order
    /// (`topic_row_view`); never an error.
    pub fn build(&mut self, document: &topic::Result) -> (r: Result<Vec<ListTopicItem>, &'static str>)
        ensures
            r matches Ok(v) && list_item_views(v@) == document.response.items@.map_values(
                |item: topic::Item| topic_row_view(item),
            ),
    {
        let items = &document.response.items;
        let mut result: Vec<ListTopicItem> = Vec::new();
        let mut i: usize = 0;
        while i < items.len()
            invariant
                i <= items.len(),
                result@.len() == i,
                forall|k: int|
                    0 <= k < i ==> list_item_view(#[trigger] result@[k]) == topic_row_view(
                        items@[k],
                    ),
            decreases items.len() - i,
        {
            let item = &items[i];
            let url_query_item = UrlQueryItem {
                channel: item.cat_id.clone(),
                message: item.thread_id.clone(),
            };
            let title_item = ListTopicTitleItem {
                url: String::new(),
                url_query: url_query_item,
                text: item.title.clone(),
                num_of_pages: item.total_page,
            };
            let author_item = ListTopicAuthorItem {
                url: String::new(),
                name: item.user_nickname.clone(),
            };
            result.push(
                ListTopicItem {
                    title: title_item,
                    author: author_item,
                    last_replied_date: String::new(),
                    last_replied_time: String::new(),
                    reply_count: item.no_of_reply.clone(),
                    rating: String::new(),
                },
            );
            i = i + 1;
        }
        assert(list_item_views(result@) =~= items@.map_values(
            |item: topic::Item| topic_row_view(item),
        ));
        Ok(result)
    }
}

} // verus!
