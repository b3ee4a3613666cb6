//! The decisions of the post service.

use vstd::prelude::*;
use vstd::string::*;
use crate::chat::model::thing_views;
use crate::chat::store::names_thing;
use crate::db::Thing;
use crate::posts::model::{Like, LikeResponse};

verus! {

/// Whether the caller likes a post, given what the store answered: no
/// answer means no.
pub fn liked_by_user(answer: Option<bool>) -> (liked: bool)
    ensures
        liked == (answer == Some(true)),
{
    match answer {
        Some(liked) => liked,
        None => false,
    }
}

/// What is reported after the user `uid` toggled their like of a post,
/// given the likes of the post afterwards.
pub fn like_post(like: &Like, uid: &Thing) -> (text: &'static str)
    ensures
        text@ == (if thing_views(like.user_ids@).contains(uid@) {
            "Liked the post"@
        } else {
            "Unliked the post"@
        }),
{
    if names_thing(&like.user_ids, uid) {
        "Liked the post"
    } else {
        "Unliked the post"
    }
}

/// The likes of a post as they are reported, given the records that the
/// store holds for it: the first of them, if there is one.
pub fn get_likes(mut likes: Vec<Like>) -> (r: Option<LikeResponse>)
    ensures
        r is Some <==> likes@.len() > 0,
        r matches Some(response) ==> {
            &&& response.id@ == likes@[0].id@.sql()
            &&& response.post_id@ == likes@[0].post_id@.sql()
            &&& crate::chat::model::text_views(response.user_ids@) == crate::chat::model::sql_texts(
                thing_views(likes@[0].user_ids@),
            )
        },
{
    if likes.len() == 0 {
        None
    } else {
        let first = likes.swap_remove(0);
        Some(LikeResponse::from(first))
    }
}

/// Where the picture of a post `file_name` is kept, and the address under
/// which it is served.
pub fn post_location(file_name: &str) -> (location: (String, String))
    ensures
        location.0@ == "data/posts/"@ + file_name@,
        location.1@ == "http://localhost:8080/posts/"@ + file_name@,
{
    (
        String::from_str("data/posts/").concat(file_name),
        String::from_str("http://localhost:8080/posts/").concat(file_name),
    )
}

} // verus!
