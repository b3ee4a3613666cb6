//! Posts and likes, as the store holds them and as they are reported.

use vstd::prelude::*;
use crate::chat::model::{sql_texts, text_views, thing_views, things_to_sql};
use crate::db::Thing;

verus! {

/// A post, as the store holds it.
#[derive(Debug)]
pub struct Post {
    pub id: Thing,
    pub content: String,
    pub caption: String,
    pub uid: Thing,
    pub likes_count: usize,
    pub created_at: i64,
}

/// A post as it is reported to a caller.
#[derive(Debug)]
pub struct PostResponse {
    pub id: String,
    pub content: String,
    pub caption: String,
    pub uid: String,
    pub likes_count: usize,
    pub created_at: i64,
    pub liked_by_user: bool,
}

impl PostResponse {
    /// Reports `post`: the same post with its identifiers written as text,
    /// and not yet marked as liked by the caller.
    pub fn from(post: Post) -> (response: PostResponse)
        ensures
            response.id@ == post.id@.sql(),
            response.content@ == post.content@,
            response.caption@ == post.caption@,
            response.uid@ == post.uid@.sql(),
            response.likes_count == post.likes_count,
            response.created_at == post.created_at,
            !response.liked_by_user,
    {
        PostResponse {
            id: post.id.to_sql(),
            uid: post.uid.to_sql(),
            content: post.content,
            caption: post.caption,
            likes_count: post.likes_count,
            created_at: post.created_at,
            liked_by_user: false,
        }
    }
}

/// The page of the feed that a caller asks for.
#[derive(Debug, Clone, Copy)]
pub struct FeedQuery {
    pub page: Option<u32>,
    pub limit: Option<u32>,
}

/// The page shown where none is asked for.
pub const DEFAULT_FEED_PAGE: u32 = 1;

/// The size of a page where none is asked for.
pub const DEFAULT_FEED_LIMIT: u32 = 10;

impl FeedQuery {
    /// The number of the page asked for; pages count from one.
    pub open spec fn spec_page(self) -> u32 {
        match self.page {
            Some(page) => page,
            None => DEFAULT_FEED_PAGE,
        }
    }

    /// The size of the page asked for.
    pub open spec fn spec_limit(self) -> u32 {
        match self.limit {
            Some(limit) => limit,
            None => DEFAULT_FEED_LIMIT,
        }
    }

    /// How many posts come before the page asked for.
    pub open spec fn spec_start(self) -> int {
        (self.spec_page() - 1) * self.spec_limit()
    }

    /// Whether the query names a page that exists and whose start can be
    /// told.
    pub open spec fn in_range(self) -> bool {
        self.spec_page() >= 1 && self.spec_start() <= u32::MAX
    }

    /// Decides [`FeedQuery::in_range`].
    pub fn is_in_range(&self) -> (ok: bool)
        ensures
            ok == self.in_range(),
    {
        let page: u32 = match self.page {
            Some(page) => page,
            None => DEFAULT_FEED_PAGE,
        };
        let limit: u32 = match self.limit {
            Some(limit) => limit,
            None => DEFAULT_FEED_LIMIT,
        };
        if page < 1 {
            return false;
        }
        let before: u64 = (page - 1) as u64;
        let size: u64 = limit as u64;
        assert(before * size <= 0xffff_ffff * 0xffff_ffff) by (nonlinear_arith)
            requires
                0 <= before <= 0xffff_ffff,
                0 <= size <= 0xffff_ffff,
        ;
        let start: u64 = before * size;
        start <= u32::MAX as u64
    }

    /// The size of the page asked for and the number of posts that come
    /// before it.
    pub fn window(&self) -> (w: (u32, u32))
        requires
            self.in_range(),
        ensures
            w.0 == self.spec_limit(),
            w.1 == self.spec_start(),
    {
        let page: u32 = match self.page {
            Some(page) => page,
            None => DEFAULT_FEED_PAGE,
        };
        let limit: u32 = match self.limit {
            Some(limit) => limit,
            None => DEFAULT_FEED_LIMIT,
        };
        (limit, (page - 1) * limit)
    }
}

/// The likes of a post, as the store holds them.
#[derive(Debug)]
pub struct Like {
    pub id: Thing,
    pub post_id: Thing,
    pub user_ids: Vec<Thing>,
}

/// The likes of a post as they are reported to a caller.
#[derive(Debug)]
pub struct LikeResponse {
    pub id: String,
    pub post_id: String,
    pub user_ids: Vec<String>,
}

impl LikeResponse {
    /// Reports `like`: the same record with its identifiers written as text.
    pub fn from(like: Like) -> (response: LikeResponse)
        ensures
            response.id@ == like.id@.sql(),
            response.post_id@ == like.post_id@.sql(),
            text_views(response.user_ids@) == sql_texts(thing_views(like.user_ids@)),
    {
        LikeResponse {
            id: like.id.to_sql(),
            post_id: like.post_id.to_sql(),
            user_ids: things_to_sql(&like.user_ids),
        }
    }
}

} // verus!
