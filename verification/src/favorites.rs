use vstd::prelude::*;

use crate::auth::{is_username_of, username_from_auth};
use crate::scrape::HNPost;
use crate::settings::HNSettings;

verus! {

/// A bookmark to be put into a list: a story's title and URL, and when it was
/// saved at the source, where the source says so.
#[derive(Debug, Clone)]
pub struct BookmarkCreate {
    pub title: String,
    pub url: String,
    pub created_at: Option<String>,
}

/// Why the favorites of the configured user cannot be listed.
#[derive(Debug, Clone, Copy, PartialEq, Eq)]
pub enum FavoritesError {
    /// No session cookie is configured.
    MissingAuth,
    /// No user name could be read from the session cookie.
    NoUsername,
}

impl FavoritesError {
    /// What went wrong, as a sentence.
    pub fn message(&self) -> (m: &'static str)
        ensures
            *self == FavoritesError::MissingAuth ==> m@ == "HN auth token is not set"@,
            *self == FavoritesError::NoUsername ==> m@
                == "Failed to extract username from auth token"@,
    {
        match self {
            FavoritesError::MissingAuth => "HN auth token is not set",
            FavoritesError::NoUsername => "Failed to extract username from auth token",
        }
    }
}

/// Syncs the stories that the configured user marked as favorites on Hacker News.
#[derive(Debug, Clone)]
pub struct HNFavorited {}

/// The schedule of the favorites list: its own where one is set and not empty,
/// else the schedule of all Hacker News lists.
pub open spec fn favorites_schedule_of(hn: HNSettings) -> Seq<char> {
    match hn.favorited_schedule {
        Some(s) => if s@.len() > 0 {
            s@
        } else {
            hn.schedule@
        },
        None => hn.schedule@,
    }
}

/// Whether a session cookie that is not empty is configured.
pub open spec fn auth_is_set(hn: HNSettings) -> bool {
    hn.auth matches Some(a) && a@.len() > 0
}

/// Whether credentials can be read: a session cookie is configured.
pub open spec fn credentials_available(hn: HNSettings) -> bool {
    hn.auth is Some
}

/// The bookmark that a story becomes: same title and URL; Hacker News does not
/// say when a story was marked as a favorite.
pub open spec fn bookmark_matches_post(b: BookmarkCreate, p: HNPost) -> bool {
    &&& b.title@ == p.title@
    &&& b.url@ == p.url@
    &&& b.created_at is None
}

impl HNFavorited {
    /// The name of the list that the favorites go to.
    pub fn list_name(&self) -> (name: &'static str)
        ensures
            name@ == "HN Favorited"@,
    {
        "HN Favorited"
    }

    /// Whether this sync runs at all: only with a session cookie that is not empty.
    pub fn is_activated(&self, hn: &HNSettings) -> (active: bool)
        ensures
            active == auth_is_set(*hn),
            active <==> (hn.auth matches Some(a) && a@.len() > 0),
    {
        match &hn.auth {
            Some(a) => !a.as_str().is_empty(),
            None => false,
        }
    }

    /// How often the favorites are synced.
    pub fn recurring_schedule(&self, hn: &HNSettings) -> (schedule: String)
        ensures
            schedule@ == favorites_schedule_of(*hn),
            hn.favorited_schedule matches Some(s) ==> (s@.len() > 0 ==> schedule@ == s@),
            hn.favorited_schedule matches Some(s) ==> (s@.len() == 0 ==> schedule@
                == hn.schedule@),
            hn.favorited_schedule is None ==> schedule@ == hn.schedule@,
    {
        match &hn.favorited_schedule {
            Some(s) => if !s.as_str().is_empty() {
                s.clone()
            } else {
                hn.schedule.clone()
            },
            None => hn.schedule.clone(),
        }
    }

    /// The session cookie and the user name to list favorites with; an error
    /// when no cookie is configured.
    pub fn credentials(&self, hn: &HNSettings) -> (res: Result<(String, String), FavoritesError>)
        ensures
            res is Ok <==> credentials_available(*hn),
            res is Ok <==> hn.auth is Some,
            res matches Ok((auth, user)) ==> hn.auth matches Some(a) && auth@ == a@ && user@.len()
                <= a@.len() && (forall|i: int|
                0 <= i < user@.len() ==> user@[i] == a@[i] && user@[i] != '&') && (user@.len()
                < a@.len() ==> a@[user@.len() as int] == '&'),
            res matches Ok((auth, user)) ==> hn.auth matches Some(a) && auth@ == a@
                && is_username_of(user@, a@),
            res is Ok || res == Err::<(String, String), FavoritesError>(FavoritesError::MissingAuth),
    {
        let auth = match &hn.auth {
            Some(a) => a,
            None => return Err(FavoritesError::MissingAuth),
        };
        let user = match username_from_auth(auth.as_str()) {
            Some(u) => u,
            None => return Err(FavoritesError::NoUsername),
        };
        Ok((auth.clone(), user))
    }

    /// The bookmarks for one page of favorite stories, one per story, in order.
    pub fn bookmarks_from_page(&self, page: Vec<HNPost>) -> (bookmarks: Vec<BookmarkCreate>)
        ensures
            bookmarks@.len() == page@.len(),
            forall|i: int|
                0 <= i < page@.len() ==> bookmark_matches_post(#[trigger] bookmarks@[i], page@[i]),
            forall|i: int|
                0 <= i < page@.len() ==> (#[trigger] bookmarks@[i]).title@ == page@[i].title@
                    && bookmarks@[i].url@ == page@[i].url@ && bookmarks@[i].created_at is None,
    {
        let mut bookmarks: Vec<BookmarkCreate> = Vec::new();
        for i in 0..page.len()
            invariant
                bookmarks@.len() == i,
                forall|j: int|
                    0 <= j < i ==> bookmark_matches_post(#[trigger] bookmarks@[j], page@[j]),
        {
            let post = &page[i];
            bookmarks.push(
                BookmarkCreate { title: post.title.clone(), url: post.url.clone(), created_at: None },
            );
        }
        bookmarks
    }
}

/// The favorites are synced on their own schedule whenever one is set and not
/// empty, whatever its text; otherwise on the schedule of all Hacker News lists.
pub proof fn lemma_favorites_schedule(hn: HNSettings)
    ensures
        hn.favorited_schedule matches Some(s) ==> (s@.len() > 0 ==> favorites_schedule_of(hn)
            == s@),
        hn.favorited_schedule matches Some(s) ==> (s@.len() == 0 ==> favorites_schedule_of(hn)
            == hn.schedule@),
        hn.favorited_schedule is None ==> favorites_schedule_of(hn) == hn.schedule@,
{
}

/// A favorites sync that is activated always gets its credentials: the only
/// way to fail is a missing cookie, and the user name is read from any cookie.
pub proof fn lemma_activated_has_credentials(hn: HNSettings)
    ensures
        auth_is_set(hn) ==> credentials_available(hn),
{
}

} // verus!
