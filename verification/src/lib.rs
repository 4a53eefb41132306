//! Scrapes a Hacker News user's upvoted and favorited stories and prepares
//! them as bookmarks, with the parsing and syncing decisions verified.
mod auth;
mod favorites;
mod pager;
mod scrape;
mod settings;
mod sync;

pub use auth::{
    auth_cookie, hn_auth_cookie, is_username_of, lemma_auth_cookie, lemma_username_shape,
    lemma_username_unique, username_from_auth, HN_DOMAIN,
};
pub use pager::{
    favorites_path, favorites_path_of, lemma_listing_paths, lemma_page_url, page_from_body, page_url_of, request_url,
    status_is_success, upvoted_path, upvoted_path_of,
};
pub use scrape::{
    absolute_url, css_selector_parses, lemma_absolute_url, lemma_more_link_of_links,
    lemma_page_more_link, lemma_page_posts, lemma_site_prefix_text, get_more_link, get_submissions_from_document, has_prefix,
    item_prefix, links_view, make_absolute_url, more_link_from_links, more_link_of_links,
    opt_view, page_more_link, page_posts, post_from_link, post_of_link, posts_from_links,
    posts_of_links, posts_view, scrape_page, selected_links, Document, HNPost, Link, LinkView,
    PostView, HN_BASE_URL, MORE_LINK_SELECTOR, TITLE_LINK_SELECTOR,
};
pub use sync::{
    created_in, lemma_progress_counts, lemma_stops_after_five_existing, progress_after,
    progress_is_done, progress_step, ProgressView, SyncProgress, STOP_AFTER_EXISTING,
};
pub use settings::{
    bool_text, is_bool_text, lemma_bool_text, optional_bool_from_env, parse_bool_value, BoolParseError, EnvVar,
    HNSettings, SettingsError,
};
pub use favorites::{
    auth_is_set, bookmark_matches_post, credentials_available, favorites_schedule_of,
    lemma_favorites_schedule,
    lemma_activated_has_credentials, BookmarkCreate, FavoritesError, HNFavorited,
};
