use hnscraper::{
    optional_bool_from_env, parse_bool_value, BookmarkCreate, EnvVar, FavoritesError, HNFavorited,
    HNPost, HNSettings, SettingsError,
};

#[test]
fn parses_bool_values() {
    assert_eq!(Some(true), parse_bool_value("true").unwrap());
    assert_eq!(Some(false), parse_bool_value("false").unwrap());
}

#[test]
fn rejects_invalid_bool_values() {
    assert!(parse_bool_value("maybe").is_err());
}

#[test]
fn bool_parsing_is_exact() {
    assert!(parse_bool_value("True").is_err());
    assert!(parse_bool_value(" true").is_err());
    assert!(parse_bool_value("1").is_err());
    assert!(parse_bool_value("").is_err());
}

#[test]
fn unset_variable_gives_none() {
    assert_eq!(optional_bool_from_env("KS_HN_DISABLE_UPVOTED", EnvVar::NotPresent).unwrap(), None);
}

#[test]
fn set_variable_is_parsed() {
    let r = optional_bool_from_env("KS_HN_DISABLE_FAVORITES", EnvVar::Present("true".to_string()));
    assert_eq!(r.unwrap(), Some(true));
}

#[test]
fn invalid_variable_names_it() {
    let r = optional_bool_from_env("KS_HN_DISABLE_UPVOTED", EnvVar::Present("yes".to_string()));
    let e = r.unwrap_err();
    match &e {
        SettingsError::InvalidBool { name, .. } => assert_eq!(name, "KS_HN_DISABLE_UPVOTED"),
        _ => panic!("wrong error"),
    }
    assert_eq!(
        e.message(),
        "invalid boolean value for KS_HN_DISABLE_UPVOTED: provided string was not `true` or `false`"
    );
}

#[test]
fn unreadable_variable_is_an_error() {
    let r = optional_bool_from_env("KS_X", EnvVar::Unreadable("not unicode".to_string()));
    let e = r.unwrap_err();
    assert_eq!(e.message(), "failed to read KS_X: not unicode");
}

fn hn(auth: Option<&str>, schedule: &str, favorited: Option<&str>) -> HNSettings {
    HNSettings {
        auth: auth.map(|s| s.to_string()),
        schedule: schedule.to_string(),
        favorited_schedule: favorited.map(|s| s.to_string()),
        disable_upvoted: None,
        disable_favorites: None,
    }
}

#[test]
fn favorites_list_name() {
    assert_eq!(HNFavorited {}.list_name(), "HN Favorited");
}

#[test]
fn favorites_need_non_empty_auth() {
    let p = HNFavorited {};
    assert!(p.is_activated(&hn(Some("u&t"), "@daily", None)));
    assert!(!p.is_activated(&hn(Some(""), "@daily", None)));
    assert!(!p.is_activated(&hn(None, "@daily", None)));
}

#[test]
fn favorites_schedule_falls_back() {
    let p = HNFavorited {};
    assert_eq!(p.recurring_schedule(&hn(None, "@daily", Some("@hourly"))), "@hourly");
    assert_eq!(p.recurring_schedule(&hn(None, "@daily", Some(""))), "@daily");
    assert_eq!(p.recurring_schedule(&hn(None, "@daily", None)), "@daily");
}

#[test]
fn favorites_credentials() {
    let p = HNFavorited {};
    let (auth, user) = p.credentials(&hn(Some("test_user&abc"), "@daily", None)).unwrap();
    assert_eq!(auth, "test_user&abc");
    assert_eq!(user, "test_user");
    let e = p.credentials(&hn(None, "@daily", None)).unwrap_err();
    assert_eq!(e, FavoritesError::MissingAuth);
    assert_eq!(e.message(), "HN auth token is not set");
    assert_eq!(FavoritesError::NoUsername.message(), "Failed to extract username from auth token");
}

#[test]
fn favorites_become_bookmarks() {
    let p = HNFavorited {};
    let page = vec![
        HNPost { title: "A".to_string(), url: "https://a.example/".to_string() },
        HNPost { title: "B".to_string(), url: "https://b.example/".to_string() },
    ];
    let bookmarks: Vec<BookmarkCreate> = p.bookmarks_from_page(page);
    assert_eq!(bookmarks.len(), 2);
    assert_eq!(bookmarks[0].title, "A");
    assert_eq!(bookmarks[0].url, "https://a.example/");
    assert_eq!(bookmarks[0].created_at, None);
    assert_eq!(bookmarks[1].title, "B");
}
