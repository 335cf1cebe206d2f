use music_uploader_server::authenticated::{Authenticator, BasicCredentials};
use music_uploader_server::plex_db::AlbumResult;
use music_uploader_server::search::{build_album_search_response, find_searched_album_result};
use music_uploader_server::secrets_config::{User, Users};
use music_uploader_server::sync_public_playlists::get_song_delta;

fn authenticator(users: Vec<(&str, &str)>) -> Authenticator {
    let users = Users {
        users: users
            .into_iter()
            .map(|(u, p)| User {
                username: u.to_string(),
                password: p.to_string(),
            })
            .collect(),
    };
    Authenticator::new(users).unwrap()
}

fn credentials(username: &str, password: &str) -> BasicCredentials {
    BasicCredentials {
        username: username.to_string(),
        password: password.to_string(),
    }
}

#[test]
fn test_authenticator_accepts_configured_user() {
    let a = authenticator(vec![("alice", "wonder"), ("bob", "builder")]);
    assert!(a.is_authenticated(&credentials("alice", "wonder")));
    assert!(!a.is_authenticated(&credentials("alice", "builder")));
    assert!(!a.is_authenticated(&credentials("carol", "wonder")));
}

#[test]
fn test_authenticator_ignores_surrounding_whitespace() {
    let a = authenticator(vec![("alice", " wonder\n")]);
    assert!(a.is_authenticated(&credentials("alice", "wonder")));
    assert!(a.is_authenticated(&credentials("alice", "  wonder  ")));
    assert!(!a.is_authenticated(&credentials("alice", "won der")));
}

#[test]
fn test_authenticator_later_duplicate_wins() {
    let a = authenticator(vec![("alice", "old"), ("alice", "new")]);
    assert!(a.is_authenticated(&credentials("alice", "new")));
    assert!(!a.is_authenticated(&credentials("alice", "old")));
}

#[test]
fn test_compare_str_trims_both_sides() {
    assert!(Authenticator::compare_str(
        &"  secret ".to_string(),
        &"secret".to_string()
    ));
    assert!(!Authenticator::compare_str(
        &"secret".to_string(),
        &"secrets".to_string()
    ));
}

#[test]
fn test_find_searched_album_prefers_closest_title() {
    let albums = vec![
        AlbumResult::new("Abbey Road".to_string(), 1),
        AlbumResult::new("The Dark Side of the Moon".to_string(), 2),
    ];
    let found = find_searched_album_result(albums, "abbey roa").unwrap();
    assert_eq!("Abbey Road", found.get_title());
}

#[test]
fn test_find_searched_album_fails_on_empty_library() {
    assert!(find_searched_album_result(Vec::new(), "anything").is_err());
}

#[test]
fn test_build_album_search_response_uses_placeholder_without_metric() {
    let album = AlbumResult::new("Abbey Road".to_string(), 1);
    let r = build_album_search_response(&album, None);
    assert_eq!("Abbey Road", r.album);
    assert_eq!("Unknown", r.uploader);
}

#[test]
fn test_get_song_delta_splits_missing_and_additional() {
    let last = vec!["a".to_string(), "b".to_string(), "c".to_string()];
    let new = vec!["b".to_string(), "c".to_string(), "d".to_string()];
    let delta = get_song_delta(&last, &new);
    assert_eq!(vec!["a".to_string()], delta.missing_songs);
    assert_eq!(vec!["d".to_string()], delta.additional_songs);
}
