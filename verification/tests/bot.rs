use vortex_ais::bot::{fetch_client_name, fetch_notice, fetch_request, ready_notice, white_space, LOG_CHANNEL};
use vortex_ais::users::{fetch_reply, user_endpoint, User};

#[test]
fn client_name_is_dot() {
    assert_eq!(fetch_client_name(), ".");
    assert_eq!(ready_notice(&fetch_client_name()), "Client . Active");
}

#[test]
fn fetch_command_takes_second_word() {
    assert_eq!(fetch_request(false, "fetch 42"), Some("42".to_string()));
    assert_eq!(fetch_request(false, "  fetch\t 42 extra"), Some("42".to_string()));
    assert_eq!(fetch_request(false, "fetch\u{3000}abc"), Some("abc".to_string()));
}

#[test]
fn fetch_command_needs_argument_and_keyword() {
    assert_eq!(fetch_request(false, "fetch"), None);
    assert_eq!(fetch_request(false, "fetch   "), None);
    assert_eq!(fetch_request(false, "Fetch 42"), None);
    assert_eq!(fetch_request(false, "fetched 42"), None);
    assert_eq!(fetch_request(false, ""), None);
}

#[test]
fn bots_are_ignored() {
    assert_eq!(fetch_request(true, "fetch 42"), None);
}

#[test]
fn white_space_matches_std() {
    for c in ['\t', '\n', '\u{b}', '\u{c}', '\r', ' ', '\u{85}', '\u{a0}', '\u{1680}', '\u{2000}', '\u{200a}', '\u{2028}', '\u{2029}', '\u{202f}', '\u{205f}', '\u{3000}', 'a', '\u{200b}', '\u{feff}', '_'] {
        assert_eq!(white_space(c), c.is_whitespace(), "{:?}", c);
    }
}

#[test]
fn notices() {
    assert_eq!(fetch_notice("7"), "Attempting to fetch user by id 7");
    assert_eq!(LOG_CHANNEL, 1501636741772349601);
}

#[test]
fn user_endpoint_and_reply() {
    assert_eq!(user_endpoint("12"), "https://vortex.towerstats.com/api/users/12");
    assert_eq!(fetch_reply("12", Some("ann")), "ann");
    assert_eq!(fetch_reply("12", None), "No user found with id 12");
    let u = User {
        bio: String::new(),
        username: "ann".to_string(),
        online_status: "online".to_string(),
        friend_count: 1,
        follower_count: 2,
        following_count: 3,
        visits: 4,
        created_at: "2024".to_string(),
    };
    assert_eq!(u.visits, 4);
}
