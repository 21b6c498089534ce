use vstd::prelude::*;

verus! {

/// A Vortex player's public profile, as the users API describes it.
pub struct User {
    pub bio: String,
    pub username: String,
    pub online_status: String,
    pub friend_count: u8,
    pub follower_count: u8,
    pub following_count: u8,
    pub visits: u8,
    pub created_at: String,
}

/// Where the profile of the user `id` is asked for.
pub fn user_endpoint(id: &str) -> (res: String)
    ensures
        res@ == "https://vortex.towerstats.com/api/users/"@ + id@,
{
    let mut res = String::from_str("https://vortex.towerstats.com/api/users/");
    res.append(id);
    res
}

/// The bot's answer to a fetch of user `id`. This text is this library's own choice:
/// the user's name, or a line saying that no user was found.
pub fn fetch_reply(id: &str, username: Option<&str>) -> (res: String)
    ensures
        res@ == match username {
            Some(name) => name@,
            None => "No user found with id "@ + id@,
        },
{
    match username {
        Some(name) => String::from_str(name),
        None => {
            let mut res = String::from_str("No user found with id ");
            res.append(id);
            res
        },
    }
}

} // verus!
