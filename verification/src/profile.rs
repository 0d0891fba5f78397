//! Room and user summaries handed to the command surface.
//!
//! The network reads — room state, profile responses — are the caller's;
//! what is built here, and verified, is the shaping of those plain values:
//! the display-name fallbacks and the thumbnail address for media.

use vstd::prelude::*;
use vstd::string::StringExecFns;

verus! {

/// The thumbnail endpoint media coordinates are appended to.
pub open spec fn media_preview_prefix() -> Seq<char> {
    "https://matrix-client.matrix.org/_matrix/media/r0/thumbnail/"@
}

/// The thumbnail address for a piece of media: the preview endpoint, then
/// the server name, a slash, and the media identifier.
pub fn media_preview_url(server_name: &str, media_id: &str) -> (r: String)
    ensures
        r@ == media_preview_prefix() + server_name@ + "/"@ + media_id@,
{
    let mut s = "https://matrix-client.matrix.org/_matrix/media/r0/thumbnail/".to_owned();
    s.append(server_name);
    s.append("/");
    s.append(media_id);
    proof {
        assert(s@ =~= media_preview_prefix() + server_name@ + "/"@ + media_id@);
    }
    s
}

/// One joined room, as the command surface presents it.
#[derive(Clone, Debug)]
pub struct JoinedRoom {
    pub room_id: String,
    pub name: String,
    pub is_space: bool,
    pub avatar: Option<String>,
    pub avatar_media_url: Option<String>,
    pub topic: Option<String>,
}

impl JoinedRoom {
    /// Shapes the values read off a joined room: a room without a display
    /// name falls back to its identifier, and media coordinates — the
    /// media identifier and its server name — become a thumbnail address.
    pub fn from_parts(
        room_id: String,
        name: Option<String>,
        is_space: bool,
        avatar: Option<String>,
        media: Option<(String, String)>,
        topic: Option<String>,
    ) -> (r: Self)
        ensures
            r.room_id@ == room_id@,
            r.name@ == (match name {
                Some(n) => n@,
                None => room_id@,
            }),
            r.is_space == is_space,
            r.avatar == avatar,
            (match media {
                Some(m) => r.avatar_media_url matches Some(u) && u@ == media_preview_prefix()
                    + m.1@ + "/"@ + m.0@,
                None => r.avatar_media_url is None,
            }),
            r.topic == topic,
    {
        let name = match name {
            Some(n) => n,
            None => room_id.clone(),
        };
        let avatar_media_url = match media {
            Some(m) => Some(media_preview_url(m.1.as_str(), m.0.as_str())),
            None => None,
        };
        JoinedRoom { room_id, name, is_space, avatar, avatar_media_url, topic }
    }
}

/// One user's profile, as the command surface presents it.
#[derive(Clone, Debug)]
pub struct UserProfile {
    pub display_name: String,
    pub avatar_url: Option<String>,
    pub avatar_media_url: Option<String>,
    pub user_id: String,
}

impl UserProfile {
    /// Shapes a profile response: a missing display name falls back to
    /// the empty string, and media coordinates — the media identifier and
    /// its server name — become a thumbnail address.
    pub fn from_parts(
        user_id: String,
        display_name: Option<String>,
        avatar_url: Option<String>,
        media: Option<(String, String)>,
    ) -> (r: Self)
        ensures
            r.user_id@ == user_id@,
            r.display_name@ == (match display_name {
                Some(n) => n@,
                None => Seq::<char>::empty(),
            }),
            r.avatar_url == avatar_url,
            (match media {
                Some(m) => r.avatar_media_url matches Some(u) && u@ == media_preview_prefix()
                    + m.1@ + "/"@ + m.0@,
                None => r.avatar_media_url is None,
            }),
    {
        let display_name = match display_name {
            Some(n) => n,
            None => String::new(),
        };
        let avatar_media_url = match media {
            Some(m) => Some(media_preview_url(m.1.as_str(), m.0.as_str())),
            None => None,
        };
        UserProfile { display_name, avatar_url, avatar_media_url, user_id }
    }
}

} // verus!
