//! The notification sinks: the event they receive, and the two clients'
//! settings.
use vstd::prelude::*;

verus! {

/// The outcome of one challenge, as the sinks receive it.
pub struct UserEvent {
    pub user_id: i64,
    pub user_name: String,
    pub group_id: i64,
    pub group_name: String,
    pub challenge_completed: bool,
    pub banned: bool,
}

/// Settings of the event-log sink: the ingestion endpoint of one stream and
/// its credential.
pub struct OpenObserve {
    url: String,
    token: String,
}

/// The ingestion endpoint of stream `indice` on host `base_url`.
pub open spec fn ingest_url(base_url: Seq<char>, indice: Seq<char>) -> Seq<char> {
    "https://"@ + base_url + "/api/default/"@ + indice + "/_json"@
}

impl OpenObserve {
    /// The client of stream `indice` on host `base_url`.
    pub fn new(base_url: &str, indice: &str, token: &str) -> (r: Self)
        ensures
            r.url()@ == ingest_url(base_url@, indice@),
            r.token()@ == token@,
    {
        let mut url = String::from_str("https://");
        url.append(base_url);
        url.append("/api/default/");
        url.append(indice);
        url.append("/_json");
        OpenObserve { url, token: String::from_str(token) }
    }

    /// The ingestion endpoint.
    pub closed spec fn url(&self) -> String {
        self.url
    }

    /// The credential.
    pub closed spec fn token(&self) -> String {
        self.token
    }

    /// The ingestion endpoint.
    pub fn endpoint(&self) -> (r: &String)
        ensures
            *r == self.url(),
    {
        &self.url
    }

    /// The credential.
    pub fn credential(&self) -> (r: &String)
        ensures
            *r == self.token(),
    {
        &self.token
    }
}

/// Settings of the chat-relay sink: homeserver, access token and room.
pub struct Matrix {
    url: String,
    token: String,
    room: String,
}

impl Matrix {
    /// The relay to `room` on homeserver `url`.
    pub fn new(url: &str, token: &str, room: &str) -> (r: Self)
        ensures
            r.url()@ == url@,
            r.token()@ == token@,
            r.room()@ == room@,
    {
        Matrix { url: String::from_str(url), token: String::from_str(token), room: String::from_str(room) }
    }

    /// The homeserver.
    pub closed spec fn url(&self) -> String {
        self.url
    }

    /// The access token.
    pub closed spec fn token(&self) -> String {
        self.token
    }

    /// The room.
    pub closed spec fn room(&self) -> String {
        self.room
    }

    /// The homeserver.
    pub fn homeserver(&self) -> (r: &String)
        ensures
            *r == self.url(),
    {
        &self.url
    }

    /// The access token.
    pub fn access_token(&self) -> (r: &String)
        ensures
            *r == self.token(),
    {
        &self.token
    }

    /// The room.
    pub fn room_id(&self) -> (r: &String)
        ensures
            *r == self.room(),
    {
        &self.room
    }
}

}
