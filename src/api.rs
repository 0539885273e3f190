//! The requests that the search and the ownership transfer send to the chat
//! API: method, path and the status that signals success.
use vstd::prelude::*;

verus! {

/// HTTP status `200 OK`.
pub const STATUS_OK: u16 = 200;

/// HTTP status `201 Created`.
pub const STATUS_CREATED: u16 = 201;

/// HTTP status `204 No Content`.
pub const STATUS_NO_CONTENT: u16 = 204;

/// HTTP status `401 Unauthorized`.
pub const STATUS_UNAUTHORIZED: u16 = 401;

/// HTTP status `429 Too Many Requests`.
pub const STATUS_TOO_MANY_REQUESTS: u16 = 429;

/// Type marker of a text channel.
pub const TEXT_CHANNEL: i32 = 0;

/// HTTP method of a request.
#[derive(PartialEq, Eq, Structural, Clone, Copy, Debug)]
pub enum Method {
    Get,
    Post,
    Patch,
    Delete,
}

/// One call into the chat API.
#[derive(Debug)]
pub enum ApiRequest {
    /// `POST /guilds` with body `{name}`.
    CreateGuild { name: String },
    /// `DELETE /guilds/{guild_id}`.
    DeleteGuild { guild_id: String },
    /// `GET /guilds/{guild_id}/channels`.
    ListChannels { guild_id: String },
    /// `POST /channels/{channel_id}/invites` with body `{unique: true}`.
    CreateInvite { channel_id: String },
    /// `PATCH /guilds/{guild_id}` with body `{owner_id: user_id}`.
    TransferOwnership { guild_id: String, user_id: String },
}

/// A request as the contracts see it: each string by its characters.
pub enum RequestView {
    CreateGuild { name: Seq<char> },
    DeleteGuild { guild_id: Seq<char> },
    ListChannels { guild_id: Seq<char> },
    CreateInvite { channel_id: Seq<char> },
    TransferOwnership { guild_id: Seq<char>, user_id: Seq<char> },
}

impl View for ApiRequest {
    type V = RequestView;

    open spec fn view(&self) -> RequestView {
        match self {
            ApiRequest::CreateGuild { name } => RequestView::CreateGuild { name: name@ },
            ApiRequest::DeleteGuild { guild_id } => RequestView::DeleteGuild { guild_id: guild_id@ },
            ApiRequest::ListChannels { guild_id } => RequestView::ListChannels {
                guild_id: guild_id@,
            },
            ApiRequest::CreateInvite { channel_id } => RequestView::CreateInvite {
                channel_id: channel_id@,
            },
            ApiRequest::TransferOwnership { guild_id, user_id } => RequestView::TransferOwnership {
                guild_id: guild_id@,
                user_id: user_id@,
            },
        }
    }
}

/// The method of each request.
pub open spec fn method_of(r: RequestView) -> Method {
    match r {
        RequestView::CreateGuild { .. } => Method::Post,
        RequestView::DeleteGuild { .. } => Method::Delete,
        RequestView::ListChannels { .. } => Method::Get,
        RequestView::CreateInvite { .. } => Method::Post,
        RequestView::TransferOwnership { .. } => Method::Patch,
    }
}

/// The one status that signals that a request succeeded.
pub open spec fn success_status_of(r: RequestView) -> u16 {
    match r {
        RequestView::CreateGuild { .. } => STATUS_CREATED,
        RequestView::DeleteGuild { .. } => STATUS_NO_CONTENT,
        RequestView::ListChannels { .. } => STATUS_OK,
        RequestView::CreateInvite { .. } => STATUS_OK,
        RequestView::TransferOwnership { .. } => STATUS_OK,
    }
}

/// The path of each request below the API's base URL, segment by segment.
pub open spec fn path_of(r: RequestView) -> Seq<Seq<char>> {
    match r {
        RequestView::CreateGuild { .. } => seq!["guilds"@],
        RequestView::DeleteGuild { guild_id } => seq!["guilds"@, guild_id],
        RequestView::ListChannels { guild_id } => seq!["guilds"@, guild_id, "channels"@],
        RequestView::CreateInvite { channel_id } => seq!["channels"@, channel_id, "invites"@],
        RequestView::TransferOwnership { guild_id, .. } => seq!["guilds"@, guild_id],
    }
}

/// The value of the one field of a request body.
#[derive(Debug)]
pub enum BodyValue {
    Text(String),
    Flag(bool),
}

/// A body value as the contracts see it.
pub enum BodyValueView {
    Text(Seq<char>),
    Flag(bool),
}

impl View for BodyValue {
    type V = BodyValueView;

    open spec fn view(&self) -> BodyValueView {
        match self {
            BodyValue::Text(t) => BodyValueView::Text(t@),
            BodyValue::Flag(f) => BodyValueView::Flag(*f),
        }
    }
}

/// A JSON request body: an object with one field.
#[derive(Debug)]
pub struct Body {
    pub field: String,
    pub value: BodyValue,
}

/// The body of each request: field name and value, or none.
pub open spec fn body_of(r: RequestView) -> Option<(Seq<char>, BodyValueView)> {
    match r {
        RequestView::CreateGuild { name } => Some(("name"@, BodyValueView::Text(name))),
        RequestView::DeleteGuild { .. } => None,
        RequestView::ListChannels { .. } => None,
        RequestView::CreateInvite { .. } => Some(("unique"@, BodyValueView::Flag(true))),
        RequestView::TransferOwnership { user_id, .. } => Some(
            ("owner_id"@, BodyValueView::Text(user_id)),
        ),
    }
}

/// The characters of each string in a list.
pub open spec fn strings_view(v: Seq<String>) -> Seq<Seq<char>> {
    v.map_values(|s: String| s@)
}

impl ApiRequest {
    /// The HTTP method of this request.
    pub fn method(&self) -> (m: Method)
        ensures
            m == method_of(self@),
    {
        match self {
            ApiRequest::CreateGuild { .. } => Method::Post,
            ApiRequest::DeleteGuild { .. } => Method::Delete,
            ApiRequest::ListChannels { .. } => Method::Get,
            ApiRequest::CreateInvite { .. } => Method::Post,
            ApiRequest::TransferOwnership { .. } => Method::Patch,
        }
    }

    /// The status that the API answers with when this request succeeds.
    pub fn success_status(&self) -> (s: u16)
        ensures
            s == success_status_of(self@),
    {
        match self {
            ApiRequest::CreateGuild { .. } => STATUS_CREATED,
            ApiRequest::DeleteGuild { .. } => STATUS_NO_CONTENT,
            ApiRequest::ListChannels { .. } => STATUS_OK,
            ApiRequest::CreateInvite { .. } => STATUS_OK,
            ApiRequest::TransferOwnership { .. } => STATUS_OK,
        }
    }

    /// Whether an answer with this status means that the request succeeded.
    pub fn succeeded(&self, status: u16) -> (r: bool)
        ensures
            r == (status == success_status_of(self@)),
    {
        status == self.success_status()
    }

    /// The JSON body of this request, if it has one.
    pub fn body(&self) -> (b: Option<Body>)
        ensures
            match b {
                Some(b) => body_of(self@) == Some((b.field@, b.value@)),
                None => body_of(self@) is None,
            },
    {
        match self {
            ApiRequest::CreateGuild { name } => Some(
                Body { field: "name".to_owned(), value: BodyValue::Text(name.clone()) },
            ),
            ApiRequest::DeleteGuild { .. } => None,
            ApiRequest::ListChannels { .. } => None,
            ApiRequest::CreateInvite { .. } => Some(
                Body { field: "unique".to_owned(), value: BodyValue::Flag(true) },
            ),
            ApiRequest::TransferOwnership { user_id, .. } => Some(
                Body { field: "owner_id".to_owned(), value: BodyValue::Text(user_id.clone()) },
            ),
        }
    }

    /// The path segments of this request, to be joined by `/` under the base URL.
    pub fn path(&self) -> (p: Vec<String>)
        ensures
            strings_view(p@) == path_of(self@),
    {
        let mut p: Vec<String> = Vec::new();
        match self {
            ApiRequest::CreateGuild { .. } => {
                p.push("guilds".to_owned());
            },
            ApiRequest::DeleteGuild { guild_id } => {
                p.push("guilds".to_owned());
                p.push(guild_id.clone());
            },
            ApiRequest::ListChannels { guild_id } => {
                p.push("guilds".to_owned());
                p.push(guild_id.clone());
                p.push("channels".to_owned());
            },
            ApiRequest::CreateInvite { channel_id } => {
                p.push("channels".to_owned());
                p.push(channel_id.clone());
                p.push("invites".to_owned());
            },
            ApiRequest::TransferOwnership { guild_id, .. } => {
                p.push("guilds".to_owned());
                p.push(guild_id.clone());
            },
        }
        assert(strings_view(p@) =~= path_of(self@));
        p
    }
}

/// The request that hands a guild over to another account.
pub fn transfer_ownership(guild_id: &str, user_id: &str) -> (r: ApiRequest)
    ensures
        r@ == (RequestView::TransferOwnership { guild_id: guild_id@, user_id: user_id@ }),
{
    ApiRequest::TransferOwnership { guild_id: guild_id.to_owned(), user_id: user_id.to_owned() }
}

/// A sub-channel of a guild, as the channel list reports it.
#[derive(Debug)]
pub struct Channel {
    pub id: String,
    pub kind: i32,
}

/// Whether a channel is a text channel.
pub open spec fn is_text(c: Channel) -> bool {
    c.kind == TEXT_CHANNEL
}

/// The position of the first text channel in a list, if there is one.
pub fn select_text_channel(channels: &Vec<Channel>) -> (r: Option<usize>)
    ensures
        match r {
            Some(i) => i < channels@.len() && is_text(channels@[i as int]) && forall|j: int|
                0 <= j < i ==> !is_text(#[trigger] channels@[j]),
            None => forall|j: int| 0 <= j < channels@.len() ==> !is_text(#[trigger] channels@[j]),
        },
{
    let mut i: usize = 0;
    while i < channels.len()
        invariant
            i <= channels@.len(),
            forall|j: int| 0 <= j < i ==> !is_text(#[trigger] channels@[j]),
        decreases channels@.len() - i,
    {
        if channels[i].kind == TEXT_CHANNEL {
            return Some(i);
        }
        i = i + 1;
    }
    None
}

/// The invite request for a guild's channel list: a unique invite on the
/// first text channel, or nothing when the guild has no text channel.
pub fn invite_request(channels: &Vec<Channel>) -> (r: Option<ApiRequest>)
    ensures
        match r {
            Some(req) => exists|i: int|
                0 <= i < channels@.len() && is_text(channels@[i]) && (forall|j: int|
                    0 <= j < i ==> !is_text(#[trigger] channels@[j])) && req@ == (
                RequestView::CreateInvite { channel_id: channels@[i].id@ }),
            None => forall|j: int| 0 <= j < channels@.len() ==> !is_text(#[trigger] channels@[j]),
        },
{
    match select_text_channel(channels) {
        Some(i) => Some(ApiRequest::CreateInvite { channel_id: channels[i].id.clone() }),
        None => None,
    }
}

} // verus!
