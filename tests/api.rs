use vanity_guild::api::{
    invite_request, select_text_channel, transfer_ownership, ApiRequest, Body, BodyValue, Channel, Method,
};
use vanity_guild::cli::{parse_command, Command};

fn ch(id: &str, kind: i32) -> Channel {
    Channel { id: id.to_string(), kind }
}

fn args(v: &[&str]) -> Vec<String> {
    v.iter().map(|s| s.to_string()).collect()
}

#[test]
fn ownership_transfer_is_one_patch_on_the_guild() {
    let r = transfer_ownership("42", "99");
    assert!(matches!(r, ApiRequest::TransferOwnership { ref guild_id, ref user_id } if guild_id == "42" && user_id == "99"));
    assert_eq!(r.method(), Method::Patch);
    assert_eq!(r.path(), vec!["guilds".to_string(), "42".to_string()]);
    assert_eq!(r.success_status(), 200);
    assert!(r.succeeded(200));
    assert!(!r.succeeded(204));
    assert!(!r.succeeded(403));
}

#[test]
fn request_table() {
    let g = || "5".to_string();
    let create = ApiRequest::CreateGuild { name: "exp".to_string() };
    assert_eq!(create.method(), Method::Post);
    assert_eq!(create.path(), vec!["guilds"]);
    assert_eq!(create.success_status(), 201);
    let delete = ApiRequest::DeleteGuild { guild_id: g() };
    assert_eq!(delete.method(), Method::Delete);
    assert_eq!(delete.path(), vec!["guilds", "5"]);
    assert_eq!(delete.success_status(), 204);
    let list = ApiRequest::ListChannels { guild_id: g() };
    assert_eq!(list.method(), Method::Get);
    assert_eq!(list.path(), vec!["guilds", "5", "channels"]);
    assert_eq!(list.success_status(), 200);
    let invite = ApiRequest::CreateInvite { channel_id: "8".to_string() };
    assert_eq!(invite.method(), Method::Post);
    assert_eq!(invite.path(), vec!["channels", "8", "invites"]);
    assert_eq!(invite.success_status(), 200);
}

#[test]
fn first_text_channel_is_selected() {
    let chans = vec![ch("1", 4), ch("2", 2), ch("3", 0), ch("4", 0)];
    assert_eq!(select_text_channel(&chans), Some(2));
    let r = invite_request(&chans);
    assert!(matches!(r, Some(ApiRequest::CreateInvite { ref channel_id }) if channel_id == "3"));
}

#[test]
fn no_text_channel_means_no_invite() {
    let chans = vec![ch("1", 4), ch("2", 2)];
    assert_eq!(select_text_channel(&chans), None);
    assert!(invite_request(&chans).is_none());
    assert!(invite_request(&Vec::new()).is_none());
}

#[test]
fn zero_arguments_is_usage() {
    assert!(parse_command(&args(&["vanity"])).is_none());
    assert!(parse_command(&Vec::new()).is_none());
}

#[test]
fn wrong_invocations_are_usage() {
    assert!(parse_command(&args(&["vanity", "tok"])).is_none());
    assert!(parse_command(&args(&["vanity", "tok", "create"])).is_none());
    assert!(parse_command(&args(&["vanity", "tok", "ownership", "1"])).is_none());
    assert!(parse_command(&args(&["vanity", "tok", "list", "1"])).is_none());
    assert!(parse_command(&args(&["vanity", "tok", "create", "a", "b"])).is_none());
}

#[test]
fn create_and_ownership_commands_parse() {
    let c = parse_command(&args(&["vanity", "tok", "create", "exp"]));
    assert!(matches!(c, Some(Command::Create { ref token, ref label }) if token == "tok" && label == "exp"));
    let c = parse_command(&args(&["vanity", "tok", "ownership", "42", "99"]));
    assert!(matches!(c, Some(Command::Ownership { ref token, ref guild_id, ref user_id })
        if token == "tok" && guild_id == "42" && user_id == "99"));
}

#[test]
fn request_bodies() {
    let b = transfer_ownership("42", "99").body();
    assert!(matches!(b, Some(Body { ref field, value: BodyValue::Text(ref v) }) if field == "owner_id" && v == "99"));
    let b = ApiRequest::CreateGuild { name: "exp".to_string() }.body();
    assert!(matches!(b, Some(Body { ref field, value: BodyValue::Text(ref v) }) if field == "name" && v == "exp"));
    let b = ApiRequest::CreateInvite { channel_id: "8".to_string() }.body();
    assert!(matches!(b, Some(Body { ref field, value: BodyValue::Flag(true) }) if field == "unique"));
    assert!(ApiRequest::DeleteGuild { guild_id: "5".to_string() }.body().is_none());
    assert!(ApiRequest::ListChannels { guild_id: "5".to_string() }.body().is_none());
}
