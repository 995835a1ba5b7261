//! The catalog of wire operations: resolving an inbound `op` name to a
//! known operation, and the per-operation dispatch descriptor (rate-limit
//! class, topic join, broadcast policy).

use vstd::prelude::*;
use crate::rate_limit::RateLimitClass;

verus! {

/// Every operation a client may name in an envelope's `op` field.
#[derive(Clone, Copy, PartialEq, Eq, Structural, Debug)]
pub enum UserOperation {
    Login,
    Register,
    GetUserDetails,
    SaveUserSettings,
    AddAdmin,
    BanUser,
    GetReplies,
    GetUserMentions,
    EditUserMention,
    MarkAllAsRead,
    GetCommunity,
    ListCommunities,
    CreateCommunity,
    EditCommunity,
    FollowCommunity,
    GetFollowedCommunities,
    BanFromCommunity,
    AddModToCommunity,
    ListCategories,
    CreatePost,
    GetPost,
    GetPosts,
    CreatePostLike,
    EditPost,
    SavePost,
    CreateComment,
    EditComment,
    SaveComment,
    CreateCommentLike,
    GetModlog,
    CreateSite,
    EditSite,
    GetSite,
    Search,
    TransferCommunity,
    TransferSite,
    DeleteAccount,
    PasswordReset,
    PasswordChange,
}

/// How an operation's response fans out to other subscribers.
#[derive(Clone, Copy, PartialEq, Eq, Structural, Debug)]
pub enum BroadcastPolicy {
    /// The response goes only to the requester.
    NoBroadcast,
    /// Broadcast to the topic named by a field of the request payload.
    RoomByRequest,
    /// Broadcast to the topic named by the response's `post.id` field.
    RoomByResponsePost,
    /// Broadcast to every topic under the community named by the request.
    CommunityByRequest,
    /// Broadcast to every topic under the response's `community.id` field.
    CommunityByResponse,
}

/// The operation named `s`, if any.
pub open spec fn op_of(s: Seq<char>) -> Option<UserOperation> {
    if s == "Login"@ { Option::Some(UserOperation::Login) }
    else if s == "Register"@ { Option::Some(UserOperation::Register) }
    else if s == "GetUserDetails"@ { Option::Some(UserOperation::GetUserDetails) }
    else if s == "SaveUserSettings"@ { Option::Some(UserOperation::SaveUserSettings) }
    else if s == "AddAdmin"@ { Option::Some(UserOperation::AddAdmin) }
    else if s == "BanUser"@ { Option::Some(UserOperation::BanUser) }
    else if s == "GetReplies"@ { Option::Some(UserOperation::GetReplies) }
    else if s == "GetUserMentions"@ { Option::Some(UserOperation::GetUserMentions) }
    else if s == "EditUserMention"@ { Option::Some(UserOperation::EditUserMention) }
    else if s == "MarkAllAsRead"@ { Option::Some(UserOperation::MarkAllAsRead) }
    else if s == "GetCommunity"@ { Option::Some(UserOperation::GetCommunity) }
    else if s == "ListCommunities"@ { Option::Some(UserOperation::ListCommunities) }
    else if s == "CreateCommunity"@ { Option::Some(UserOperation::CreateCommunity) }
    else if s == "EditCommunity"@ { Option::Some(UserOperation::EditCommunity) }
    else if s == "FollowCommunity"@ { Option::Some(UserOperation::FollowCommunity) }
    else if s == "GetFollowedCommunities"@ { Option::Some(UserOperation::GetFollowedCommunities) }
    else if s == "BanFromCommunity"@ { Option::Some(UserOperation::BanFromCommunity) }
    else if s == "AddModToCommunity"@ { Option::Some(UserOperation::AddModToCommunity) }
    else if s == "ListCategories"@ { Option::Some(UserOperation::ListCategories) }
    else if s == "CreatePost"@ { Option::Some(UserOperation::CreatePost) }
    else if s == "GetPost"@ { Option::Some(UserOperation::GetPost) }
    else if s == "GetPosts"@ { Option::Some(UserOperation::GetPosts) }
    else if s == "CreatePostLike"@ { Option::Some(UserOperation::CreatePostLike) }
    else if s == "EditPost"@ { Option::Some(UserOperation::EditPost) }
    else if s == "SavePost"@ { Option::Some(UserOperation::SavePost) }
    else if s == "CreateComment"@ { Option::Some(UserOperation::CreateComment) }
    else if s == "EditComment"@ { Option::Some(UserOperation::EditComment) }
    else if s == "SaveComment"@ { Option::Some(UserOperation::SaveComment) }
    else if s == "CreateCommentLike"@ { Option::Some(UserOperation::CreateCommentLike) }
    else if s == "GetModlog"@ { Option::Some(UserOperation::GetModlog) }
    else if s == "CreateSite"@ { Option::Some(UserOperation::CreateSite) }
    else if s == "EditSite"@ { Option::Some(UserOperation::EditSite) }
    else if s == "GetSite"@ { Option::Some(UserOperation::GetSite) }
    else if s == "Search"@ { Option::Some(UserOperation::Search) }
    else if s == "TransferCommunity"@ { Option::Some(UserOperation::TransferCommunity) }
    else if s == "TransferSite"@ { Option::Some(UserOperation::TransferSite) }
    else if s == "DeleteAccount"@ { Option::Some(UserOperation::DeleteAccount) }
    else if s == "PasswordReset"@ { Option::Some(UserOperation::PasswordReset) }
    else if s == "PasswordChange"@ { Option::Some(UserOperation::PasswordChange) }
    else { Option::None }
}

/// Resolve an envelope's `op` field to an operation.
pub fn op_from_name(name: &str) -> (r: Option<UserOperation>)
    ensures
        r == op_of(name@),
{
    let n = name.to_owned();
    if n == "Login".to_owned() { Option::Some(UserOperation::Login) }
    else if n == "Register".to_owned() { Option::Some(UserOperation::Register) }
    else if n == "GetUserDetails".to_owned() { Option::Some(UserOperation::GetUserDetails) }
    else if n == "SaveUserSettings".to_owned() { Option::Some(UserOperation::SaveUserSettings) }
    else if n == "AddAdmin".to_owned() { Option::Some(UserOperation::AddAdmin) }
    else if n == "BanUser".to_owned() { Option::Some(UserOperation::BanUser) }
    else if n == "GetReplies".to_owned() { Option::Some(UserOperation::GetReplies) }
    else if n == "GetUserMentions".to_owned() { Option::Some(UserOperation::GetUserMentions) }
    else if n == "EditUserMention".to_owned() { Option::Some(UserOperation::EditUserMention) }
    else if n == "MarkAllAsRead".to_owned() { Option::Some(UserOperation::MarkAllAsRead) }
    else if n == "GetCommunity".to_owned() { Option::Some(UserOperation::GetCommunity) }
    else if n == "ListCommunities".to_owned() { Option::Some(UserOperation::ListCommunities) }
    else if n == "CreateCommunity".to_owned() { Option::Some(UserOperation::CreateCommunity) }
    else if n == "EditCommunity".to_owned() { Option::Some(UserOperation::EditCommunity) }
    else if n == "FollowCommunity".to_owned() { Option::Some(UserOperation::FollowCommunity) }
    else if n == "GetFollowedCommunities".to_owned() { Option::Some(UserOperation::GetFollowedCommunities) }
    else if n == "BanFromCommunity".to_owned() { Option::Some(UserOperation::BanFromCommunity) }
    else if n == "AddModToCommunity".to_owned() { Option::Some(UserOperation::AddModToCommunity) }
    else if n == "ListCategories".to_owned() { Option::Some(UserOperation::ListCategories) }
    else if n == "CreatePost".to_owned() { Option::Some(UserOperation::CreatePost) }
    else if n == "GetPost".to_owned() { Option::Some(UserOperation::GetPost) }
    else if n == "GetPosts".to_owned() { Option::Some(UserOperation::GetPosts) }
    else if n == "CreatePostLike".to_owned() { Option::Some(UserOperation::CreatePostLike) }
    else if n == "EditPost".to_owned() { Option::Some(UserOperation::EditPost) }
    else if n == "SavePost".to_owned() { Option::Some(UserOperation::SavePost) }
    else if n == "CreateComment".to_owned() { Option::Some(UserOperation::CreateComment) }
    else if n == "EditComment".to_owned() { Option::Some(UserOperation::EditComment) }
    else if n == "SaveComment".to_owned() { Option::Some(UserOperation::SaveComment) }
    else if n == "CreateCommentLike".to_owned() { Option::Some(UserOperation::CreateCommentLike) }
    else if n == "GetModlog".to_owned() { Option::Some(UserOperation::GetModlog) }
    else if n == "CreateSite".to_owned() { Option::Some(UserOperation::CreateSite) }
    else if n == "EditSite".to_owned() { Option::Some(UserOperation::EditSite) }
    else if n == "GetSite".to_owned() { Option::Some(UserOperation::GetSite) }
    else if n == "Search".to_owned() { Option::Some(UserOperation::Search) }
    else if n == "TransferCommunity".to_owned() { Option::Some(UserOperation::TransferCommunity) }
    else if n == "TransferSite".to_owned() { Option::Some(UserOperation::TransferSite) }
    else if n == "DeleteAccount".to_owned() { Option::Some(UserOperation::DeleteAccount) }
    else if n == "PasswordReset".to_owned() { Option::Some(UserOperation::PasswordReset) }
    else if n == "PasswordChange".to_owned() { Option::Some(UserOperation::PasswordChange) }
    else { Option::None }
}

/// The name under which an operation is known on the wire; the outbound
/// envelope's `op` field carries exactly this name.
pub open spec fn op_name_of(op: UserOperation) -> Seq<char> {
    match op {
        UserOperation::Login => "Login"@,
        UserOperation::Register => "Register"@,
        UserOperation::GetUserDetails => "GetUserDetails"@,
        UserOperation::SaveUserSettings => "SaveUserSettings"@,
        UserOperation::AddAdmin => "AddAdmin"@,
        UserOperation::BanUser => "BanUser"@,
        UserOperation::GetReplies => "GetReplies"@,
        UserOperation::GetUserMentions => "GetUserMentions"@,
        UserOperation::EditUserMention => "EditUserMention"@,
        UserOperation::MarkAllAsRead => "MarkAllAsRead"@,
        UserOperation::GetCommunity => "GetCommunity"@,
        UserOperation::ListCommunities => "ListCommunities"@,
        UserOperation::CreateCommunity => "CreateCommunity"@,
        UserOperation::EditCommunity => "EditCommunity"@,
        UserOperation::FollowCommunity => "FollowCommunity"@,
        UserOperation::GetFollowedCommunities => "GetFollowedCommunities"@,
        UserOperation::BanFromCommunity => "BanFromCommunity"@,
        UserOperation::AddModToCommunity => "AddModToCommunity"@,
        UserOperation::ListCategories => "ListCategories"@,
        UserOperation::CreatePost => "CreatePost"@,
        UserOperation::GetPost => "GetPost"@,
        UserOperation::GetPosts => "GetPosts"@,
        UserOperation::CreatePostLike => "CreatePostLike"@,
        UserOperation::EditPost => "EditPost"@,
        UserOperation::SavePost => "SavePost"@,
        UserOperation::CreateComment => "CreateComment"@,
        UserOperation::EditComment => "EditComment"@,
        UserOperation::SaveComment => "SaveComment"@,
        UserOperation::CreateCommentLike => "CreateCommentLike"@,
        UserOperation::GetModlog => "GetModlog"@,
        UserOperation::CreateSite => "CreateSite"@,
        UserOperation::EditSite => "EditSite"@,
        UserOperation::GetSite => "GetSite"@,
        UserOperation::Search => "Search"@,
        UserOperation::TransferCommunity => "TransferCommunity"@,
        UserOperation::TransferSite => "TransferSite"@,
        UserOperation::DeleteAccount => "DeleteAccount"@,
        UserOperation::PasswordReset => "PasswordReset"@,
        UserOperation::PasswordChange => "PasswordChange"@,
    }
}

/// The wire name of an operation.
pub fn op_name(op: UserOperation) -> (r: &'static str)
    ensures
        r@ == op_name_of(op),
{
    match op {
        UserOperation::Login => "Login",
        UserOperation::Register => "Register",
        UserOperation::GetUserDetails => "GetUserDetails",
        UserOperation::SaveUserSettings => "SaveUserSettings",
        UserOperation::AddAdmin => "AddAdmin",
        UserOperation::BanUser => "BanUser",
        UserOperation::GetReplies => "GetReplies",
        UserOperation::GetUserMentions => "GetUserMentions",
        UserOperation::EditUserMention => "EditUserMention",
        UserOperation::MarkAllAsRead => "MarkAllAsRead",
        UserOperation::GetCommunity => "GetCommunity",
        UserOperation::ListCommunities => "ListCommunities",
        UserOperation::CreateCommunity => "CreateCommunity",
        UserOperation::EditCommunity => "EditCommunity",
        UserOperation::FollowCommunity => "FollowCommunity",
        UserOperation::GetFollowedCommunities => "GetFollowedCommunities",
        UserOperation::BanFromCommunity => "BanFromCommunity",
        UserOperation::AddModToCommunity => "AddModToCommunity",
        UserOperation::ListCategories => "ListCategories",
        UserOperation::CreatePost => "CreatePost",
        UserOperation::GetPost => "GetPost",
        UserOperation::GetPosts => "GetPosts",
        UserOperation::CreatePostLike => "CreatePostLike",
        UserOperation::EditPost => "EditPost",
        UserOperation::SavePost => "SavePost",
        UserOperation::CreateComment => "CreateComment",
        UserOperation::EditComment => "EditComment",
        UserOperation::SaveComment => "SaveComment",
        UserOperation::CreateCommentLike => "CreateCommentLike",
        UserOperation::GetModlog => "GetModlog",
        UserOperation::CreateSite => "CreateSite",
        UserOperation::EditSite => "EditSite",
        UserOperation::GetSite => "GetSite",
        UserOperation::Search => "Search",
        UserOperation::TransferCommunity => "TransferCommunity",
        UserOperation::TransferSite => "TransferSite",
        UserOperation::DeleteAccount => "DeleteAccount",
        UserOperation::PasswordReset => "PasswordReset",
        UserOperation::PasswordChange => "PasswordChange",
    }
}

/// The rate-limit class an operation is checked against, if any.
pub open spec fn spec_rate_class(op: UserOperation) -> Option<RateLimitClass> {
    match op {
        UserOperation::Register => Option::Some(RateLimitClass::Register),
        UserOperation::CreateCommunity => Option::Some(RateLimitClass::Register),
        UserOperation::CreatePost => Option::Some(RateLimitClass::Post),
        UserOperation::CreatePostLike => Option::Some(RateLimitClass::Message),
        UserOperation::CreateComment => Option::Some(RateLimitClass::Message),
        UserOperation::EditComment => Option::Some(RateLimitClass::Message),
        UserOperation::CreateCommentLike => Option::Some(RateLimitClass::Message),
        _ => Option::None,
    }
}

pub fn rate_class(op: UserOperation) -> (r: Option<RateLimitClass>)
    ensures
        r == spec_rate_class(op),
{
    match op {
        UserOperation::Register => Option::Some(RateLimitClass::Register),
        UserOperation::CreateCommunity => Option::Some(RateLimitClass::Register),
        UserOperation::CreatePost => Option::Some(RateLimitClass::Post),
        UserOperation::CreatePostLike => Option::Some(RateLimitClass::Message),
        UserOperation::CreateComment => Option::Some(RateLimitClass::Message),
        UserOperation::EditComment => Option::Some(RateLimitClass::Message),
        UserOperation::CreateCommentLike => Option::Some(RateLimitClass::Message),
        _ => Option::None,
    }
}

/// Whether dispatching the operation joins the requesting session to the
/// topic named by the request payload.
pub open spec fn spec_joins_room(op: UserOperation) -> bool {
    op == UserOperation::GetPost
}

pub fn joins_room(op: UserOperation) -> (r: bool)
    ensures
        r == spec_joins_room(op),
{
    match op {
        UserOperation::GetPost => true,
        _ => false,
    }
}

/// The broadcast policy of an operation.
pub open spec fn spec_broadcast_policy(op: UserOperation) -> BroadcastPolicy {
    match op {
        UserOperation::CreateComment => BroadcastPolicy::RoomByRequest,
        UserOperation::EditComment => BroadcastPolicy::RoomByRequest,
        UserOperation::CreateCommentLike => BroadcastPolicy::RoomByRequest,
        UserOperation::EditPost => BroadcastPolicy::RoomByResponsePost,
        UserOperation::BanFromCommunity => BroadcastPolicy::CommunityByRequest,
        UserOperation::AddModToCommunity => BroadcastPolicy::CommunityByRequest,
        UserOperation::EditCommunity => BroadcastPolicy::CommunityByResponse,
        _ => BroadcastPolicy::NoBroadcast,
    }
}

pub fn broadcast_policy(op: UserOperation) -> (r: BroadcastPolicy)
    ensures
        r == spec_broadcast_policy(op),
{
    match op {
        UserOperation::CreateComment => BroadcastPolicy::RoomByRequest,
        UserOperation::EditComment => BroadcastPolicy::RoomByRequest,
        UserOperation::CreateCommentLike => BroadcastPolicy::RoomByRequest,
        UserOperation::EditPost => BroadcastPolicy::RoomByResponsePost,
        UserOperation::BanFromCommunity => BroadcastPolicy::CommunityByRequest,
        UserOperation::AddModToCommunity => BroadcastPolicy::CommunityByRequest,
        UserOperation::EditCommunity => BroadcastPolicy::CommunityByResponse,
        _ => BroadcastPolicy::NoBroadcast,
    }
}

/// Whether the dispatcher itself reads an integer key out of the request
/// payload (the topic to join, or the topic / community to broadcast to).
pub open spec fn spec_needs_request_key(op: UserOperation) -> bool {
    ||| spec_joins_room(op)
    ||| spec_broadcast_policy(op) == BroadcastPolicy::RoomByRequest
    ||| spec_broadcast_policy(op) == BroadcastPolicy::CommunityByRequest
}

/// The name of the request-payload field the dispatcher reads the key
/// from, for the operations that need one: the post id under `id` for a
/// post fetch, `post_id` for the comment operations, `community_id` for
/// the community-moderation operations.
pub open spec fn spec_request_key_field(op: UserOperation) -> Seq<char> {
    match op {
        UserOperation::GetPost => "id"@,
        UserOperation::CreateComment => "post_id"@,
        UserOperation::EditComment => "post_id"@,
        UserOperation::CreateCommentLike => "post_id"@,
        UserOperation::BanFromCommunity => "community_id"@,
        UserOperation::AddModToCommunity => "community_id"@,
        _ => Seq::empty(),
    }
}

/// The request-payload field the dispatcher reads the key from, if any.
pub fn request_key_field(op: UserOperation) -> (r: Option<&'static str>)
    ensures
        r is Some <==> spec_needs_request_key(op),
        r matches Some(f) ==> f@ == spec_request_key_field(op),
{
    match op {
        UserOperation::GetPost => Option::Some("id"),
        UserOperation::CreateComment => Option::Some("post_id"),
        UserOperation::EditComment => Option::Some("post_id"),
        UserOperation::CreateCommentLike => Option::Some("post_id"),
        UserOperation::BanFromCommunity => Option::Some("community_id"),
        UserOperation::AddModToCommunity => Option::Some("community_id"),
        _ => Option::None,
    }
}

} // verus!
