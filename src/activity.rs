use vstd::prelude::*;

verus! {

/// Identifies a person (a local or remote user account).
#[derive(Clone, Copy, Debug, PartialEq, Eq, Structural)]
pub struct PersonId(pub i32);

/// Identifies a community.
#[derive(Clone, Copy, Debug, PartialEq, Eq, Structural)]
pub struct CommunityId(pub i32);

/// Identifies a post.
#[derive(Clone, Copy, Debug, PartialEq, Eq, Structural)]
pub struct PostId(pub i32);

/// Identifies a comment.
#[derive(Clone, Copy, Debug, PartialEq, Eq, Structural)]
pub struct CommentId(pub i32);

/// Identifies a private message.
#[derive(Clone, Copy, Debug, PartialEq, Eq, Structural)]
pub struct PrivateMessageId(pub i32);

/// One outbound activity: a business-level state change to be delivered to
/// remote peers. Each variant holds the entities that the corresponding
/// protocol message is built from: actors, objects, targets, flags and reasons.
/// A value is moved, never copied, into either an inline dispatch or a queue slot.
#[derive(Debug, PartialEq, Eq)]
pub enum SendActivityData {
    CreatePost(PostId),
    UpdatePost(PostId),
    /// The post, the acting person, and whether the post is now deleted.
    DeletePost(PostId, PersonId, bool),
    /// The post, the moderator, whether it is now removed, and the reason.
    RemovePost(PostId, PersonId, bool, Option<String>),
    /// The post, the moderator, and whether it is now locked.
    LockPost(PostId, PersonId, bool),
    /// The post, the moderator, and whether it is now featured.
    FeaturePost(PostId, PersonId, bool),
    CreateComment(CommentId),
    UpdateComment(CommentId),
    /// The comment, the acting person, and the community it lives in.
    DeleteComment(CommentId, PersonId, CommunityId),
    /// The comment, the moderator, the community, and the reason.
    RemoveComment(CommentId, PersonId, CommunityId, Option<String>),
    /// The URL of the voted object, the voter, the community, and the score.
    LikePostOrComment(String, PersonId, CommunityId, i16),
    /// The community, the follower, and whether this is a follow (not an unfollow).
    FollowCommunity(CommunityId, PersonId, bool),
    /// The acting person and the updated community.
    UpdateCommunity(PersonId, CommunityId),
    /// The acting person, the community, and whether it is now deleted.
    DeleteCommunity(PersonId, CommunityId, bool),
    /// The moderator, the community, the reason, and whether it is now removed.
    RemoveCommunity(PersonId, CommunityId, Option<String>, bool),
    /// The acting moderator, the community, the person affected, and whether
    /// that person is added (not removed) as a moderator.
    AddModToCommunity(PersonId, CommunityId, PersonId, bool),
    /// The moderator, the community, the banned person, whether this is a ban
    /// (not an unban), and the reason.
    BanFromCommunity(PersonId, CommunityId, PersonId, bool, Option<String>),
    /// The admin, the banned person, whether this is a ban (not an unban), and the reason.
    BanFromSite(PersonId, PersonId, bool, Option<String>),
    CreatePrivateMessage(PrivateMessageId),
    UpdatePrivateMessage(PrivateMessageId),
    /// The acting person, the message, and whether it is now deleted.
    DeletePrivateMessage(PersonId, PrivateMessageId, bool),
    DeleteUser(PersonId),
    /// The URL of the reported object, the reporter, the community, and the reason.
    CreateReport(String, PersonId, CommunityId, String),
}

} // verus!
