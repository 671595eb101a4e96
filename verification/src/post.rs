//! Posts: an editor may create one, only its creator may update it, and
//! neither posts nor the links that gather them are ever deleted.

use vstd::prelude::*;
use crate::hash::{ActionHash, AnyLinkableHash, HASH_LEN, action_prefix, prefix_of};
use crate::outcome::{
    ExternError, Failure, ValidateCallbackResult, Verdict, failure_view, guest_error, invalid,
    outcome_view,
};
use crate::publication_role::{ActionAuthor, PublicationRole, RoleView, editor_role, editor_role_for};

verus! {

pub const ONLY_CREATOR_UPDATES: &'static str = "Only the creator can make updates";

pub const POSTS_NOT_DELETED: &'static str = "Posts cannot be deleted";

pub const LINKS_NOT_DELETED: &'static str = "AllPosts links cannot be deleted";

pub const LINK_NEEDS_ENTRY: &'static str = "Linked action must reference an entry";

pub const LINK_TARGET_NOT_ACTION: &'static str = "Linked target must be an action hash";

/// A post.
#[derive(Debug, Clone, PartialEq, Eq)]
pub struct Post {
    pub title: String,
    pub content: String,
}

/// The role whose entry must exist for the author of `action` to create a
/// post: the author's editor role.
pub open spec fn role_required_to_post(author: Seq<u8>) -> RoleView {
    editor_role(author)
}

/// The role entry that `validate_create_post` looks up for this action.
pub fn required_role_for_post(action: &ActionAuthor) -> (r: PublicationRole)
    ensures
        r@ == role_required_to_post(action.author@),
{
    editor_role_for(action.author.duplicate())
}

/// A post is accepted once the role entry of `required_role_for_post` was
/// found; where looking it up failed, that failure is the answer.
pub fn validate_create_post<E>(action: &ActionAuthor, post: &Post, role_lookup: Result<(), E>) -> (r:
    Result<ValidateCallbackResult, ExternError<E>>)
    ensures
        outcome_view(r) == match role_lookup {
            Ok(()) => Ok::<Verdict, Failure<E>>(Verdict::Valid),
            Err(e) => Err(Failure::Raised(e)),
        },
{
    match role_lookup {
        Ok(()) => Ok(ValidateCallbackResult::Valid),
        Err(e) => Err(ExternError::Raised(e)),
    }
}

/// Only the creator of a post may update it.
pub fn validate_update_post(
    action: &ActionAuthor,
    post: &Post,
    original_action: &ActionAuthor,
    original_post: &Post,
) -> (r: ValidateCallbackResult)
    ensures
        r@ == (if action.author@ == original_action.author@ {
            Verdict::Valid
        } else {
            Verdict::Invalid(ONLY_CREATOR_UPDATES@)
        }),
{
    if action.author.same_as(&original_action.author) {
        ValidateCallbackResult::Valid
    } else {
        invalid(ONLY_CREATOR_UPDATES)
    }
}

/// A post is never deleted.
pub fn validate_delete_post(action: &ActionAuthor, original_action: &ActionAuthor, original_post: &Post) -> (r:
    ValidateCallbackResult)
    ensures
        r@ == Verdict::Invalid(POSTS_NOT_DELETED@),
{
    invalid(POSTS_NOT_DELETED)
}

/// The record that a new link to all posts must point to: its target, read
/// as an action hash.
pub fn linked_record_hash<E>(target_address: &AnyLinkableHash) -> (r: Result<
    ActionHash,
    ExternError<E>,
>)
    requires
        target_address@.len() == HASH_LEN,
    ensures
        prefix_of(target_address@) == action_prefix() ==> (r matches Ok(h) && h@
            == target_address@),
        prefix_of(target_address@) != action_prefix() ==> failure_view(r) == Err::<
            ActionHash,
            Failure<E>,
        >(Failure::Guest(LINK_TARGET_NOT_ACTION@)),
{
    match target_address.into_action_hash() {
        Some(h) => Ok(h),
        None => Err(guest_error(LINK_TARGET_NOT_ACTION)),
    }
}

/// A link to all posts is accepted when the record it points to holds a
/// post: `linked_post` is that record's entry read as a post (`None` where
/// the record holds no app entry), or the error that fetching or decoding
/// it raised.
pub fn validate_create_link_all_posts<E>(linked_post: Result<Option<Post>, E>) -> (r: Result<
    ValidateCallbackResult,
    ExternError<E>,
>)
    ensures
        outcome_view(r) == match linked_post {
            Ok(Some(_)) => Ok::<Verdict, Failure<E>>(Verdict::Valid),
            Ok(None) => Err(Failure::Guest(LINK_NEEDS_ENTRY@)),
            Err(e) => Err(Failure::Raised(e)),
        },
{
    match linked_post {
        Ok(Some(_)) => Ok(ValidateCallbackResult::Valid),
        Ok(None) => Err(guest_error(LINK_NEEDS_ENTRY)),
        Err(e) => Err(ExternError::Raised(e)),
    }
}

/// A link to all posts is never deleted.
pub fn validate_delete_link_all_posts(
    action: &ActionAuthor,
    original_action: &ActionAuthor,
    base: &AnyLinkableHash,
    target: &AnyLinkableHash,
    tag: &Vec<u8>,
) -> (r: ValidateCallbackResult)
    ensures
        r@ == Verdict::Invalid(LINKS_NOT_DELETED@),
{
    invalid(LINKS_NOT_DELETED)
}

/// To post, an author needs exactly the role entry that assigning the
/// editor role to that author creates (`editor_role_for`).
pub proof fn lemma_posting_needs_the_assigned_editor_role(author: Seq<u8>)
    ensures
        role_required_to_post(author) == editor_role(author),
        role_required_to_post(author).assignee == author,
        role_required_to_post(author).role == crate::publication_role::EDITOR@,
{
}

} // verus!
