//! Publication roles: an agent holds a role (such as "editor") once an entry
//! naming it was committed. Only the progenitor may create roles, and roles
//! are never updated or deleted.

use vstd::prelude::*;
use crate::hash::AgentPubKey;
use crate::outcome::{ValidateCallbackResult, Verdict, invalid};

verus! {

pub const EDITOR: &'static str = "editor";

pub const ONLY_PROGENITOR_CREATES_ROLES: &'static str = "Only the progenitor can create roles";

pub const ROLES_NOT_UPDATED: &'static str = "Publication Roles cannot be updated";

pub const ROLES_NOT_DELETED: &'static str = "Publication Roles cannot be deleted";

/// The part of an action that the rules read: who wrote it.
#[derive(Debug, Clone, PartialEq, Eq)]
pub struct ActionAuthor {
    pub author: AgentPubKey,
}

/// A role held by an agent.
#[derive(Debug, Clone, PartialEq, Eq)]
pub struct PublicationRole {
    pub role: String,
    pub assignee: AgentPubKey,
}

pub struct RoleView {
    pub role: Seq<char>,
    pub assignee: Seq<u8>,
}

impl View for PublicationRole {
    type V = RoleView;

    open spec fn view(&self) -> RoleView {
        RoleView { role: self.role@, assignee: self.assignee@ }
    }
}

/// The editor role of an agent.
pub open spec fn editor_role(agent: Seq<u8>) -> RoleView {
    RoleView { role: EDITOR@, assignee: agent }
}

/// The role entry that makes `agent` an editor.
pub fn editor_role_for(agent: AgentPubKey) -> (r: PublicationRole)
    ensures
        r@ == editor_role(agent@),
{
    PublicationRole { role: EDITOR.to_string(), assignee: agent }
}

/// A role may be created by the progenitor only.
pub fn validate_create_publication_role(
    action: &ActionAuthor,
    publication_role: &PublicationRole,
    progenitor: &AgentPubKey,
) -> (r: ValidateCallbackResult)
    ensures
        r@ == (if action.author@ == progenitor@ {
            Verdict::Valid
        } else {
            Verdict::Invalid(ONLY_PROGENITOR_CREATES_ROLES@)
        }),
{
    if action.author.same_as(progenitor) {
        ValidateCallbackResult::Valid
    } else {
        invalid(ONLY_PROGENITOR_CREATES_ROLES)
    }
}

/// A role is never updated.
pub fn validate_update_publication_role(
    action: &ActionAuthor,
    publication_role: &PublicationRole,
    original_action: &ActionAuthor,
    original_publication_role: &PublicationRole,
) -> (r: ValidateCallbackResult)
    ensures
        r@ == Verdict::Invalid(ROLES_NOT_UPDATED@),
{
    invalid(ROLES_NOT_UPDATED)
}

/// A role is never deleted.
pub fn validate_delete_publication_role(
    action: &ActionAuthor,
    original_action: &ActionAuthor,
    original_publication_role: &PublicationRole,
) -> (r: ValidateCallbackResult)
    ensures
        r@ == Verdict::Invalid(ROLES_NOT_DELETED@),
{
    invalid(ROLES_NOT_DELETED)
}

} // verus!
