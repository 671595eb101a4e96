//! Validation rules and coordinator decisions of a private publication
//! app: who may publish, who may join the private network, and how read
//! access to posts is granted, claimed and exercised.

pub mod hash;
pub mod lobby;
pub mod membrane;
pub mod outcome;
pub mod post;
pub mod publication_role;
