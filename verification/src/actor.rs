use vstd::prelude::*;
use gstd::ActorId;

verus! {

/// `gstd::ActorId`, the host's 32-byte identity of a user or a program.
/// Nothing inside it is visible to the proofs: two identities are either
/// equal or not.
#[verifier::external_type_specification]
#[verifier::external_body]
pub struct ExActorId(ActorId);

/// `Clone::clone` of `gstd::ActorId`, which is `Copy`: the clone is the same
/// identity.
pub assume_specification[ <ActorId as Clone>::clone ](a: &ActorId) -> (r: ActorId)
    ensures
        r == *a,
;

/// Who sent an inbound message.
#[derive(Debug, Clone, Copy, PartialEq, Eq, Structural)]
pub enum Sender {
    /// An end user.
    User,
    /// This program itself: a deferred check that has come due.
    Program,
}

/// Calls `==` of `gstd::ActorId`, which compares the 32 bytes: the result
/// says whether the two are the same identity.
#[verifier::external_body]
pub(crate) fn same_actor(a: &ActorId, b: &ActorId) -> (r: bool)
    ensures
        r == (*a == *b),
{
    a == b
}

/// Tells a user's message from the program's own deferred check: a message
/// whose source is the program is its own.
pub fn sender_kind(source: &ActorId, program: &ActorId) -> (r: Sender)
    ensures
        r == (if *source == *program { Sender::Program } else { Sender::User }),
{
    if same_actor(source, program) {
        Sender::Program
    } else {
        Sender::User
    }
}

} // verus!
