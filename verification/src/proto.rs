//! The RPC-facing projection of a record: the same attributes a response
//! echoes, with the id rendered as its canonical text and the timestamps
//! split into seconds and nanoseconds.

use vstd::prelude::*;
use crate::models::{Timestamp, User};

verus! {

/// A protobuf-style instant: whole seconds and the subsecond part.
#[derive(Debug, Clone, Copy, PartialEq, Eq, Structural)]
pub struct ProtoTimestamp {
    pub seconds: i64,
    pub nanos: i32,
}

/// A record as an RPC message: id as canonical text, no password hash.
#[derive(Debug)]
pub struct ProtoUser {
    pub id: String,
    pub email: String,
    pub username: String,
    pub full_name: Option<String>,
    pub is_active: bool,
    pub is_verified: bool,
    pub created_at: Option<ProtoTimestamp>,
    pub updated_at: Option<ProtoTimestamp>,
}

/// The canonical hyphenated text of a 128-bit id: a function of the id
/// alone.
pub uninterp spec fn uuid_text_of(id: u128) -> Seq<char>;

/// Relies on `uuid::Uuid::to_string` over `Uuid::from_u128`: the canonical
/// hyphenated lowercase form, always 36 characters, determined by the
/// 128-bit value alone.
#[verifier::external_body]
fn uuid_text(id: u128) -> (r: String)
    ensures
        r@ == uuid_text_of(id),
        r@.len() == 36,
{
    uuid::Uuid::from_u128(id).to_string()
}

/// An instant whose subsecond part fits the signed 32-bit message field.
/// Every clock-produced value does: a nanosecond count stays below one
/// second, or below two during a leap second, both far under `i32::MAX`.
pub open spec fn timestamp_wf(t: Timestamp) -> bool {
    t.nanos <= i32::MAX
}

impl User {
    /// Project the record into its RPC message: every outward attribute
    /// echoed, the id rendered as text, and both timestamps carried over.
    pub fn to_proto(&self) -> (r: ProtoUser)
        requires
            timestamp_wf(self.created_at),
            timestamp_wf(self.updated_at),
        ensures
            r.id@ == uuid_text_of(self.id),
            r.email@ == self.email@,
            r.username@ == self.username@,
            (match (r.full_name, self.full_name) {
                (Some(a), Some(b)) => a@ == b@,
                (None, None) => true,
                _ => false,
            }),
            r.is_active == self.is_active,
            r.is_verified == self.is_verified,
            r.created_at == Some(ProtoTimestamp {
                seconds: self.created_at.seconds,
                nanos: self.created_at.nanos as i32,
            }),
            r.updated_at == Some(ProtoTimestamp {
                seconds: self.updated_at.seconds,
                nanos: self.updated_at.nanos as i32,
            }),
    {
        let full_name = match &self.full_name {
            Some(s) => Some(s.clone()),
            None => None,
        };
        ProtoUser {
            id: uuid_text(self.id),
            email: self.email.clone(),
            username: self.username.clone(),
            full_name,
            is_active: self.is_active,
            is_verified: self.is_verified,
            created_at: Some(ProtoTimestamp {
                seconds: self.created_at.seconds,
                nanos: self.created_at.nanos as i32,
            }),
            updated_at: Some(ProtoTimestamp {
                seconds: self.updated_at.seconds,
                nanos: self.updated_at.nanos as i32,
            }),
        }
    }
}

} // verus!
