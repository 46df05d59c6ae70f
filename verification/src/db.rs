//! Records of the application database and the decoding of their columns.

use crate::auth::Admin;
use vstd::prelude::*;

verus! {

/// Identifier of an admin account.
#[derive(Debug, Clone, Copy, PartialEq, Eq, Structural)]
pub struct AdminId(pub i32);

/// Identifier of a player account.
#[derive(Debug, Clone, Copy, PartialEq, Eq, Structural)]
pub struct PlayerId(pub i32);

/// Identifier for a game instance.
#[derive(Debug, Clone, Copy, PartialEq, Eq, Structural, Hash)]
pub struct GameId(pub usize);

/// Identifier of a game template.
#[derive(Debug, Clone, Copy, PartialEq, Eq, Structural)]
pub struct TemplateId(pub usize);

/// Instance of a game.
pub struct GameInstance {
    pub id: GameId,
    pub owner: AdminId,
    pub template: TemplateId,
}

/// Earliest second since the Unix epoch that `jiff::Timestamp` represents.
pub const TIMESTAMP_MIN_SECOND: i64 = -377705023201;

/// Latest second since the Unix epoch that `jiff::Timestamp` represents.
pub const TIMESTAMP_MAX_SECOND: i64 = 253402207200;

/// The second lies in the range of `jiff::Timestamp`.
pub open spec fn second_in_range(second: i64) -> bool {
    TIMESTAMP_MIN_SECOND <= second <= TIMESTAMP_MAX_SECOND
}

/// Calls `jiff::Timestamp::from_second(second)` and reports whether it succeeded.
/// Its documentation guarantees that it fails only outside `Timestamp::MIN` and
/// `Timestamp::MAX`, and the bounds in `jiff-core` (`UnixEpochSeconds`) put those
/// at `TIMESTAMP_MIN_SECOND` and `TIMESTAMP_MAX_SECOND`.
#[verifier::external_body]
fn jiff_accepts_second(second: i64) -> (r: bool)
    ensures
        r == second_in_range(second),
{
    jiff::Timestamp::from_second(second).is_ok()
}

/// An instant, in whole seconds since the Unix epoch, within the range that
/// `jiff::Timestamp` represents.
#[derive(Debug, Clone, Copy, PartialEq, Eq)]
pub struct Timestamp {
    second: i64,
}

impl Timestamp {
    #[verifier::type_invariant]
    spec fn in_range(self) -> bool {
        second_in_range(self.second)
    }

    /// Seconds since the Unix epoch.
    pub closed spec fn seconds(self) -> i64 {
        self.second
    }

    /// Seconds since the Unix epoch; always within the representable range.
    pub fn as_second(&self) -> (r: i64)
        ensures
            r == self.seconds(),
            second_in_range(r),
    {
        proof {
            use_type_invariant(self);
        }
        self.second
    }
}

/// Error in decoding a column of the database.
#[derive(Debug, Clone, Copy, PartialEq, Eq, Structural)]
pub enum DecodeError {
    /// A timestamp column held a second outside the representable range.
    TimestampOutOfRange(i64),
}

/// Helper to decode timestamps from the database
pub fn decode_timestamp(t: i64) -> (r: Result<Timestamp, DecodeError>)
    ensures
        second_in_range(t) ==> (r matches Ok(ts) && ts.seconds() == t),
        !second_in_range(t) ==> r == Err::<Timestamp, DecodeError>(DecodeError::TimestampOutOfRange(t)),
{
    if jiff_accepts_second(t) {
        Ok(Timestamp { second: t })
    } else {
        Err(DecodeError::TimestampOutOfRange(t))
    }
}

/// An admin account as stored.
pub struct AdminRow {
    pub id: AdminId,
    pub username: String,
    pub pw_hash: String,
}

impl AdminRow {
    /// The account as an [`Admin`] tagged with its id.
    pub fn to_admin(&self) -> (r: Admin<AdminId>)
        ensures
            r.username_view() == self.username@,
            r.pw_hash_view() == self.pw_hash@,
            r.tag_view() == self.id,
    {
        Admin::new(self.username.clone(), self.pw_hash.clone(), self.id)
    }
}

/// Session record in the database.
pub struct SessionRow {
    pub token_hash: Vec<u8>,
    pub game_id: Option<GameId>,
    pub admin_id: Option<AdminId>,
    pub player_id: Option<PlayerId>,
    pub created_at: Timestamp,
    pub expires_at: Timestamp,
}

impl SessionRow {
    /// Builds a session record from its columns, decoding the two timestamps
    /// (`created_at` first); fails with the first one out of range.
    pub fn from_columns(
        token_hash: Vec<u8>,
        game_id: Option<GameId>,
        admin_id: Option<AdminId>,
        player_id: Option<PlayerId>,
        created_at: i64,
        expires_at: i64,
    ) -> (r: Result<SessionRow, DecodeError>)
        ensures
            !second_in_range(created_at) ==> r == Err::<SessionRow, DecodeError>(
                DecodeError::TimestampOutOfRange(created_at),
            ),
            second_in_range(created_at) && !second_in_range(expires_at) ==> r == Err::<
                SessionRow,
                DecodeError,
            >(DecodeError::TimestampOutOfRange(expires_at)),
            second_in_range(created_at) && second_in_range(expires_at) ==> (r matches Ok(row) && {
                &&& row.token_hash@ == token_hash@
                &&& row.game_id == game_id
                &&& row.admin_id == admin_id
                &&& row.player_id == player_id
                &&& row.created_at.seconds() == created_at
                &&& row.expires_at.seconds() == expires_at
            }),
    {
        let created_at = decode_timestamp(created_at)?;
        let expires_at = decode_timestamp(expires_at)?;
        Ok(SessionRow { token_hash, game_id, admin_id, player_id, created_at, expires_at })
    }
}

} // verus!
