//! Persisted entities and the store handle: one connection to a local
//! embedded relational database, typed read-or-default accessors for guilds,
//! users and members, and insert-or-replace upserts.
//!
//! The stored contents are modelled by [`StoreModel`]: a set of seen guilds,
//! a map from user id to optional title, a map from (guild, user) to the last
//! shout-out timestamp, and the schema version. Each trusted call into the
//! database states how it reads or moves that model.

use vstd::prelude::*;
use rusqlite::OptionalExtension;

verus! {

/// A guild row carries no data beyond its identifier; its existence means
/// "this guild has been seen at least once".
#[derive(Clone, PartialEq, Eq, Structural, Debug)]
pub struct Guild {}

impl Default for Guild {
    fn default() -> (r: Guild)
        ensures
            r == (Guild {}),
    {
        Guild {}
    }
}

/// A user's persisted attributes: an optional title shown before the user's
/// name in shout-out messages.
#[derive(Clone, Debug)]
pub struct User {
    pub title: Option<String>,
}

impl Default for User {
    /// A user that has never been given a title.
    fn default() -> (r: User)
        ensures
            r.title is None,
    {
        User { title: None }
    }
}

/// State a member holds within one guild: the Unix-epoch second of the last
/// stream shout-out sent for that member, `0` meaning "never notified".
#[derive(Clone, PartialEq, Eq, Structural, Debug)]
pub struct Member {
    pub last_stream_notify_timestamp: i64,
}

impl Default for Member {
    /// A member that has never been notified.
    fn default() -> (r: Member)
        ensures
            r.last_stream_notify_timestamp == 0,
    {
        Member { last_stream_notify_timestamp: 0 }
    }
}

/// Why a raw store operation failed.
#[derive(Clone, Copy, PartialEq, Eq, Structural, Debug)]
pub enum StoreError {
    /// The database file could not be created or opened.
    Open,
    /// A query could not be prepared or run, or a row could not be read.
    Query,
    /// A write statement or statement batch failed.
    Execute,
}

/// Why a repository operation failed. "Row absent" is never an error: reads
/// of absent rows return the entity's default value.
#[derive(Clone, Copy, PartialEq, Eq, Structural, Debug)]
pub enum RepoError {
    /// The underlying store reported a failure.
    StoreFailure,
}

/// Mathematical model of the stored contents.
#[verifier::ext_equal]
pub ghost struct StoreModel {
    /// Guild ids that have been written at least once.
    pub guilds: Set<u64>,
    /// Title by user id; a key maps to `None` when the stored title is null.
    pub users: Map<u64, Option<Seq<char>>>,
    /// Last shout-out timestamp by (guild id, user id).
    pub members: Map<(u64, u64), i64>,
    /// The schema version held by the store's version cell.
    pub version: int,
}

impl StoreModel {
    /// The model after an insert-or-replace of a guild row.
    pub open spec fn with_guild(self, guild_id: u64) -> StoreModel {
        StoreModel { guilds: self.guilds.insert(guild_id), ..self }
    }

    /// The model after an insert-or-replace of a user row.
    pub open spec fn with_user(self, user_id: u64, title: Option<Seq<char>>) -> StoreModel {
        StoreModel { users: self.users.insert(user_id, title), ..self }
    }

    /// The model after an insert-or-replace of a member row.
    pub open spec fn with_member(self, guild_id: u64, user_id: u64, ts: i64) -> StoreModel {
        StoreModel { members: self.members.insert((guild_id, user_id), ts), ..self }
    }
}

/// The title a read of `user_id` observes: the stored value, or no title
/// when no row exists.
pub open spec fn user_title(m: StoreModel, user_id: u64) -> Option<Seq<char>> {
    if m.users.contains_key(user_id) {
        m.users[user_id]
    } else {
        None
    }
}

/// The timestamp a read of `(guild_id, user_id)` observes: the stored value,
/// or `0` ("never notified") when no row exists.
pub open spec fn member_last_notify(m: StoreModel, guild_id: u64, user_id: u64) -> i64 {
    if m.members.contains_key((guild_id, user_id)) {
        m.members[(guild_id, user_id)]
    } else {
        0
    }
}

/// The member value a read of `(guild_id, user_id)` observes.
pub open spec fn stored_member(m: StoreModel, guild_id: u64, user_id: u64) -> Member {
    Member { last_stream_notify_timestamp: member_last_notify(m, guild_id, user_id) }
}

/// The view of an optional title as it stands in the model.
pub open spec fn title_view(t: Option<String>) -> Option<Seq<char>> {
    match t {
        Some(s) => Some(s@),
        None => None,
    }
}

#[verifier::external_type_specification]
#[verifier::external_body]
pub struct ExConnection(rusqlite::Connection);

/// Owns the one open connection to the local database file and mediates
/// every read and write of the persisted entities.
pub struct Handle {
    connection: rusqlite::Connection,
    model: Ghost<StoreModel>,
}

impl View for Handle {
    type V = StoreModel;

    closed spec fn view(&self) -> StoreModel {
        self.model@
    }
}

impl Handle {
    /// Relies on rusqlite::Connection::open: opens a connection to the
    /// database file at the given path with the default flags, creating the
    /// database if none exists there, and fails only when the file cannot be
    /// opened or created.
    #[verifier::external_body]
    fn open_connection(path: &str) -> (r: Result<rusqlite::Connection, StoreError>)
        ensures
            r is Err ==> r->Err_0 == StoreError::Open,
    {
        rusqlite::Connection::open(path).map_err(|_| StoreError::Open)
    }

    /// Open the store at `path`, creating the file if it does not exist.
    /// The model then holds whatever the file already held.
    pub fn new(path: &str) -> (r: Result<Handle, StoreError>)
        ensures
            r is Err ==> r->Err_0 == StoreError::Open,
    {
        match Self::open_connection(path) {
            Ok(connection) => Ok(Handle { connection, model: Ghost(arbitrary()) }),
            Err(e) => Err(e),
        }
    }

    /// Relies on rusqlite::Connection::pragma_query_value on "user_version":
    /// returns the schema version cell of the database, a 32-bit signed
    /// integer, without changing anything.
    #[verifier::external_body]
    pub(crate) fn read_schema_version(&self) -> (r: Result<i64, StoreError>)
        ensures
            r matches Ok(v) ==> v == self@.version && -0x8000_0000 <= v <= 0x7fff_ffff,
            r is Err ==> r->Err_0 == StoreError::Query,
    {
        self.connection
            .pragma_query_value(None, "user_version", |row| row.get::<_, i64>(0))
            .map_err(|_| StoreError::Query)
    }

    /// Relies on rusqlite::Connection::execute_batch: runs every statement
    /// of `sql` in order, stopping at the first failure. A script may change
    /// the stored tables and the version cell in any way, so nothing is
    /// assumed of the model afterwards.
    #[verifier::external_body]
    pub(crate) fn execute_batch_raw(&mut self, sql: &str) -> (r: Result<(), StoreError>)
        ensures
            r is Err ==> r->Err_0 == StoreError::Execute,
    {
        self.connection.execute_batch(sql).map_err(|_| StoreError::Execute)
    }

    /// Relies on rusqlite::Connection::query_row with
    /// rusqlite::OptionalExtension::optional: a SELECT of the guild row by
    /// primary key yields a row exactly when the key is stored, and changes
    /// nothing.
    #[verifier::external_body]
    fn query_guild_raw(&self, guild_id: u64) -> (r: Result<Option<i64>, StoreError>)
        ensures
            r matches Ok(row) ==> (row is Some <==> self@.guilds.contains(guild_id)),
            r is Err ==> r->Err_0 == StoreError::Query,
    {
        self.connection
            .query_row(
                "SELECT DiscordGuildId FROM Guilds WHERE DiscordGuildId = ?1",
                (guild_id as i64,),
                |row| row.get::<_, i64>(0),
            )
            .optional()
            .map_err(|_| StoreError::Query)
    }

    /// Relies on rusqlite::Connection::execute with INSERT OR REPLACE keyed
    /// by the guild id: afterwards exactly that row exists or is replaced,
    /// and nothing else changes. A failed statement changes nothing.
    #[verifier::external_body]
    fn exec_upsert_guild(&mut self, guild_id: u64) -> (r: Result<(), StoreError>)
        ensures
            r is Ok ==> final(self)@ == old(self)@.with_guild(guild_id),
            r is Err ==> r->Err_0 == StoreError::Execute && final(self)@ == old(self)@,
    {
        self.connection
            .execute(
                "INSERT OR REPLACE INTO Guilds(DiscordGuildId) VALUES(?1)",
                (guild_id as i64,),
            )
            .map(|_| ())
            .map_err(|_| StoreError::Execute)
    }

    /// Relies on rusqlite::Connection::query_row with
    /// rusqlite::OptionalExtension::optional: a SELECT of the user's title
    /// by primary key yields the stored (possibly null) title exactly when
    /// the key is stored, and changes nothing.
    #[verifier::external_body]
    fn query_user_raw(&self, user_id: u64) -> (r: Result<Option<Option<String>>, StoreError>)
        ensures
            r matches Ok(row) ==> match row {
                Some(t) => self@.users.contains_key(user_id) && title_view(t) == self@.users[user_id],
                None => !self@.users.contains_key(user_id),
            },
            r is Err ==> r->Err_0 == StoreError::Query,
    {
        self.connection
            .query_row(
                "SELECT Title FROM Users WHERE DiscordUserId = ?1",
                (user_id as i64,),
                |row| row.get::<_, Option<String>>(0),
            )
            .optional()
            .map_err(|_| StoreError::Query)
    }

    /// Relies on rusqlite::Connection::execute with INSERT OR REPLACE keyed
    /// by the user id: afterwards that row holds the given title, and
    /// nothing else changes. A failed statement changes nothing.
    #[verifier::external_body]
    fn exec_upsert_user(&mut self, user_id: u64, title: &Option<String>) -> (r: Result<
        (),
        StoreError,
    >)
        ensures
            r is Ok ==> final(self)@ == old(self)@.with_user(user_id, title_view(*title)),
            r is Err ==> r->Err_0 == StoreError::Execute && final(self)@ == old(self)@,
    {
        self.connection
            .execute(
                "INSERT OR REPLACE INTO Users(DiscordUserId, Title) VALUES(?1, ?2)",
                (user_id as i64, title),
            )
            .map(|_| ())
            .map_err(|_| StoreError::Execute)
    }

    /// Relies on rusqlite::Connection::query_row with
    /// rusqlite::OptionalExtension::optional: a SELECT of the member row by
    /// its composite primary key yields the stored timestamp exactly when
    /// the key is stored, and changes nothing.
    #[verifier::external_body]
    fn query_member_raw(&self, guild_id: u64, user_id: u64) -> (r: Result<Option<i64>, StoreError>)
        ensures
            r matches Ok(row) ==> match row {
                Some(ts) => self@.members.contains_key((guild_id, user_id)) && ts == self@.members[(guild_id, user_id)],
                None => !self@.members.contains_key((guild_id, user_id)),
            },
            r is Err ==> r->Err_0 == StoreError::Query,
    {
        self.connection
            .query_row(
                "SELECT LastStreamNotifyTimestamp FROM Members
                 WHERE DiscordGuildId = ?1 AND DiscordUserId = ?2",
                (guild_id as i64, user_id as i64),
                |row| row.get::<_, i64>(0),
            )
            .optional()
            .map_err(|_| StoreError::Query)
    }

    /// Relies on rusqlite::Connection::execute with INSERT OR REPLACE keyed
    /// by (guild id, user id): afterwards that row holds the given
    /// timestamp, and nothing else changes. A failed statement changes
    /// nothing.
    #[verifier::external_body]
    fn exec_upsert_member(&mut self, guild_id: u64, user_id: u64, ts: i64) -> (r: Result<
        (),
        StoreError,
    >)
        ensures
            r is Ok ==> final(self)@ == old(self)@.with_member(guild_id, user_id, ts),
            r is Err ==> r->Err_0 == StoreError::Execute && final(self)@ == old(self)@,
    {
        self.connection
            .execute(
                "INSERT OR REPLACE INTO Members(
                 DiscordGuildId, DiscordUserId, LastStreamNotifyTimestamp)
                 VALUES(?1, ?2, ?3)",
                (guild_id as i64, user_id as i64, ts),
            )
            .map(|_| ())
            .map_err(|_| StoreError::Execute)
    }

    /// The schema version the store currently holds.
    pub fn schema_version(&self) -> (r: Result<i64, RepoError>)
        ensures
            r matches Ok(v) ==> v == self@.version,
            r is Err ==> r->Err_0 == RepoError::StoreFailure,
    {
        match self.read_schema_version() {
            Ok(v) => Ok(v),
            Err(_) => Err(RepoError::StoreFailure),
        }
    }

    /// Get a guild's data; a guild row carries nothing, so any stored or
    /// absent row reads as the default guild.
    pub fn guild(&self, guild_id: u64) -> (r: Result<Guild, RepoError>)
        ensures
            r matches Ok(g) ==> g == (Guild {}),
            r is Err ==> r->Err_0 == RepoError::StoreFailure,
    {
        match self.query_guild_raw(guild_id) {
            Ok(_) => Ok(Guild {}),
            Err(_) => Err(RepoError::StoreFailure),
        }
    }

    /// Insert-or-replace the guild row keyed by `guild_id`.
    pub fn guild_update(&mut self, guild_id: u64, _data: &Guild) -> (r: Result<(), RepoError>)
        ensures
            r is Ok ==> final(self)@ == old(self)@.with_guild(guild_id),
            r is Err ==> r->Err_0 == RepoError::StoreFailure && final(self)@ == old(self)@,
    {
        match self.exec_upsert_guild(guild_id) {
            Ok(()) => Ok(()),
            Err(_) => Err(RepoError::StoreFailure),
        }
    }

    /// Get a user's data. A user that was never written reads as the
    /// default user: no title.
    pub fn user(&self, user_id: u64) -> (r: Result<User, RepoError>)
        ensures
            r matches Ok(u) ==> title_view(u.title) == user_title(self@, user_id),
            r is Err ==> r->Err_0 == RepoError::StoreFailure,
    {
        match self.query_user_raw(user_id) {
            Ok(Some(title)) => Ok(User { title }),
            Ok(None) => Ok(User { title: None }),
            Err(_) => Err(RepoError::StoreFailure),
        }
    }

    /// Insert-or-replace the user row keyed by `user_id`.
    pub fn user_update(&mut self, user_id: u64, data: &User) -> (r: Result<(), RepoError>)
        ensures
            r is Ok ==> final(self)@ == old(self)@.with_user(user_id, title_view(data.title)),
            r is Err ==> r->Err_0 == RepoError::StoreFailure && final(self)@ == old(self)@,
    {
        match self.exec_upsert_user(user_id, &data.title) {
            Ok(()) => Ok(()),
            Err(_) => Err(RepoError::StoreFailure),
        }
    }

    /// Get a member's data. A (guild, user) pair that was never written
    /// reads as the default member: last shout-out timestamp `0`.
    pub fn member(&self, guild_id: u64, user_id: u64) -> (r: Result<Member, RepoError>)
        ensures
            r matches Ok(m) ==> m == stored_member(self@, guild_id, user_id),
            r is Err ==> r->Err_0 == RepoError::StoreFailure,
    {
        match self.query_member_raw(guild_id, user_id) {
            Ok(Some(ts)) => Ok(Member { last_stream_notify_timestamp: ts }),
            Ok(None) => Ok(Member { last_stream_notify_timestamp: 0 }),
            Err(_) => Err(RepoError::StoreFailure),
        }
    }

    /// Insert-or-replace the member row keyed by (`guild_id`, `user_id`).
    pub fn member_update(&mut self, guild_id: u64, user_id: u64, data: &Member) -> (r: Result<
        (),
        RepoError,
    >)
        ensures
            r is Ok ==> final(self)@ == old(self)@.with_member(
                guild_id,
                user_id,
                data.last_stream_notify_timestamp,
            ),
            r is Err ==> r->Err_0 == RepoError::StoreFailure && final(self)@ == old(self)@,
    {
        match self.exec_upsert_member(guild_id, user_id, data.last_stream_notify_timestamp) {
            Ok(()) => Ok(()),
            Err(_) => Err(RepoError::StoreFailure),
        }
    }
}

/// Law: a key that the store has never held reads back as the default
/// value — timestamp `0` for a member, no title for a user.
pub proof fn lemma_unwritten_reads_default(m: StoreModel, guild_id: u64, user_id: u64)
    requires
        !m.members.contains_key((guild_id, user_id)),
        !m.users.contains_key(user_id),
    ensures
        stored_member(m, guild_id, user_id).last_stream_notify_timestamp == 0,
        user_title(m, user_id) is None,
{
}

/// Law: upserting the same member value twice leaves the store exactly as
/// one upsert does.
pub proof fn lemma_member_upsert_idempotent(m: StoreModel, guild_id: u64, user_id: u64, ts: i64)
    ensures
        m.with_member(guild_id, user_id, ts).with_member(guild_id, user_id, ts) == m.with_member(
            guild_id,
            user_id,
            ts,
        ),
{
    let once = m.with_member(guild_id, user_id, ts);
    let twice = once.with_member(guild_id, user_id, ts);
    assert(twice.members =~= once.members);
    assert(twice =~= once);
}

} // verus!
