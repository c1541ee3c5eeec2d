//! Registered users and the paging of the user list.
use vstd::prelude::*;
use vstd::string::*;

use crate::services::passwords::{
    argon2_accepts, argon2_phc_hash, hash_password, random_bytes, SALT_LEN,
};
use crate::time::{now, UnixTime};

verus! {

/// Number of users on a page of the user list.
pub const USER_PAGE_SIZE: u32 = 50;

/// A registered user: the password is kept only as an Argon2 hash, and
/// `registered_at` is the instant of registration.
#[derive(Clone, Debug)]
pub struct User {
    pub name: String,
    pub email: String,
    pub hashed_password: String,
    pub registered_at: UnixTime,
}

/// The values a user is stored under: name, e-mail, password hash, and the
/// whole seconds of the registration instant cut to 32 bits.
#[derive(Clone, Debug)]
pub struct UserRow {
    pub name: String,
    pub email: String,
    pub hashed_password: String,
    pub registered_at: u32,
}

/// Hashing a new user's password failed.
#[derive(Clone, Copy, Debug, PartialEq, Eq, Structural)]
pub struct PasswordHashError;

/// `u` is a user with the given name and e-mail whose stored hash accepts
/// `password` (its UTF-8 bytes).
pub open spec fn user_created_with(
    u: User,
    name: Seq<char>,
    email: Seq<char>,
    password: Seq<u8>,
) -> bool {
    &&& u.name@ == name
    &&& u.email@ == email
    &&& argon2_accepts(password, u.hashed_password@)
    &&& u.registered_at.wf()
}

impl User {
    /// The user named `name` with e-mail `email`, registered at
    /// `registered_at`, whose password is stored as its Argon2 hash under the
    /// salt whose bytes are `salt`. `Err` when the password cannot be hashed,
    /// which Argon2 does only for a password of more than `0xFFFFFFFF` bytes
    /// or a salt outside 8 to 48 bytes.
    pub fn with_salt(
        name: String,
        email: String,
        password: &str,
        salt: &[u8],
        registered_at: UnixTime,
    ) -> (r: Result<User, PasswordHashError>)
        requires
            salt@.len() >= 3,
        ensures
            r matches Ok(u) ==> {
                &&& u.name == name
                &&& u.email == email
                &&& u.hashed_password@ == argon2_phc_hash(password.spec_bytes(), salt@)
                &&& argon2_accepts(password.spec_bytes(), u.hashed_password@)
                &&& u.registered_at == registered_at
            },
            password.spec_bytes().len() <= 0xFFFF_FFFF && 8 <= salt@.len() <= 48 ==> r is Ok,
    {
        match hash_password(password.as_bytes(), salt) {
            Ok(hashed_password) => Ok(User { name, email, hashed_password, registered_at }),
            Err(_) => Err(PasswordHashError),
        }
    }

    /// A new user named `name` with e-mail `email`, whose password is stored
    /// as an Argon2 hash under a fresh random salt of `SALT_LEN` bytes,
    /// registered now. `Err` when the password cannot be hashed, which Argon2
    /// does only for a password of more than `0xFFFFFFFF` bytes.
    pub fn new(name: String, email: String, password: &str) -> (r: Result<User, PasswordHashError>)
        ensures
            r matches Ok(u) ==> user_created_with(u, name@, email@, password.spec_bytes()),
            r matches Ok(u) ==> exists|salt: Seq<u8>|
                salt.len() == SALT_LEN && u.hashed_password@ == #[trigger] argon2_phc_hash(
                    password.spec_bytes(),
                    salt,
                ),
            password.spec_bytes().len() <= 0xFFFF_FFFF ==> r is Ok,
    {
        let salt = random_bytes(SALT_LEN);
        let registered_at = now();
        User::with_salt(name, email, password, salt.as_slice(), registered_at)
    }

    /// A user made of the given parts.
    pub fn from_parts(
        name: String,
        email: String,
        hashed_password: String,
        registered_at: UnixTime,
    ) -> (u: User)
        ensures
            u.name == name,
            u.email == email,
            u.hashed_password == hashed_password,
            u.registered_at == registered_at,
    {
        User { name, email, hashed_password, registered_at }
    }

    /// The values the user is stored under: name, e-mail and hash as they
    /// are, and the whole seconds of the registration instant cut to their
    /// low 32 bits. `None` when the user was registered before the epoch,
    /// whose instant has no such seconds.
    pub fn to_row(&self) -> (row: Option<UserRow>)
        ensures
            row is None <==> self.registered_at.secs < 0,
            row matches Some(row) ==> {
                &&& row.name@ == self.name@
                &&& row.email@ == self.email@
                &&& row.hashed_password@ == self.hashed_password@
                &&& row.registered_at == self.registered_at.secs as u32
            },
    {
        if self.registered_at.secs < 0 {
            return None;
        }
        Some(
            UserRow {
                name: self.name.clone(),
                email: self.email.clone(),
                hashed_password: self.hashed_password.clone(),
                registered_at: self.registered_at.secs as u32,
            },
        )
    }

    /// A user read back from storage, where the registration seconds come
    /// back as a 64-bit integer; an instant before the epoch cannot be read
    /// (`requires`).
    pub fn from_record(
        name: String,
        email: String,
        hashed_password: String,
        registered_at: i64,
    ) -> (u: User)
        requires
            registered_at >= 0,
        ensures
            u.name == name,
            u.email == email,
            u.hashed_password == hashed_password,
            u.registered_at == (UnixTime { secs: registered_at as i128, nanos: 0 }),
    {
        User {
            name,
            email,
            hashed_password,
            registered_at: UnixTime::from_secs(registered_at as i128),
        }
    }

    /// The two numbers the user list query is run with for page `page` of
    /// `page_size` users: `page_size * page` and `page_size * (page + 1)`.
    /// Both must fit in a `u32` (`requires`). The query reads them as SQLite's
    /// `LIMIT offset, count`, so the second is a row count: page `page` holds
    /// up to `page_size * (page + 1)` rows, not `page_size`.
    pub fn page_bounds(page: u32, page_size: u32) -> (bounds: (u32, u32))
        requires
            page + 1 <= u32::MAX,
            page_size * (page + 1) <= u32::MAX,
        ensures
            bounds.0 == page_size * page,
            bounds.1 == page_size * (page + 1),
    {
        assert(page_size * page <= page_size * (page + 1)) by (nonlinear_arith);
        (page_size * page, page_size * (page + 1))
    }
}

/// A user registered between the epoch and 2106 reads back as the whole
/// second of its registration: the 32-bit seconds come back as the same
/// 64-bit integer, which `from_record` turns into that second.
pub proof fn lemma_stored_user_reads_back(u: User)
    requires
        0 <= u.registered_at.secs <= u32::MAX,
    ensures
        (u.registered_at.secs as u32) as i64 >= 0,
        (UnixTime { secs: ((u.registered_at.secs as u32) as i64) as i128, nanos: 0 }) == (
        UnixTime { secs: u.registered_at.secs, nanos: 0 }),
{
}

/// The service that lists users: the database they are stored in.
#[derive(Clone, Debug)]
pub struct UsersService<Pool> {
    db_pool: Pool,
}

impl<Pool> UsersService<Pool> {
    pub closed spec fn spec_db_pool(&self) -> Pool {
        self.db_pool
    }

    pub fn new(db_pool: Pool) -> (s: Self)
        ensures
            s.spec_db_pool() == db_pool,
    {
        UsersService { db_pool }
    }

    /// The database the users live in.
    pub fn db_pool(&self) -> (p: &Pool)
        ensures
            *p == self.spec_db_pool(),
    {
        &self.db_pool
    }

    /// The numbers the user list query is run with for page `page`.
    pub fn page_bounds(&self, page: u32) -> (bounds: (u32, u32))
        requires
            page + 1 <= u32::MAX,
            USER_PAGE_SIZE * (page + 1) <= u32::MAX,
        ensures
            bounds.0 == USER_PAGE_SIZE * page,
            bounds.1 == USER_PAGE_SIZE * (page + 1),
    {
        User::page_bounds(page, USER_PAGE_SIZE)
    }
}

} // verus!
