use vstd::prelude::*;

use crate::config::AppConfig;
use crate::crypto::{bcrypt_hash, bcrypt_hash_shaped, bcrypt_salted_hash, bcrypt_verification};
use crate::error::{AppError, InternalError};
use crate::crypto::is_hex_text;
use crate::rfid::{legacy_rfid_hash, new_rfid_hash, old_rfid_hash, rfid_hash};

verus! {

/// The role of an account.
#[derive(Clone, Copy, Debug, PartialEq, Eq, Structural)]
pub enum Role {
    Admin,
    User,
    Inactive,
}

/// The role that a database role code stands for: 1 is an administrator,
/// 7 a deactivated account, every other code an ordinary user.
pub open spec fn role_of_code(code: i32) -> Role {
    if code == 1 {
        Role::Admin
    } else if code == 7 {
        Role::Inactive
    } else {
        Role::User
    }
}

/// The database code of a role.
pub open spec fn code_of_role(role: Role) -> i32 {
    match role {
        Role::Admin => 1,
        Role::User => 2,
        Role::Inactive => 7,
    }
}

impl From<i32> for Role {
    fn from(code: i32) -> (r: Role) {
        if code == 1 {
            Role::Admin
        } else if code == 7 {
            Role::Inactive
        } else {
            Role::User
        }
    }
}

impl vstd::std_specs::convert::FromSpecImpl<i32> for Role {
    open spec fn obeys_from_spec() -> bool {
        true
    }

    open spec fn from_spec(code: i32) -> Role {
        role_of_code(code)
    }
}

impl From<Role> for i32 {
    fn from(role: Role) -> (r: i32) {
        match role {
            Role::Admin => 1,
            Role::User => 2,
            Role::Inactive => 7,
        }
    }
}

impl vstd::std_specs::convert::FromSpecImpl<Role> for i32 {
    open spec fn obeys_from_spec() -> bool {
        true
    }

    open spec fn from_spec(role: Role) -> i32 {
        code_of_role(role)
    }
}

/// The name under which a role is shown: the name of its variant.
pub open spec fn role_name_spec(role: Role) -> Seq<char> {
    match role {
        Role::Admin => "Admin"@,
        Role::User => "User"@,
        Role::Inactive => "Inactive"@,
    }
}

/// The name under which a role is shown.
pub fn role_name(role: Role) -> (r: String)
    ensures
        r@ == role_name_spec(role),
{
    match role {
        Role::Admin => String::from_str("Admin"),
        Role::User => String::from_str("User"),
        Role::Inactive => String::from_str("Inactive"),
    }
}

/// Storing a role and reading it back gives the same role.
pub proof fn lemma_role_code_round_trip(role: Role)
    ensures
        role_of_code(code_of_role(role)) == role,
{
}

/// A role code that stands for a role of its own (1, 2 or 7) is the code
/// that the role is stored under.
pub proof fn lemma_role_code_canonical(code: i32)
    requires
        code == 1 || code == 2 || code == 7,
    ensures
        code_of_role(role_of_code(code)) == code,
{
}

/// How much of an account the public statistics show.
#[derive(Clone, Copy, Debug, PartialEq, Eq, Structural)]
pub enum PrivacyLevel {
    NoLimits,
    HideUsername,
    HideAll,
}

/// The privacy level that a database code stands for; unknown codes mean
/// no limits.
pub open spec fn privacy_of_code(code: i32) -> PrivacyLevel {
    if code == 1 {
        PrivacyLevel::HideUsername
    } else if code == 2 {
        PrivacyLevel::HideAll
    } else {
        PrivacyLevel::NoLimits
    }
}

/// The database code of a privacy level.
pub open spec fn code_of_privacy(level: PrivacyLevel) -> i32 {
    match level {
        PrivacyLevel::NoLimits => 0,
        PrivacyLevel::HideUsername => 1,
        PrivacyLevel::HideAll => 2,
    }
}

impl From<PrivacyLevel> for i32 {
    fn from(level: PrivacyLevel) -> (r: i32) {
        match level {
            PrivacyLevel::NoLimits => 0,
            PrivacyLevel::HideUsername => 1,
            PrivacyLevel::HideAll => 2,
        }
    }
}

impl vstd::std_specs::convert::FromSpecImpl<PrivacyLevel> for i32 {
    open spec fn obeys_from_spec() -> bool {
        true
    }

    open spec fn from_spec(level: PrivacyLevel) -> i32 {
        code_of_privacy(level)
    }
}

impl From<i32> for PrivacyLevel {
    fn from(code: i32) -> (r: PrivacyLevel) {
        match code {
            0 => PrivacyLevel::NoLimits,
            1 => PrivacyLevel::HideUsername,
            2 => PrivacyLevel::HideAll,
            _ => PrivacyLevel::NoLimits,
        }
    }
}

impl vstd::std_specs::convert::FromSpecImpl<i32> for PrivacyLevel {
    open spec fn obeys_from_spec() -> bool {
        true
    }

    open spec fn from_spec(code: i32) -> PrivacyLevel {
        privacy_of_code(code)
    }
}

/// Storing a privacy level and reading it back gives the same level.
pub proof fn lemma_privacy_code_round_trip(level: PrivacyLevel)
    ensures
        privacy_of_code(code_of_privacy(level)) == level,
{
}

/// A stored account, as the person table holds it.
#[derive(Clone, Debug, PartialEq, Eq)]
pub struct PersonRecord {
    pub userid: i32,
    pub roleid: i32,
    pub name: String,
    pub univident: String,
    pub pass: String,
    pub saldo: i32,
    pub realname: Option<String>,
    pub rfid: Option<String>,
    pub privacy_level: i32,
}

/// An account as the service works with it.
#[derive(Clone, Debug, PartialEq, Eq)]
pub struct User {
    pub id: i32,
    pub username: String,
    pub full_name: String,
    pub email: String,
    pub role: Role,
    pub saldo: i32,
    pub privacy_level: PrivacyLevel,
    pub password_hash: String,
    pub temp_password_hash: Option<String>,
    pub rfid_hash: Option<String>,
}

/// The full name shown for an account: its real name, or `No name` where
/// none is stored.
pub open spec fn full_name_of(realname: Option<String>) -> Seq<char> {
    match realname {
        Some(n) => n@,
        None => "No name"@,
    }
}

/// Whether a user is the account of a stored record (with the temporary
/// password hash that is still valid for it, if any).
pub open spec fn user_of_record(u: User, r: PersonRecord, temp_password_hash: Option<String>) -> bool {
    &&& u.id == r.userid
    &&& u.username == r.name
    &&& u.full_name@ == full_name_of(r.realname)
    &&& u.email == r.univident
    &&& u.role == role_of_code(r.roleid)
    &&& u.saldo == r.saldo
    &&& u.privacy_level == privacy_of_code(r.privacy_level)
    &&& u.password_hash == r.pass
    &&& u.rfid_hash == r.rfid
    &&& u.temp_password_hash == temp_password_hash
}

impl User {
    /// The account of a stored record, with the temporary password hash
    /// that is still valid for it, if any.
    pub fn from_record(record: PersonRecord, temp_password_hash: Option<String>) -> (u: User)
        ensures
            user_of_record(u, record, temp_password_hash),
    {
        let full_name = match record.realname {
            Some(n) => n,
            None => String::from_str("No name"),
        };
        User {
            id: record.userid,
            username: record.name,
            full_name,
            email: record.univident,
            role: Role::from(record.roleid),
            saldo: record.saldo,
            privacy_level: PrivacyLevel::from(record.privacy_level),
            password_hash: record.pass,
            temp_password_hash,
            rfid_hash: record.rfid,
        }
    }
}

/// A change to an account: each field that is present replaces the stored
/// one; the password and the RFID tag are given in clear and stored hashed.
pub struct UpdateUser {
    pub username: Option<String>,
    pub full_name: Option<String>,
    pub email: Option<String>,
    pub role: Option<Role>,
    pub saldo: Option<i32>,
    pub privacy_level: Option<PrivacyLevel>,
    pub password: Option<String>,
    pub rfid: Option<String>,
}

/// The bcrypt cost under which passwords are hashed.
pub const PASSWORD_HASH_COST: u32 = 11;

/// Whether `new` is `old` changed by `data` under the configuration: the
/// plain fields replaced where given, a given password stored as its
/// bcrypt hash at cost 11 under some 16-byte salt (which the password
/// checks against), a given RFID tag stored under
/// its current hash; everything else kept.
pub open spec fn updated_record(old: PersonRecord, data: UpdateUser, salt: Seq<u8>, new: PersonRecord) -> bool {
    &&& new.userid == old.userid
    &&& new.name == (match data.username { Some(v) => v, None => old.name })
    &&& new.realname == (match data.full_name { Some(v) => Some(v), None => old.realname })
    &&& new.univident == (match data.email { Some(v) => v, None => old.univident })
    &&& new.roleid == (match data.role { Some(v) => code_of_role(v), None => old.roleid })
    &&& new.saldo == (match data.saldo { Some(v) => v, None => old.saldo })
    &&& new.privacy_level == (match data.privacy_level {
        Some(v) => code_of_privacy(v),
        None => old.privacy_level,
    })
    &&& (match data.password {
        Some(p) => {
            &&& exists|s: Seq<u8>| s.len() == 16 && #[trigger] bcrypt_salted_hash(p@, 11u32, s) == new.pass@
            &&& bcrypt_hash_shaped(new.pass@)
            &&& bcrypt_verification(p@, new.pass@) == Some(true)
        },
        None => new.pass == old.pass,
    })
    &&& (match data.rfid {
        Some(t) => new.rfid matches Some(h) && h@ == rfid_hash(t@, salt),
        None => new.rfid == old.rfid,
    })
}

/// Applies a change to the stored account `current` of user `user_id`.
/// Fails where no such account is stored, or where hashing the new
/// password fails; otherwise returns the record to store.
pub fn update_user(user_id: i32, current: Option<PersonRecord>, data: UpdateUser, config: &AppConfig) -> (r: Result<PersonRecord, AppError>)
    ensures
        current is None ==> r == Err::<PersonRecord, AppError>(AppError::Internal(InternalError::UserNotFound(user_id))),
        r matches Ok(new) ==> current matches Some(old) && updated_record(old, data, config.rfid_salt@, new),
        r matches Err(e) ==> current is None || e == AppError::Internal(InternalError::Bcrypt),
        current is Some && data.password is None ==> r is Ok,
{
    let mut user = match current {
        Some(u) => u,
        None => return Err(AppError::Internal(InternalError::UserNotFound(user_id))),
    };
    let ghost old = user;
    let UpdateUser { username, full_name, email, role, saldo, privacy_level, password, rfid } = data;
    if let Some(v) = username {
        user.name = v;
    }
    if let Some(v) = full_name {
        user.realname = Some(v);
    }
    if let Some(v) = email {
        user.univident = v;
    }
    if let Some(v) = role {
        user.roleid = i32::from(v);
    }
    if let Some(v) = saldo {
        user.saldo = v;
    }
    if let Some(v) = privacy_level {
        user.privacy_level = i32::from(v);
    }
    if let Some(p) = &password {
        match bcrypt_hash(p.as_str(), PASSWORD_HASH_COST) {
            Ok(h) => user.pass = h,
            Err(_) => return Err(AppError::Internal(InternalError::Bcrypt)),
        }
    }
    if let Some(t) = &rfid {
        match new_rfid_hash(t.as_str(), config) {
            Ok(h) => user.rfid = Some(h),
            Err(e) => return Err(e),
        }
    }
    Ok(user)
}

/// The next thing to do in finding the account of an RFID tag.
#[derive(Debug)]
pub enum RfidLookup {
    /// Look for the account whose stored tag hash is `hash`, in the
    /// legacy scheme.
    FindLegacy { hash: String },
    /// Store the record, which moves the account to the current scheme;
    /// its account is the one found.
    Store(PersonRecord),
    /// Stop with this answer.
    Done(Result<Option<User>, AppError>),
}

/// After looking up a tag under its current hash (see `new_rfid_hash`):
/// an account found is the answer; otherwise look for it under the legacy
/// hash, which fails where the tag is not hexadecimal.
pub fn find_by_rfid_on_current(rfid: &str, found: Option<(PersonRecord, Option<String>)>) -> (r: RfidLookup)
    ensures
        match found {
            Some((p, t)) => r matches RfidLookup::Done(Ok(Some(u))) && user_of_record(u, p, t),
            None => if is_hex_text(rfid@) {
                r matches RfidLookup::FindLegacy { hash } && hash@ == legacy_rfid_hash(rfid@)
            } else {
                r matches RfidLookup::Done(Err(e)) && e == AppError::Internal(InternalError::InvalidHex)
            },
        },
{
    match found {
        Some((p, t)) => RfidLookup::Done(Ok(Some(User::from_record(p, t)))),
        None => match old_rfid_hash(rfid) {
            Ok(hash) => RfidLookup::FindLegacy { hash },
            Err(e) => RfidLookup::Done(Err(e)),
        },
    }
}

/// Whether `new` is `old` with its tag stored under the current hash of
/// `rfid`, everything else kept.
pub open spec fn migrated_record(old: PersonRecord, new: PersonRecord, rfid: Seq<char>, salt: Seq<u8>) -> bool {
    &&& new.userid == old.userid
    &&& new.roleid == old.roleid
    &&& new.name == old.name
    &&& new.univident == old.univident
    &&& new.pass == old.pass
    &&& new.saldo == old.saldo
    &&& new.realname == old.realname
    &&& new.privacy_level == old.privacy_level
    &&& new.rfid matches Some(h) && h@ == rfid_hash(rfid, salt)
}

/// After looking up a tag under its legacy hash: without an account the
/// tag is unknown; an account found is moved to the current scheme, its
/// tag stored under the current hash, everything else kept.
pub fn find_by_rfid_on_legacy(rfid: &str, found: Option<PersonRecord>, config: &AppConfig) -> (r: RfidLookup)
    ensures
        match found {
            None => r matches RfidLookup::Done(Ok(None)),
            Some(p) => r matches RfidLookup::Store(new) && migrated_record(p, new, rfid@, config.rfid_salt@),
        },
{
    match found {
        None => RfidLookup::Done(Ok(None)),
        Some(p) => {
            let id = p.userid;
            let data = UpdateUser {
                username: None,
                full_name: None,
                email: None,
                role: None,
                saldo: None,
                privacy_level: None,
                password: None,
                rfid: Some(String::from_str(rfid)),
            };
            match update_user(id, Some(p), data, config) {
                Ok(new) => RfidLookup::Store(new),
                Err(e) => RfidLookup::Done(Err(e)),
            }
        },
    }
}

/// Once a tag's account has been moved to the current scheme, looking the
/// tag up again finds the stored record under the current hash (the key
/// that `new_rfid_hash` gives), and the answer, which
/// `find_by_rfid_on_current` gives without storing anything, is the same
/// account as before the move, now holding the current hash.
pub proof fn lemma_migrated_tag_found_again(
    old: PersonRecord,
    new: PersonRecord,
    rfid: Seq<char>,
    salt: Seq<u8>,
    temp_password_hash: Option<String>,
    u: User,
)
    requires
        migrated_record(old, new, rfid, salt),
        user_of_record(u, new, temp_password_hash),
    ensures
        new.rfid matches Some(h) && h@ == rfid_hash(rfid, salt),
        u.id == old.userid,
        u.username == old.name,
        u.email == old.univident,
        u.role == role_of_code(old.roleid),
        u.saldo == old.saldo,
        u.privacy_level == privacy_of_code(old.privacy_level),
        u.password_hash == old.pass,
        u.full_name@ == full_name_of(old.realname),
        u.rfid_hash == new.rfid,
{
}

/// An account change stores every field that it carries exactly as given
/// (the role and privacy level read back as given, the password as a hash
/// that it checks against, the RFID tag under its current hash) and keeps
/// every field that it leaves out; the account's id never changes.
pub proof fn lemma_update_stores_given_fields(old: PersonRecord, data: UpdateUser, salt: Seq<u8>, new: PersonRecord)
    requires
        updated_record(old, data, salt, new),
    ensures
        new.userid == old.userid,
        data.username matches Some(v) ==> new.name == v,
        data.username is None ==> new.name == old.name,
        data.full_name matches Some(v) ==> new.realname == Some(v),
        data.full_name is None ==> new.realname == old.realname,
        data.email matches Some(v) ==> new.univident == v,
        data.email is None ==> new.univident == old.univident,
        data.role matches Some(r) ==> role_of_code(new.roleid) == r,
        data.role is None ==> new.roleid == old.roleid,
        data.saldo matches Some(v) ==> new.saldo == v,
        data.saldo is None ==> new.saldo == old.saldo,
        data.privacy_level matches Some(l) ==> privacy_of_code(new.privacy_level) == l,
        data.privacy_level is None ==> new.privacy_level == old.privacy_level,
        data.password matches Some(p) ==> bcrypt_verification(p@, new.pass@) == Some(true) && new.pass@.len() == 60,
        data.password is None ==> new.pass == old.pass,
        data.rfid matches Some(t) ==> new.rfid matches Some(h) && h@ == bcrypt_salted_hash(t@, 11u32, salt),
        data.rfid is None ==> new.rfid == old.rfid,
{
    if let Some(r) = data.role {
        lemma_role_code_round_trip(r);
    }
    if let Some(l) = data.privacy_level {
        lemma_privacy_code_round_trip(l);
    }
}

} // verus!
