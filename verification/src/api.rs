//! What the HTTP API decides: logins, user and token accounts, and the
//! settings shown, saved and checked through it.
use vstd::prelude::*;
use vstd::string::{StringExecFns, StringSliceAdditionalSpecFns};
use crate::auth::{User, Token, LoginRequest, LoginResponse};
use crate::text::{chars_of, decimal, push_decimal};
use crate::mqtt::opt_text;

verus! {

/// The HTTP status of an API reply.
#[derive(PartialEq, Eq, Structural)]
pub enum HttpStatus {
    Success,
    BadRequest,
    Unauthorized,
    Forbidden,
    NotFound,
    Conflict,
    InternalServerError,
}

/// The largest number of a sequence of ids, 0 when there is none.
pub open spec fn max_id(ids: Seq<u64>) -> nat
    decreases ids.len(),
{
    if ids.len() == 0 {
        0
    } else {
        let m = max_id(ids.drop_last());
        if ids.last() > m { ids.last() as nat } else { m }
    }
}

pub open spec fn user_ids(users: Seq<User>) -> Seq<u64> {
    users.map_values(|u: User| u.id)
}

pub open spec fn token_ids(tokens: Seq<Token>) -> Seq<u64> {
    tokens.map_values(|t: Token| t.id)
}

/// Whether every id can be incremented without overflow.
pub open spec fn ids_below_max(ids: Seq<u64>) -> bool {
    forall|i: int| 0 <= i < ids.len() ==> #[trigger] ids[i] < u64::MAX
}

fn next_id(ids: &Vec<u64>) -> (id: u64)
    requires
        ids_below_max(ids@),
    ensures
        id == max_id(ids@) + 1,
{
    let mut m: u64 = 0;
    let mut k: usize = 0;
    while k < ids.len()
        invariant
            k <= ids@.len(),
            ids_below_max(ids@),
            m == max_id(ids@.take(k as int)),
            m < u64::MAX,
        decreases ids@.len() - k,
    {
        assert(ids@.take(k + 1).drop_last() =~= ids@.take(k as int));
        if ids[k] > m {
            m = ids[k];
        }
        k = k + 1;
    }
    assert(ids@.take(k as int) =~= ids@);
    m + 1
}

/// The id for a new user: one more than the largest id in use, 1 when there
/// is no user.
pub fn get_next_user_id(users: &Vec<User>) -> (id: u64)
    requires
        ids_below_max(user_ids(users@)),
    ensures
        id == max_id(user_ids(users@)) + 1,
{
    let mut ids: Vec<u64> = Vec::new();
    let mut k: usize = 0;
    while k < users.len()
        invariant
            k <= users@.len(),
            ids@ == user_ids(users@).take(k as int),
        decreases users@.len() - k,
    {
        ids.push(users[k].id);
        assert(ids@ =~= user_ids(users@).take(k + 1));
        k = k + 1;
    }
    assert(ids@ =~= user_ids(users@));
    next_id(&ids)
}

/// The id for a new token: one more than the largest id in use, 1 when
/// there is no token.
pub fn get_next_token_id(tokens: &Vec<Token>) -> (id: u64)
    requires
        ids_below_max(token_ids(tokens@)),
    ensures
        id == max_id(token_ids(tokens@)) + 1,
{
    let mut ids: Vec<u64> = Vec::new();
    let mut k: usize = 0;
    while k < tokens.len()
        invariant
            k <= tokens@.len(),
            ids@ == token_ids(tokens@).take(k as int),
        decreases tokens@.len() - k,
    {
        ids.push(tokens[k].id);
        assert(ids@ =~= token_ids(tokens@).take(k + 1));
        k = k + 1;
    }
    assert(ids@ =~= token_ids(tokens@));
    next_id(&ids)
}

proof fn lemma_max_id_bounds(ids: Seq<u64>)
    ensures
        forall|i: int| 0 <= i < ids.len() ==> #[trigger] ids[i] <= max_id(ids),
    decreases ids.len(),
{
    if ids.len() > 0 {
        lemma_max_id_bounds(ids.drop_last());
        assert forall|i: int| 0 <= i < ids.len() implies #[trigger] ids[i] <= max_id(ids) by {
            if i < ids.len() - 1 {
                assert(ids[i] == ids.drop_last()[i]);
            }
        }
    }
}

/// A new id is not the id of any existing record, so ids stay distinct.
pub proof fn next_id_is_fresh(ids: Seq<u64>)
    ensures
        forall|i: int| 0 <= i < ids.len() ==> #[trigger] ids[i] != max_id(ids) + 1,
        forall|i: int| 0 <= i < ids.len() ==> #[trigger] ids[i] < max_id(ids) + 1,
{
    lemma_max_id_bounds(ids);
}

/// Whether some user has exactly this name and password.
pub open spec fn credentials_match(users: Seq<User>, username: Seq<char>, password: Seq<char>) -> bool {
    exists|i: int| 0 <= i < users.len() && (#[trigger] users[i]).username@ == username
        && users[i].password@ == password
}

/// Checks a login against the user accounts.
pub fn login(users: &Vec<User>, data: &LoginRequest) -> (r: (HttpStatus, LoginResponse))
    ensures
        r.1.success == credentials_match(users@, data.username@, data.password@),
        r.1.success ==> r.0 == HttpStatus::Success && r.1.message@ == "Login successful"@,
        !r.1.success ==> r.0 == HttpStatus::Unauthorized && r.1.message@ == "Invalid credentials"@,
{
    let mut k: usize = 0;
    while k < users.len()
        invariant
            k <= users@.len(),
            forall|j: int| 0 <= j < k ==> !((#[trigger] users@[j]).username@ == data.username@
                && users@[j].password@ == data.password@),
        decreases users@.len() - k,
    {
        if users[k].username == data.username && users[k].password == data.password {
            return (HttpStatus::Success, LoginResponse {
                success: true,
                message: String::from_str("Login successful"),
            });
        }
        k = k + 1;
    }
    (HttpStatus::Unauthorized, LoginResponse {
        success: false,
        message: String::from_str("Invalid credentials"),
    })
}

/// The reply to a logout.
pub fn logout() -> (r: (HttpStatus, String))
    ensures
        r.0 == HttpStatus::Success,
        r.1@ == "Logged out successfully"@,
{
    (HttpStatus::Success, String::from_str("Logged out successfully"))
}

/// A user as listed by the API: without the password.
pub struct UserSummary {
    pub id: u64,
    pub username: String,
    pub created_at: String,
}

pub open spec fn summary_of(u: User) -> (u64, Seq<char>, Seq<char>) {
    (u.id, u.username@, u.created_at@)
}

pub open spec fn summary_view(s: UserSummary) -> (u64, Seq<char>, Seq<char>) {
    (s.id, s.username@, s.created_at@)
}

/// The user list the API returns: every user, in order, without passwords.
pub fn get_users(users: &Vec<User>) -> (list: Vec<UserSummary>)
    ensures
        list@.len() == users@.len(),
        forall|i: int| 0 <= i < users@.len() ==> summary_view(#[trigger] list@[i]) == summary_of(users@[i]),
{
    let mut list: Vec<UserSummary> = Vec::new();
    let mut k: usize = 0;
    while k < users.len()
        invariant
            k <= users@.len(),
            list@.len() == k,
            forall|i: int| 0 <= i < k ==> summary_view(#[trigger] list@[i]) == summary_of(users@[i]),
        decreases users@.len() - k,
    {
        list.push(UserSummary {
            id: users[k].id,
            username: users[k].username.clone(),
            created_at: users[k].created_at.clone(),
        });
        k = k + 1;
    }
    list
}

} // verus!

verus! {

/// `serde_json::Value`: one record of the configuration file as it is
/// stored. The library carries it through without looking inside.
#[verifier::external_type_specification]
#[verifier::external_body]
pub struct ExJsonValue(serde_json::Value);

/// One stored record of a list in the configuration file, with its `id`
/// field when that is a non-negative integer.
pub struct StoredEntry {
    pub id: Option<u64>,
    pub raw: serde_json::Value,
}

/// A list of the configuration file as it was found.
pub enum StoredList {
    /// The file could not be read.
    Unreadable,
    /// The file holds no such list.
    Missing,
    /// The records of the list, in order.
    Entries(Vec<StoredEntry>),
}

/// What a request to delete a record came to.
pub enum DeleteOutcome {
    /// The id in the path is not a number.
    InvalidId,
    /// The first user (id 1) cannot be deleted.
    ProtectedAdmin,
    /// The configuration file could not be read.
    Unreadable,
    /// The configuration holds no such list.
    NoList,
    /// No record has this id.
    NotFound,
    /// The records with this id are gone; the rest is to be saved.
    Deleted { id: u64, remaining: Vec<StoredEntry> },
}

/// Whether a record survives the deletion of `id`: records without an
/// integer id are kept.
pub open spec fn keeps_entry(e: StoredEntry, id: u64) -> bool {
    match e.id {
        Some(x) => x != id,
        None => true,
    }
}

/// The records that survive the deletion of `id`, in order.
pub open spec fn retained(entries: Seq<StoredEntry>, id: u64) -> Seq<StoredEntry>
    decreases entries.len(),
{
    if entries.len() == 0 {
        seq![]
    } else if keeps_entry(entries[0], id) {
        seq![entries[0]] + retained(entries.skip(1), id)
    } else {
        retained(entries.skip(1), id)
    }
}

/// Removes the records with id `id`, keeping the order of the others.
pub fn remove_entries(entries: Vec<StoredEntry>, id: u64) -> (remaining: Vec<StoredEntry>)
    ensures
        remaining@ == retained(entries@, id),
{
    let ghost all = entries@;
    let mut entries = entries;
    let mut i: usize = entries.len();
    while i > 0
        invariant
            i <= all.len(),
            entries@ == all.take(i as int) + retained(all.skip(i as int), id),
        decreases i,
    {
        let ghost before = entries@;
        assert(all.skip(i - 1).skip(1) =~= all.skip(i as int));
        assert(all.skip(i - 1)[0] == all[i - 1]);
        let drop_it = match entries[i - 1].id {
            Some(x) => x == id,
            None => false,
        };
        if drop_it {
            let _gone = entries.remove(i - 1);
            assert(entries@ =~= all.take(i - 1) + retained(all.skip(i - 1), id));
        } else {
            assert(entries@ =~= all.take(i - 1) + retained(all.skip(i - 1), id));
        }
        i = i - 1;
    }
    assert(all.skip(0) =~= all);
    assert(entries@ =~= retained(all, id));
    entries
}

/// What deleting the records with id `id` from a stored list gives.
pub open spec fn deletion_result(id: u64, list: StoredList, r: DeleteOutcome) -> bool {
    match list {
        StoredList::Unreadable => r is Unreadable,
        StoredList::Missing => r is NoList,
        StoredList::Entries(es) => {
            if retained(es@, id).len() < es@.len() {
                r matches DeleteOutcome::Deleted { id: d, remaining } && d == id
                    && remaining@ == retained(es@, id)
            } else {
                r is NotFound
            }
        },
    }
}

fn delete_entry(id: u64, list: StoredList) -> (r: DeleteOutcome)
    ensures
        deletion_result(id, list, r),
{
    match list {
        StoredList::Unreadable => DeleteOutcome::Unreadable,
        StoredList::Missing => DeleteOutcome::NoList,
        StoredList::Entries(es) => {
            let n = es.len();
            let remaining = remove_entries(es, id);
            if remaining.len() < n {
                DeleteOutcome::Deleted { id, remaining }
            } else {
                DeleteOutcome::NotFound
            }
        },
    }
}

/// Deletes a user: the id in the path must be a number other than 1, and
/// the users with that id are removed from the stored list.
pub fn delete_user(user_id_str: &str, users: StoredList) -> (r: DeleteOutcome)
    ensures
        match crate::text::parse_u64_spec(user_id_str@) {
            None => r is InvalidId,
            Some(id) => if id == 1 { r is ProtectedAdmin } else { deletion_result(id, users, r) },
        },
{
    match crate::text::parse_u64(user_id_str) {
        None => DeleteOutcome::InvalidId,
        Some(id) => {
            if id == 1 {
                DeleteOutcome::ProtectedAdmin
            } else {
                delete_entry(id, users)
            }
        },
    }
}

/// Revokes a token: the id in the path must be a number, and the tokens
/// with that id are removed from the stored list.
pub fn delete_token(token_id_str: &str, tokens: StoredList) -> (r: DeleteOutcome)
    ensures
        match crate::text::parse_u64_spec(token_id_str@) {
            None => r is InvalidId,
            Some(id) => deletion_result(id, tokens, r),
        },
{
    match crate::text::parse_u64(token_id_str) {
        None => DeleteOutcome::InvalidId,
        Some(id) => delete_entry(id, tokens),
    }
}

/// After a deletion, no stored record has the deleted id, and every record
/// with another id (or none) is still there.
pub proof fn deletion_removes_exactly(entries: Seq<StoredEntry>, id: u64)
    ensures
        forall|i: int| 0 <= i < retained(entries, id).len()
            ==> keeps_entry(#[trigger] retained(entries, id)[i], id),
        forall|i: int| 0 <= i < entries.len() && keeps_entry(#[trigger] entries[i], id)
            ==> retained(entries, id).contains(entries[i]),
    decreases entries.len(),
{
    if entries.len() > 0 {
        deletion_removes_exactly(entries.skip(1), id);
        let rest = retained(entries.skip(1), id);
        assert forall|i: int| 0 <= i < retained(entries, id).len()
            implies keeps_entry(#[trigger] retained(entries, id)[i], id) by {
            if keeps_entry(entries[0], id) && i > 0 {
                assert(retained(entries, id)[i] == rest[i - 1]);
            }
        }
        assert forall|i: int| 0 <= i < entries.len() && keeps_entry(#[trigger] entries[i], id)
            implies retained(entries, id).contains(entries[i]) by {
            if i == 0 {
                assert(retained(entries, id)[0] == entries[0]);
            } else {
                assert(entries.skip(1)[i - 1] == entries[i]);
                let j = choose|j: int| 0 <= j < rest.len() && rest[j] == entries[i];
                if keeps_entry(entries[0], id) {
                    assert(retained(entries, id)[j + 1] == rest[j]);
                } else {
                    assert(retained(entries, id)[j] == rest[j]);
                }
            }
        }
    }
}

} // verus!

verus! {

/// A request to create a user, as read from the JSON body: a field that is
/// missing or not a string is `None`.
pub struct NewUserRequest {
    pub username: Option<String>,
    pub password: Option<String>,
}

/// What a request to create a user came to.
pub enum CreateUserOutcome {
    /// The username or the password is missing or empty.
    MissingFields,
    /// A user with this name exists.
    UsernameTaken,
    /// Some user has id `u64::MAX`, so no next id can be counted.
    IdsExhausted,
    /// The new user, to be appended to the stored list.
    Created(User),
}

/// The text of an optional string field, empty when it is absent.
pub open spec fn field_text(o: Option<String>) -> Seq<char> {
    match o {
        Some(s) => s@,
        None => seq![],
    }
}

/// Whether some user has this name.
pub open spec fn username_taken(users: Seq<User>, name: Seq<char>) -> bool {
    exists|i: int| 0 <= i < users.len() && (#[trigger] users[i]).username@ == name
}

/// Whether a request to create a user gets as far as choosing an id.
pub open spec fn user_request_accepted(data: NewUserRequest, users: Seq<User>) -> bool {
    field_text(data.username).len() > 0 && field_text(data.password).len() > 0
        && !username_taken(users, field_text(data.username))
}

fn field_string(o: &Option<String>) -> (s: String)
    ensures
        s@ == field_text(*o),
{
    match o {
        Some(s) => s.clone(),
        None => String::new(),
    }
}

fn has_max_user_id(users: &Vec<User>) -> (b: bool)
    ensures
        b == !ids_below_max(user_ids(users@)),
{
    let mut k: usize = 0;
    while k < users.len()
        invariant
            k <= users@.len(),
            forall|j: int| 0 <= j < k ==> (#[trigger] users@[j]).id < u64::MAX,
        decreases users@.len() - k,
    {
        if users[k].id == u64::MAX {
            assert(user_ids(users@)[k as int] == u64::MAX);
            return true;
        }
        k = k + 1;
    }
    assert forall|i: int| 0 <= i < user_ids(users@).len() implies #[trigger] user_ids(users@)[i] < u64::MAX by {
        assert(user_ids(users@)[i] == users@[i].id);
    }
    false
}

fn has_max_token_id(tokens: &Vec<Token>) -> (b: bool)
    ensures
        b == !ids_below_max(token_ids(tokens@)),
{
    let mut k: usize = 0;
    while k < tokens.len()
        invariant
            k <= tokens@.len(),
            forall|j: int| 0 <= j < k ==> (#[trigger] tokens@[j]).id < u64::MAX,
        decreases tokens@.len() - k,
    {
        if tokens[k].id == u64::MAX {
            assert(token_ids(tokens@)[k as int] == u64::MAX);
            return true;
        }
        k = k + 1;
    }
    assert forall|i: int| 0 <= i < token_ids(tokens@).len() implies #[trigger] token_ids(tokens@)[i] < u64::MAX by {
        assert(token_ids(tokens@)[i] == tokens@[i].id);
    }
    false
}

fn find_username(users: &Vec<User>, name: &String) -> (b: bool)
    ensures
        b == username_taken(users@, name@),
{
    let mut k: usize = 0;
    while k < users.len()
        invariant
            k <= users@.len(),
            forall|j: int| 0 <= j < k ==> (#[trigger] users@[j]).username@ != name@,
        decreases users@.len() - k,
    {
        if users[k].username == *name {
            return true;
        }
        k = k + 1;
    }
    false
}

/// Creates a user whose creation time is `created_at`: both fields must be
/// non-empty and the name unused; the id is the next free one.
pub fn create_user_at(data: &NewUserRequest, users: &Vec<User>, created_at: String) -> (r: CreateUserOutcome)
    ensures
        (field_text(data.username).len() == 0 || field_text(data.password).len() == 0)
            ==> r is MissingFields,
        (field_text(data.username).len() > 0 && field_text(data.password).len() > 0
            && username_taken(users@, field_text(data.username))) ==> r is UsernameTaken,
        user_request_accepted(*data, users@) && !ids_below_max(user_ids(users@)) ==> r is IdsExhausted,
        user_request_accepted(*data, users@) && ids_below_max(user_ids(users@))
            ==> (r matches CreateUserOutcome::Created(u)
            && u.id == max_id(user_ids(users@)) + 1
            && u.username@ == field_text(data.username)
            && u.password@ == field_text(data.password)
            && u.created_at@ == created_at@),
{
    let username = field_string(&data.username);
    let password = field_string(&data.password);
    if username.as_str().is_empty() || password.as_str().is_empty() {
        return CreateUserOutcome::MissingFields;
    }
    if find_username(users, &username) {
        return CreateUserOutcome::UsernameTaken;
    }
    if has_max_user_id(users) {
        return CreateUserOutcome::IdsExhausted;
    }
    let id = get_next_user_id(users);
    CreateUserOutcome::Created(User { id, username, password, created_at })
}

/// Creates a user, stamped with the current time (UTC).
pub fn create_user(data: &NewUserRequest, users: &Vec<User>) -> (r: CreateUserOutcome)
    ensures
        (field_text(data.username).len() == 0 || field_text(data.password).len() == 0)
            ==> r is MissingFields,
        (field_text(data.username).len() > 0 && field_text(data.password).len() > 0
            && username_taken(users@, field_text(data.username))) ==> r is UsernameTaken,
        user_request_accepted(*data, users@) && !ids_below_max(user_ids(users@)) ==> r is IdsExhausted,
        user_request_accepted(*data, users@) && ids_below_max(user_ids(users@))
            ==> (r matches CreateUserOutcome::Created(u)
            && u.id == max_id(user_ids(users@)) + 1
            && u.username@ == field_text(data.username)
            && u.password@ == field_text(data.password)
            && is_utc_time_text(u.created_at@)),
{
    let username = field_string(&data.username);
    let password = field_string(&data.password);
    if username.as_str().is_empty() || password.as_str().is_empty() {
        return CreateUserOutcome::MissingFields;
    }
    if find_username(users, &username) {
        return CreateUserOutcome::UsernameTaken;
    }
    if has_max_user_id(users) {
        return CreateUserOutcome::IdsExhausted;
    }
    create_user_at(data, users, now_rfc3339())
}

/// The current time as whole seconds since the Unix epoch and the
/// nanoseconds past that second (`chrono::Utc::now`, read with
/// `DateTime::timestamp` and `DateTime::timestamp_subsec_nanos`). Nothing is
/// claimed of the values but that they name an instant chrono represents
/// (`DateTime::from_timestamp` gives the time back from them).
#[verifier::external_body]
fn utc_now_parts() -> (r: (i64, u32))
    ensures
        utc_rfc3339(r.0, r.1) is Some,
{
    let now = chrono::Utc::now();
    (now.timestamp(), now.timestamp_subsec_nanos())
}

/// The largest number of days a `chrono::TimeDelta` can hold: `i64::MAX`
/// milliseconds, in whole days.
pub const MAX_DELTA_DAYS: i64 = 106751991167;

/// A duration of whole days in seconds (`chrono::TimeDelta::try_days`, read
/// with `TimeDelta::num_seconds`): `None` exactly when the duration is beyond
/// `MAX_DELTA_DAYS` days either way, else 86400 seconds a day.
#[verifier::external_body]
fn day_seconds(days: i64) -> (r: Option<i64>)
    ensures
        r is Some <==> (-MAX_DELTA_DAYS <= days && days <= MAX_DELTA_DAYS),
        r matches Some(secs) ==> secs == days * 86400,
{
    match chrono::TimeDelta::try_days(days) {
        Some(d) => Some(d.num_seconds()),
        None => None,
    }
}

/// What `chrono::DateTime::<Utc>::from_timestamp` gives for seconds since
/// the Unix epoch and nanoseconds, printed with `DateTime::to_rfc3339`:
/// `None` when the instant is out of chrono's range.
pub uninterp spec fn utc_rfc3339(secs: i64, nanos: u32) -> Option<Seq<char>>;

/// The instant given as seconds since the Unix epoch and nanoseconds, as RFC
/// 3339 text in UTC (`chrono::DateTime::<Utc>::from_timestamp`, printed with
/// `DateTime::to_rfc3339`). The text is named, not stated: it depends on the
/// arguments alone.
#[verifier::external_body]
fn rfc3339_at(secs: i64, nanos: u32) -> (r: Option<String>)
    ensures
        r is Some <==> utc_rfc3339(secs, nanos) is Some,
        r matches Some(t) ==> Some(t@) == utc_rfc3339(secs, nanos),
{
    match chrono::DateTime::<chrono::Utc>::from_timestamp(secs, nanos) {
        Some(t) => Some(t.to_rfc3339()),
        None => None,
    }
}

/// Whether a text is the RFC 3339 form, in UTC, of some instant.
pub open spec fn is_utc_time_text(t: Seq<char>) -> bool {
    exists|secs: i64, nanos: u32| #[trigger] utc_rfc3339(secs, nanos) == Some(t)
}

/// The current time as RFC 3339 text in UTC.
fn now_rfc3339() -> (t: String)
    ensures
        is_utc_time_text(t@),
{
    let (secs, nanos) = utc_now_parts();
    match rfc3339_at(secs, nanos) {
        Some(text) => text,
        None => {
            assert(false);
            String::new()
        },
    }
}

} // verus!

verus! {

/// Whether the first 8 bytes of a token end on a character boundary (or the
/// token has at most 8 bytes), so that its preview can be cut there.
pub open spec fn preview_cut_ok(token: Seq<char>) -> bool {
    vstd::utf8::encode_utf8(token).len() > 8
        ==> vstd::utf8::is_char_boundary(vstd::utf8::encode_utf8(token), 8)
}

/// What a token listing shows of a token: its first 8 bytes and `...`, or
/// `****` when it is 8 bytes or shorter.
pub fn token_preview(token: &str) -> (p: String)
    requires
        preview_cut_ok(token@),
    ensures
        vstd::utf8::encode_utf8(token@).len() > 8 ==> vstd::utf8::encode_utf8(p@)
            == vstd::utf8::encode_utf8(token@).take(8) + vstd::utf8::encode_utf8("..."@),
        vstd::utf8::encode_utf8(token@).len() <= 8 ==> p@ == "****"@,
{
    let n = token.as_bytes().len();
    if n > 8 {
        let (head, _tail) = token.split_at(8);
        let mut p = String::from_str(head);
        p.append("...");
        proof {
            crate::text::encode_utf8_concat(head@, "..."@);
            assert(token.spec_bytes() == vstd::utf8::encode_utf8(token@));
            assert(head.spec_bytes() == vstd::utf8::encode_utf8(head@));
            assert(head.spec_bytes() =~= token.spec_bytes().subrange(0, 8));
            assert(p@ == head@ + "..."@);
            assert(vstd::utf8::encode_utf8(token@).subrange(0, 8) =~= vstd::utf8::encode_utf8(token@).take(8));
        }
        p
    } else {
        String::from_str("****")
    }
}

/// A token as listed by the API: its value shown only as a preview.
pub struct TokenSummary {
    pub id: u64,
    pub name: String,
    pub token_preview: String,
    pub created_at: String,
    pub expires_at: Option<String>,
    pub is_active: bool,
}

pub open spec fn all_previews_cut_ok(tokens: Seq<Token>) -> bool {
    forall|i: int| 0 <= i < tokens.len() ==> preview_cut_ok(#[trigger] tokens[i].token@)
}

/// Whether a listed token shows a token's fields and the preview of its value.
pub open spec fn summarizes(s: TokenSummary, t: Token) -> bool {
    &&& s.id == t.id
    &&& s.name@ == t.name@
    &&& s.created_at@ == t.created_at@
    &&& s.is_active == t.is_active
    &&& (s.expires_at is Some <==> t.expires_at is Some)
    &&& (t.expires_at matches Some(e) ==> s.expires_at->0@ == e@)
    &&& (vstd::utf8::encode_utf8(t.token@).len() > 8 ==> vstd::utf8::encode_utf8(s.token_preview@)
            == vstd::utf8::encode_utf8(t.token@).take(8) + vstd::utf8::encode_utf8("..."@))
    &&& (vstd::utf8::encode_utf8(t.token@).len() <= 8 ==> s.token_preview@ == "****"@)
}

fn clone_opt(o: &Option<String>) -> (r: Option<String>)
    ensures
        r is Some <==> o is Some,
        o matches Some(s) ==> r->0@ == s@,
{
    match o {
        Some(s) => Some(s.clone()),
        None => None,
    }
}

/// The token list the API returns: every token, in order, its value shown
/// only as a preview.
pub fn get_tokens(tokens: &Vec<Token>) -> (list: Vec<TokenSummary>)
    requires
        all_previews_cut_ok(tokens@),
    ensures
        list@.len() == tokens@.len(),
        forall|i: int| 0 <= i < tokens@.len() ==> summarizes(#[trigger] list@[i], tokens@[i]),
{
    let mut list: Vec<TokenSummary> = Vec::new();
    let mut k: usize = 0;
    while k < tokens.len()
        invariant
            k <= tokens@.len(),
            all_previews_cut_ok(tokens@),
            list@.len() == k,
            forall|i: int| 0 <= i < k ==> summarizes(#[trigger] list@[i], tokens@[i]),
        decreases tokens@.len() - k,
    {
        let t = &tokens[k];
        assert(preview_cut_ok(tokens@[k as int].token@));
        list.push(TokenSummary {
            id: t.id,
            name: t.name.clone(),
            token_preview: token_preview(t.token.as_str()),
            created_at: t.created_at.clone(),
            expires_at: clone_opt(&t.expires_at),
            is_active: t.is_active,
        });
        k = k + 1;
    }
    list
}

/// Whether a text is a UUID in hyphenated lower-case form: 36 characters,
/// `-` at positions 8, 13, 18 and 23, lower-case hexadecimal digits elsewhere.
pub open spec fn is_hyphenated_uuid(s: Seq<char>) -> bool {
    &&& s.len() == 36
    &&& forall|i: int| 0 <= i < 36 ==> {
        if i == 8 || i == 13 || i == 18 || i == 23 {
            #[trigger] s[i] == '-'
        } else {
            ('0' as u32 <= s[i] as u32 && s[i] as u32 <= '9' as u32)
                || ('a' as u32 <= s[i] as u32 && s[i] as u32 <= 'f' as u32)
        }
    }
}

/// A random version 4 UUID in its hyphenated text form (`uuid::Uuid::new_v4`,
/// printed with its `Display` impl, which writes the hyphenated lower-case
/// form).
#[verifier::external_body]
fn new_uuid_text() -> (s: String)
    ensures
        is_hyphenated_uuid(s@),
{
    uuid::Uuid::new_v4().to_string()
}

/// The text with every `-` removed.
pub open spec fn without_hyphens(s: Seq<char>) -> Seq<char>
    decreases s.len(),
{
    if s.len() == 0 {
        seq![]
    } else if s.last() == '-' {
        without_hyphens(s.drop_last())
    } else {
        without_hyphens(s.drop_last()).push(s.last())
    }
}

/// Removes every `-` (`str::replace("-", "")`).
pub fn remove_hyphens(s: &str) -> (r: String)
    ensures
        r@ == without_hyphens(s@),
{
    let cs = chars_of(s);
    let mut r = String::new();
    let mut k: usize = 0;
    while k < cs.len()
        invariant
            k <= cs@.len(),
            cs@ == s@,
            r@ == without_hyphens(cs@.take(k as int)),
        decreases cs@.len() - k,
    {
        assert(cs@.take(k + 1).drop_last() =~= cs@.take(k as int));
        if cs[k] != '-' {
            crate::text::push_char(&mut r, cs[k]);
        }
        k = k + 1;
    }
    assert(cs@.take(k as int) =~= s@);
    r
}

/// A request to create a token, as read from the JSON body: a name that is
/// missing or not a string is `None`, and so is a lifetime that is missing
/// or not a non-negative integer.
pub struct NewTokenRequest {
    pub name: Option<String>,
    pub expires_in: Option<u64>,
}

/// What a request to create a token came to.
pub enum CreateTokenOutcome {
    /// The name is missing or empty.
    MissingName,
    /// A token with this name exists.
    NameTaken,
    /// The expiry time cannot be represented.
    ExpiryOutOfRange,
    /// Some token has id `u64::MAX`, so no next id can be counted.
    IdsExhausted,
    /// The new token, to be appended to the stored list.
    Created(Token),
}

/// Lifetime of a token in days when the request gives none.
pub const DEFAULT_TOKEN_DAYS: u64 = 30;

/// The lifetime a request asks for, in days; 0 means the token never expires.
pub open spec fn requested_days(data: NewTokenRequest) -> u64 {
    match data.expires_in {
        Some(d) => d,
        None => DEFAULT_TOKEN_DAYS,
    }
}

/// Whether some token has this name.
pub open spec fn token_name_taken(tokens: Seq<Token>, name: Seq<char>) -> bool {
    exists|i: int| 0 <= i < tokens.len() && (#[trigger] tokens[i]).name@ == name
}

/// Whether a request to create a token gets as far as choosing an id.
pub open spec fn token_request_accepted(data: NewTokenRequest, tokens: Seq<Token>) -> bool {
    field_text(data.name).len() > 0 && !token_name_taken(tokens, field_text(data.name))
}

/// The lifetime as the signed day count handed to chrono (`as i64`, which
/// wraps above `i64::MAX`).
pub open spec fn days_delta(days: u64) -> i64 {
    days as i64
}

fn find_token_name(tokens: &Vec<Token>, name: &String) -> (b: bool)
    ensures
        b == token_name_taken(tokens@, name@),
{
    let mut k: usize = 0;
    while k < tokens.len()
        invariant
            k <= tokens@.len(),
            forall|j: int| 0 <= j < k ==> (#[trigger] tokens@[j]).name@ != name@,
        decreases tokens@.len() - k,
    {
        if tokens[k].name == *name {
            return true;
        }
        k = k + 1;
    }
    false
}

/// The value given to a new token: `zbx_` followed by a UUID without its
/// hyphens.
pub open spec fn token_value(uuid_text: Seq<char>) -> Seq<char> {
    "zbx_"@ + without_hyphens(uuid_text)
}

/// The record of a new, active token.
pub fn issue_token(id: u64, name: String, uuid_text: &str, created_at: String, expires_at: Option<String>) -> (t: Token)
    ensures
        t.id == id,
        t.name@ == name@,
        t.token@ == token_value(uuid_text@),
        t.created_at@ == created_at@,
        t.expires_at == expires_at,
        t.is_active,
{
    let mut token = String::from_str("zbx_");
    let bare = remove_hyphens(uuid_text);
    token.append(bare.as_str());
    Token { id, name, token, created_at, expires_at, is_active: true }
}

/// The second at which a token made at `now_secs` with a lifetime of `days`
/// expires (the day count read as a signed number, as it is handed to chrono).
pub open spec fn expiry_secs(now_secs: i64, days: u64) -> int {
    now_secs + days_delta(days) * 86400
}

/// The expiry time, as RFC 3339 text, of a token made at `now_secs` seconds
/// and `now_nanos` nanoseconds with a lifetime of `days`: `None` when the
/// lifetime is beyond what a duration holds or the time is out of range.
pub open spec fn expiry_text(now_secs: i64, now_nanos: u32, days: u64) -> Option<Seq<char>> {
    if -MAX_DELTA_DAYS <= days_delta(days) <= MAX_DELTA_DAYS && i64::MIN <= expiry_secs(now_secs, days)
        <= i64::MAX {
        utc_rfc3339(expiry_secs(now_secs, days) as i64, now_nanos)
    } else {
        None
    }
}

/// Whether an accepted token request gets past computing the expiry time.
pub open spec fn expiry_ok(data: NewTokenRequest, now_secs: i64, now_nanos: u32) -> bool {
    requested_days(data) == 0 || expiry_text(now_secs, now_nanos, requested_days(data)) is Some
}

/// Creates a token at a given time: the name must be non-empty and unused;
/// the value is `zbx_` and the given UUID without hyphens; it expires the
/// requested number of days (30 when none is given) after `now_secs` and
/// `now_nanos`, or never for 0; it was created at `created_at`.
pub fn create_token_at(
    data: &NewTokenRequest,
    tokens: &Vec<Token>,
    uuid_text: &str,
    now_secs: i64,
    now_nanos: u32,
    created_at: String,
) -> (r: CreateTokenOutcome)
    ensures
        r is MissingName <==> field_text(data.name).len() == 0,
        r is NameTaken <==> (field_text(data.name).len() > 0
            && token_name_taken(tokens@, field_text(data.name))),
        r is ExpiryOutOfRange <==> (token_request_accepted(*data, tokens@)
            && !expiry_ok(*data, now_secs, now_nanos)),
        r is IdsExhausted <==> (token_request_accepted(*data, tokens@) && expiry_ok(*data, now_secs, now_nanos)
            && !ids_below_max(token_ids(tokens@))),
        token_request_accepted(*data, tokens@) && expiry_ok(*data, now_secs, now_nanos)
            && ids_below_max(token_ids(tokens@)) ==> r is Created,
        r matches CreateTokenOutcome::Created(t) ==> {
            &&& t.id == max_id(token_ids(tokens@)) + 1
            &&& t.name@ == field_text(data.name)
            &&& t.token@ == token_value(uuid_text@)
            &&& t.created_at@ == created_at@
            &&& opt_text(t.expires_at) == (if requested_days(*data) == 0 {
                None
            } else {
                expiry_text(now_secs, now_nanos, requested_days(*data))
            })
            &&& t.is_active
        },
{
    let name = field_string(&data.name);
    let expires_in: u64 = match data.expires_in {
        Some(d) => d,
        None => DEFAULT_TOKEN_DAYS,
    };
    if name.as_str().is_empty() {
        return CreateTokenOutcome::MissingName;
    }
    if find_token_name(tokens, &name) {
        return CreateTokenOutcome::NameTaken;
    }
    let expires_at = if expires_in > 0 {
        let days = expires_in as i64;
        match day_seconds(days) {
            None => {
                return CreateTokenOutcome::ExpiryOutOfRange;
            },
            Some(delta) => match now_secs.checked_add(delta) {
                None => {
                    return CreateTokenOutcome::ExpiryOutOfRange;
                },
                Some(at) => match rfc3339_at(at, now_nanos) {
                    None => {
                        return CreateTokenOutcome::ExpiryOutOfRange;
                    },
                    Some(text) => Some(text),
                },
            },
        }
    } else {
        None
    };
    if has_max_token_id(tokens) {
        return CreateTokenOutcome::IdsExhausted;
    }
    let id = get_next_token_id(tokens);
    CreateTokenOutcome::Created(issue_token(id, name, uuid_text, created_at, expires_at))
}

/// Whether a token was created at some instant and, for a positive
/// lifetime, expires `days` days after that same instant (never for 0).
pub open spec fn expires_days_after_creation(t: Token, days: u64) -> bool {
    exists|secs: i64, nanos: u32| {
        &&& #[trigger] utc_rfc3339(secs, nanos) == Some(t.created_at@)
        &&& opt_text(t.expires_at) == (if days == 0 { None } else { expiry_text(secs, nanos, days) })
    }
}

/// Creates a token now, with a random UUID: as `create_token_at`, at one
/// reading of the clock, so that the token is created at that reading and
/// expires the requested number of days after it.
pub fn create_token(data: &NewTokenRequest, tokens: &Vec<Token>) -> (r: CreateTokenOutcome)
    ensures
        r is MissingName <==> field_text(data.name).len() == 0,
        r is NameTaken <==> (field_text(data.name).len() > 0
            && token_name_taken(tokens@, field_text(data.name))),
        r is ExpiryOutOfRange ==> token_request_accepted(*data, tokens@) && requested_days(*data) > 0,
        token_request_accepted(*data, tokens@) && requested_days(*data) > 0
            && !(-MAX_DELTA_DAYS <= days_delta(requested_days(*data)) <= MAX_DELTA_DAYS)
            ==> r is ExpiryOutOfRange,
        r is IdsExhausted <==> (token_request_accepted(*data, tokens@) && !ids_below_max(token_ids(tokens@))
            && !(r is ExpiryOutOfRange)),
        token_request_accepted(*data, tokens@) && ids_below_max(token_ids(tokens@))
            ==> (r is Created || r is ExpiryOutOfRange),
        token_request_accepted(*data, tokens@) && ids_below_max(token_ids(tokens@))
            && requested_days(*data) == 0 ==> r is Created,
        r matches CreateTokenOutcome::Created(t) ==> {
            &&& t.id == max_id(token_ids(tokens@)) + 1
            &&& t.name@ == field_text(data.name)
            &&& (exists|u: Seq<char>| is_hyphenated_uuid(u) && t.token@ == #[trigger] token_value(u))
            &&& is_utc_time_text(t.created_at@)
            &&& (requested_days(*data) == 0 ==> t.expires_at is None)
            &&& (requested_days(*data) > 0 ==> exists|secs: i64, nanos: u32|
                #[trigger] expiry_text(secs, nanos, requested_days(*data)) is Some
                && opt_text(t.expires_at) == expiry_text(secs, nanos, requested_days(*data)))
            &&& expires_days_after_creation(t, requested_days(*data))
            &&& t.is_active
        },
{
    let uuid_text = new_uuid_text();
    let (now_secs, now_nanos) = utc_now_parts();
    let created_at = match rfc3339_at(now_secs, now_nanos) {
        Some(text) => text,
        None => {
            assert(false);
            String::new()
        },
    };
    let r = create_token_at(data, tokens, uuid_text.as_str(), now_secs, now_nanos, created_at);
    assert(r is Created && requested_days(*data) > 0 ==> expiry_text(now_secs, now_nanos,
        requested_days(*data)) is Some);
    assert(r is Created ==> utc_rfc3339(now_secs, now_nanos) == Some(created_at@));
    r
}

/// The account every new configuration starts with: user 1, `admin` with
/// password `admin`, created now (local time).
pub fn default_admin_user() -> (u: User)
    ensures
        u.id == 1,
        u.username@ == "admin"@,
        u.password@ == "admin"@,
        crate::web::is_rfc3339_stamp(u.created_at@),
{
    User {
        id: 1,
        username: String::from_str("admin"),
        password: String::from_str("admin"),
        created_at: crate::web::local_now_rfc3339(),
    }
}

/// Whether no two users share a name.
pub open spec fn distinct_usernames(users: Seq<User>) -> bool {
    forall|i: int, j: int| 0 <= i < j < users.len() ==> (#[trigger] users[i]).username@ != (#[trigger] users[j]).username@
}

/// Whether no two users share an id.
pub open spec fn distinct_user_ids(users: Seq<User>) -> bool {
    forall|i: int, j: int| 0 <= i < j < users.len() ==> (#[trigger] users[i]).id != (#[trigger] users[j]).id
}

/// A created user can log in with the name and password it was created
/// with, and adding it keeps names and ids distinct.
pub proof fn created_user_can_log_in(users: Seq<User>, data: NewUserRequest, u: User)
    requires
        user_request_accepted(data, users),
        u.id == max_id(user_ids(users)) + 1,
        u.username@ == field_text(data.username),
        u.password@ == field_text(data.password),
    ensures
        credentials_match(users.push(u), field_text(data.username), field_text(data.password)),
        distinct_usernames(users) ==> distinct_usernames(users.push(u)),
        distinct_user_ids(users) ==> distinct_user_ids(users.push(u)),
{
    let all = users.push(u);
    assert(all[users.len() as int] == u);
    next_id_is_fresh(user_ids(users));
    assert forall|i: int| 0 <= i < users.len() implies #[trigger] users[i].id != u.id by {
        assert(user_ids(users)[i] == users[i].id);
    }
    assert forall|i: int| 0 <= i < users.len() implies #[trigger] users[i].username@ != u.username@ by {
        if users[i].username@ == u.username@ {
            assert(username_taken(users, field_text(data.username)));
        }
    }
    if distinct_usernames(users) {
        assert forall|i: int, j: int| 0 <= i < j < all.len() implies (#[trigger] all[i]).username@ != (#[trigger] all[j]).username@ by {
            if j == users.len() {
                assert(all[i] == users[i]);
            } else {
                assert(all[i] == users[i] && all[j] == users[j]);
            }
        }
    }
    if distinct_user_ids(users) {
        assert forall|i: int, j: int| 0 <= i < j < all.len() implies (#[trigger] all[i]).id != (#[trigger] all[j]).id by {
            if j == users.len() {
                assert(all[i] == users[i]);
            } else {
                assert(all[i] == users[i] && all[j] == users[j]);
            }
        }
    }
}

proof fn lemma_without_hyphens_hex(s: Seq<char>)
    requires
        forall|i: int| 0 <= i < s.len() ==> (#[trigger] s[i] == '-' || is_lower_hex(s[i])),
    ensures
        forall|i: int| 0 <= i < without_hyphens(s).len() ==> is_lower_hex(#[trigger] without_hyphens(s)[i]),
        without_hyphens(s).len() == s.len() - hyphen_count(s),
    decreases s.len(),
{
    if s.len() > 0 {
        lemma_without_hyphens_hex(s.drop_last());
        let r = without_hyphens(s.drop_last());
        if s.last() != '-' {
            assert forall|i: int| 0 <= i < without_hyphens(s).len() implies is_lower_hex(#[trigger] without_hyphens(s)[i]) by {
                if i < r.len() {
                    assert(without_hyphens(s)[i] == r[i]);
                }
            }
        }
    }
}

/// Whether `c` is a lower-case hexadecimal digit.
pub open spec fn is_lower_hex(c: char) -> bool {
    ('0' as u32 <= c as u32 && c as u32 <= '9' as u32) || ('a' as u32 <= c as u32 && c as u32 <= 'f' as u32)
}

/// The number of `-` in a text.
pub open spec fn hyphen_count(s: Seq<char>) -> int
    decreases s.len(),
{
    if s.len() == 0 { 0 } else { hyphen_count(s.drop_last()) + if s.last() == '-' { 1int } else { 0int } }
}

/// Every token value is `zbx_` followed by 32 lower-case hexadecimal digits.
pub proof fn token_values_are_prefixed_hex(u: Seq<char>)
    requires
        is_hyphenated_uuid(u),
    ensures
        token_value(u).len() == 36,
        token_value(u).take(4) == "zbx_"@,
        forall|i: int| 4 <= i < 36 ==> is_lower_hex(#[trigger] token_value(u)[i]),
{
    lemma_without_hyphens_hex(u);
    assert(hyphen_count(u) == 4) by {
        lemma_hyphen_count_uuid(u, 36);
        assert(u.take(36) =~= u);
    }
    reveal_strlit("zbx_");
    let t = token_value(u);
    assert(t.take(4) =~= "zbx_"@);
    assert forall|i: int| 4 <= i < 36 implies is_lower_hex(#[trigger] t[i]) by {
        assert(t[i] == without_hyphens(u)[i - 4]);
    }
}

proof fn lemma_hyphen_count_uuid(u: Seq<char>, k: int)
    requires
        is_hyphenated_uuid(u),
        0 <= k <= 36,
    ensures
        hyphen_count(u.take(k)) == (if k > 8 { 1int } else { 0int }) + (if k > 13 { 1int } else { 0int })
            + (if k > 18 { 1int } else { 0int }) + (if k > 23 { 1int } else { 0int }),
    decreases k,
{
    if k > 0 {
        lemma_hyphen_count_uuid(u, k - 1);
        assert(u.take(k).drop_last() =~= u.take(k - 1));
        assert(u.take(k).last() == u[k - 1]);
    }
}

/// Which kind of stored record a request is about.
pub enum RecordKind {
    User,
    Token,
}

/// The status and text of the reply to a deletion: an error message, or,
/// once the remaining records are saved, the success message.
pub fn delete_reply(outcome: &DeleteOutcome, kind: RecordKind) -> (r: (HttpStatus, String))
    ensures
        outcome is InvalidId ==> r.0 == HttpStatus::BadRequest
            && r.1@ == (if kind is User { "Invalid user ID"@ } else { "Invalid token ID"@ }),
        outcome is ProtectedAdmin ==> r.0 == HttpStatus::Forbidden && r.1@ == "Cannot delete admin user"@,
        outcome is Unreadable ==> r.0 == HttpStatus::InternalServerError
            && r.1@ == "Failed to read configuration"@,
        outcome is NoList ==> r.0 == HttpStatus::NotFound
            && r.1@ == (if kind is User { "No users found"@ } else { "No tokens found"@ }),
        outcome is NotFound ==> r.0 == HttpStatus::NotFound
            && r.1@ == (if kind is User { "User not found"@ } else { "Token not found"@ }),
        outcome matches DeleteOutcome::Deleted { id, .. } ==> r.0 == HttpStatus::Success
            && r.1@ == (if kind is User {
                "User "@ + decimal(id as nat) + " deleted successfully"@
            } else {
                "Token "@ + decimal(id as nat) + " revoked successfully"@
            }),
{
    let user = match kind {
        RecordKind::User => true,
        RecordKind::Token => false,
    };
    match outcome {
        DeleteOutcome::InvalidId => (HttpStatus::BadRequest, if user {
            String::from_str("Invalid user ID")
        } else {
            String::from_str("Invalid token ID")
        }),
        DeleteOutcome::ProtectedAdmin => (HttpStatus::Forbidden, String::from_str("Cannot delete admin user")),
        DeleteOutcome::Unreadable => (HttpStatus::InternalServerError, String::from_str("Failed to read configuration")),
        DeleteOutcome::NoList => (HttpStatus::NotFound, if user {
            String::from_str("No users found")
        } else {
            String::from_str("No tokens found")
        }),
        DeleteOutcome::NotFound => (HttpStatus::NotFound, if user {
            String::from_str("User not found")
        } else {
            String::from_str("Token not found")
        }),
        DeleteOutcome::Deleted { id, .. } => {
            let mut m = if user { String::from_str("User ") } else { String::from_str("Token ") };
            push_decimal(&mut m, *id);
            if user {
                m.append(" deleted successfully");
            } else {
                m.append(" revoked successfully");
            }
            (HttpStatus::Success, m)
        },
    }
}

/// The status and text of the reply to a request to create a user (for a
/// created user, the text once it is saved).
pub fn create_user_reply(outcome: &CreateUserOutcome) -> (r: (HttpStatus, String))
    requires
        !(outcome is IdsExhausted),
    ensures
        outcome is MissingFields ==> r.0 == HttpStatus::BadRequest && r.1@ == "Username and password are required"@,
        outcome is UsernameTaken ==> r.0 == HttpStatus::Conflict && r.1@ == "Username already exists"@,
        outcome is Created ==> r.0 == HttpStatus::Success && r.1@ == "User created successfully"@,
{
    match outcome {
        CreateUserOutcome::MissingFields => (HttpStatus::BadRequest, String::from_str("Username and password are required")),
        CreateUserOutcome::UsernameTaken => (HttpStatus::Conflict, String::from_str("Username already exists")),
        _ => (HttpStatus::Success, String::from_str("User created successfully")),
    }
}

/// The status and error text of the reply to a request to create a token
/// that was refused.
pub fn create_token_reply(outcome: &CreateTokenOutcome) -> (r: (HttpStatus, String))
    requires
        outcome is MissingName || outcome is NameTaken,
    ensures
        outcome is MissingName ==> r.0 == HttpStatus::BadRequest && r.1@ == "Token name is required"@,
        outcome is NameTaken ==> r.0 == HttpStatus::Conflict && r.1@ == "Token name already exists"@,
{
    match outcome {
        CreateTokenOutcome::MissingName => (HttpStatus::BadRequest, String::from_str("Token name is required")),
        _ => (HttpStatus::Conflict, String::from_str("Token name already exists")),
    }
}

/// What could not be done with the configuration file.
pub enum StoreFailure {
    /// Reading it to show the settings.
    ReadSettings,
    /// Reading it to merge an update of the settings.
    ReadForUpdate,
    /// Writing the updated settings.
    WriteSettings,
    /// Reading it to add a user or a token.
    ReadRecords,
    /// Writing it with a new user.
    SaveUser,
    /// Writing it with a new token.
    SaveToken,
    /// Writing it after a deletion.
    SaveRecords,
}

/// The text of the error reply when the configuration file could not be
/// read or written.
pub open spec fn store_failure_text(f: StoreFailure) -> Seq<char> {
    match f {
        StoreFailure::ReadSettings => "Failed to read configuration file"@,
        StoreFailure::ReadForUpdate => "Failed to read existing configuration"@,
        StoreFailure::WriteSettings => "Failed to write configuration file"@,
        StoreFailure::ReadRecords => "Failed to read configuration"@,
        StoreFailure::SaveUser => "Failed to save user"@,
        StoreFailure::SaveToken => "Failed to save token"@,
        StoreFailure::SaveRecords => "Failed to save configuration"@,
    }
}

/// The status and error text of the reply when the configuration file could
/// not be read or written: always an internal server error.
pub fn store_failure_reply(f: StoreFailure) -> (r: (HttpStatus, String))
    ensures
        r.0 == HttpStatus::InternalServerError,
        r.1@ == store_failure_text(f),
{
    let text = match f {
        StoreFailure::ReadSettings => String::from_str("Failed to read configuration file"),
        StoreFailure::ReadForUpdate => String::from_str("Failed to read existing configuration"),
        StoreFailure::WriteSettings => String::from_str("Failed to write configuration file"),
        StoreFailure::ReadRecords => String::from_str("Failed to read configuration"),
        StoreFailure::SaveUser => String::from_str("Failed to save user"),
        StoreFailure::SaveToken => String::from_str("Failed to save token"),
        StoreFailure::SaveRecords => String::from_str("Failed to save configuration"),
    };
    (HttpStatus::InternalServerError, text)
}

} // verus!
