//! The pure rules of the entry index: reading the stored database salt, the
//! SQLCipher key, recognising a wrong password in SQLite's messages, and the
//! UPDATE statement for an entry.

use vstd::prelude::*;
use vstd::string::StringExecFns;
use vstd::string::StringSliceAdditionalSpecFns;
use vstd::string::StrSliceExecFns;

use crate::crypto::{derive_key, spec_derive_key, to_array16, CryptoError, KEY_LEN};

verus! {

/// Errors of the index database's rules.
#[derive(Debug, Clone, Copy, PartialEq, Eq, Structural)]
pub enum DbError {
    /// The stored salt file does not hold exactly 16 bytes.
    CorruptedSalt,
    /// SQLite reported that the key does not open the database.
    WrongPassword,
    /// Opening the database failed for another reason.
    OpenFailed,
    /// Running the migrations failed for another reason.
    MigrationFailed,
    /// An update named neither a name nor a filename.
    NoFieldsToUpdate,
}

/// Reads the database salt from the bytes of the salt file.
pub fn parse_salt_file(bytes: &[u8]) -> (res: Result<[u8; 16], DbError>)
    ensures
        res is Ok <==> bytes@.len() == 16,
        res matches Ok(salt) ==> salt@ == bytes@,
        res matches Err(e) ==> e == DbError::CorruptedSalt,
{
    if bytes.len() == 16 {
        Ok(to_array16(bytes))
    } else {
        Err(DbError::CorruptedSalt)
    }
}

/// The lower-case hexadecimal digit of a value below 16.
pub open spec fn hex_digit(n: int) -> char {
    if n < 10 {
        (48 + n) as char
    } else {
        (87 + n) as char
    }
}

/// Lower-case hexadecimal encoding, two digits per byte, high nibble first.
pub open spec fn spec_hex_lower(bytes: Seq<u8>) -> Seq<char>
    decreases bytes.len(),
{
    if bytes.len() == 0 {
        Seq::empty()
    } else {
        seq![hex_digit(bytes[0] as int / 16), hex_digit(bytes[0] as int % 16)] + spec_hex_lower(bytes.skip(1))
    }
}

/// Hex encoding doubles the length: two digits per byte.
pub proof fn lemma_hex_lower_len(bytes: Seq<u8>)
    ensures
        spec_hex_lower(bytes).len() == 2 * bytes.len(),
    decreases bytes.len(),
{
    if bytes.len() > 0 {
        lemma_hex_lower_len(bytes.skip(1));
    }
}

/// Calls `hex::encode`, which writes each byte as two lower-case hexadecimal
/// digits, high nibble first (table `HEX_CHARS_LOWER` in the crate's source).
#[verifier::external_body]
fn hex_encode(bytes: &[u8]) -> (res: String)
    ensures
        res@ == spec_hex_lower(bytes@),
{
    hex::encode(bytes)
}

/// The SQLCipher key for the index: the Argon2id key derived from the master
/// password and the database salt, hex-encoded in lower case.
pub fn db_key(password: &str, salt: &[u8; 16]) -> (res: Result<String, CryptoError>)
    ensures
        match res {
            Ok(key) => spec_derive_key(password.spec_bytes(), salt@) matches Ok(k) && key@ == spec_hex_lower(k)
                && key@.len() == 2 * KEY_LEN,
            Err(e) => spec_derive_key(password.spec_bytes(), salt@) == Err::<Seq<u8>, CryptoError>(e),
        },
{
    match derive_key(password, salt) {
        Ok(key_bytes) => {
            proof {
                lemma_hex_lower_len(key_bytes@);
            }
            Ok(hex_encode(&key_bytes))
        },
        Err(e) => Err(e),
    }
}

/// Whether `needle` occurs in `haystack` as a contiguous run of characters.
pub open spec fn contains_text(haystack: Seq<char>, needle: Seq<char>) -> bool {
    exists|i: int| 0 <= i && i + needle.len() <= haystack.len() && #[trigger] haystack.subrange(i, i + needle.len()) == needle
}

/// Whether `needle` occurs in `haystack`.
pub fn text_contains(haystack: &str, needle: &str) -> (res: bool)
    ensures
        res == contains_text(haystack@, needle@),
{
    let h = haystack.unicode_len();
    let n = needle.unicode_len();
    if n > h {
        proof {
            assert forall|i: int| 0 <= i && i + needle@.len() <= haystack@.len() implies
                #[trigger] haystack@.subrange(i, i + needle@.len()) != needle@ by {}
        }
        return false;
    }
    let mut i: usize = 0;
    while i <= h - n
        invariant
            h == haystack@.len(),
            n == needle@.len(),
            n <= h,
            i <= h - n + 1,
            forall|k: int| 0 <= k < i ==> #[trigger] haystack@.subrange(k, k + n) != needle@,
        decreases h - n + 1 - i,
    {
        let mut j: usize = 0;
        let mut same = true;
        while j < n
            invariant
                h == haystack@.len(),
                n == needle@.len(),
                i + n <= h,
                j <= n,
                same == (forall|m: int| 0 <= m < j ==> haystack@[i + m] == needle@[m]),
            decreases n - j,
        {
            if haystack.get_char(i + j) != needle.get_char(j) {
                same = false;
            }
            j = j + 1;
        }
        if same {
            assert(haystack@.subrange(i as int, i + n) =~= needle@);
            return true;
        }
        proof {
            if n == 0 {
                assert(haystack@.subrange(i as int, i + n) =~= needle@);
            } else {
                let m = choose|m: int| 0 <= m < n && haystack@[i + m] != needle@[m];
                assert(haystack@.subrange(i as int, i + n)[m] != needle@[m]);
            }
        }
        i = i + 1;
    }
    false
}


/// The error that a failed migration maps to: a wrong password when SQLite's
/// message says that the file is not a database, that the HMAC check failed
/// or that a page could not be decrypted.
pub open spec fn spec_classify_migration_error(message: Seq<char>) -> DbError {
    if contains_text(message, "file is not a database"@) || contains_text(message, "hmac check failed"@)
        || contains_text(message, "decrypting page"@) {
        DbError::WrongPassword
    } else {
        DbError::MigrationFailed
    }
}

/// Maps the message of a failed migration to an error.
pub fn classify_migration_error(message: &str) -> (res: DbError)
    ensures
        res == spec_classify_migration_error(message@),
{
    if text_contains(message, "file is not a database") || text_contains(message, "hmac check failed")
        || text_contains(message, "decrypting page") {
        DbError::WrongPassword
    } else {
        DbError::MigrationFailed
    }
}

/// Maps the message of a failed open to an error: a wrong password when
/// SQLite's message says that the file is not a database.
pub fn classify_open_error(message: &str) -> (res: DbError)
    ensures
        res == (if contains_text(message@, "file is not a database"@) {
            DbError::WrongPassword
        } else {
            DbError::OpenFailed
        }),
{
    if text_contains(message, "file is not a database") {
        DbError::WrongPassword
    } else {
        DbError::OpenFailed
    }
}

/// A value bound to a `?` placeholder of a statement.
pub enum SqlParam {
    Text(String),
    Integer(i64),
}

/// The model of a statement parameter.
pub enum SqlParamView {
    Text(Seq<char>),
    Integer(i64),
}

impl View for SqlParam {
    type V = SqlParamView;

    open spec fn view(&self) -> SqlParamView {
        match self {
            SqlParam::Text(s) => SqlParamView::Text(s@),
            SqlParam::Integer(i) => SqlParamView::Integer(*i),
        }
    }
}

/// An SQL statement with its parameters, in placeholder order.
pub struct UpdateStatement {
    pub sql: String,
    pub params: Vec<SqlParam>,
}

/// The view of an optional text argument.
pub open spec fn opt_text(o: Option<&str>) -> Option<Seq<char>> {
    match o {
        Some(s) => Some(s@),
        None => None,
    }
}

/// The SQL text of the UPDATE for the given fields: the assignments of the
/// present fields, name first, joined by ", ".
pub open spec fn spec_update_sql(name: Option<Seq<char>>, filename: Option<Seq<char>>) -> Seq<char> {
    let assignments = match (name, filename) {
        (Some(_), Some(_)) => "name = ?"@ + ", "@ + "filename = ?"@,
        (Some(_), None) => "name = ?"@,
        (None, Some(_)) => "filename = ?"@,
        (None, None) => Seq::empty(),
    };
    "UPDATE entries SET "@ + assignments + " WHERE id = ?"@
}

/// The parameters of the UPDATE: the present fields in the order of their
/// assignments, then the id.
pub open spec fn spec_update_params(id: i64, name: Option<Seq<char>>, filename: Option<Seq<char>>) -> Seq<SqlParamView> {
    let first = match name {
        Some(n) => seq![SqlParamView::Text(n)],
        None => Seq::empty(),
    };
    let second = match filename {
        Some(f) => seq![SqlParamView::Text(f)],
        None => Seq::empty(),
    };
    first + second + seq![SqlParamView::Integer(id)]
}

/// The UPDATE binds the given name first and the given filename just before
/// the id, each exactly as given, and the id last; its text assigns exactly the
/// given fields.
pub proof fn lemma_update_binds_given_values(id: i64, name: Option<Seq<char>>, filename: Option<Seq<char>>)
    ensures
        spec_update_params(id, name, filename).len() == 1 + (if name is Some { 1int } else { 0int })
            + (if filename is Some { 1int } else { 0int }),
        spec_update_params(id, name, filename).last() == SqlParamView::Integer(id),
        name matches Some(n) ==> spec_update_params(id, name, filename)[0] == SqlParamView::Text(n),
        filename matches Some(f) ==> spec_update_params(id, name, filename)[
            spec_update_params(id, name, filename).len() - 2] == SqlParamView::Text(f),
        name is Some && filename is Some ==> spec_update_sql(name, filename)
            == "UPDATE entries SET "@ + "name = ?"@ + ", "@ + "filename = ?"@ + " WHERE id = ?"@,
        name is Some && filename is None ==> spec_update_sql(name, filename)
            == "UPDATE entries SET "@ + "name = ?"@ + " WHERE id = ?"@,
        name is None && filename is Some ==> spec_update_sql(name, filename)
            == "UPDATE entries SET "@ + "filename = ?"@ + " WHERE id = ?"@,
{
    assert("UPDATE entries SET "@ + ("name = ?"@ + ", "@ + "filename = ?"@) + " WHERE id = ?"@
        =~= "UPDATE entries SET "@ + "name = ?"@ + ", "@ + "filename = ?"@ + " WHERE id = ?"@);
}

/// Builds the UPDATE statement of an entry for the fields that are given;
/// fails when none is.
pub fn update_statement(id: i64, name: Option<&str>, filename: Option<&str>) -> (res: Result<UpdateStatement, DbError>)
    ensures
        res is Err <==> (name is None && filename is None),
        res matches Err(e) ==> e == DbError::NoFieldsToUpdate,
        res matches Ok(st) ==> st.sql@ == spec_update_sql(opt_text(name), opt_text(filename))
            && st.params@.map_values(|p: SqlParam| p@) == spec_update_params(id, opt_text(name), opt_text(filename)),
        res matches Ok(st) ==> st.params@.len() == 1 + (if name is Some { 1int } else { 0int })
            + (if filename is Some { 1int } else { 0int }),
        res matches Ok(st) ==> st.params@[st.params@.len() - 1]@ == SqlParamView::Integer(id),
        name matches Some(n) ==> (res matches Ok(st) && st.params@[0]@ == SqlParamView::Text(n@)),
        filename matches Some(f) ==> (res matches Ok(st) && st.params@[st.params@.len() - 2]@ == SqlParamView::Text(f@)),
        name is Some && filename is Some ==> (res matches Ok(st)
            && st.sql@ == "UPDATE entries SET "@ + "name = ?"@ + ", "@ + "filename = ?"@ + " WHERE id = ?"@),
        name is Some && filename is None ==> (res matches Ok(st)
            && st.sql@ == "UPDATE entries SET "@ + "name = ?"@ + " WHERE id = ?"@),
        name is None && filename is Some ==> (res matches Ok(st)
            && st.sql@ == "UPDATE entries SET "@ + "filename = ?"@ + " WHERE id = ?"@),
{
    if name.is_none() && filename.is_none() {
        return Err(DbError::NoFieldsToUpdate);
    }
    let mut sql = String::from_str("UPDATE entries SET ");
    let mut params: Vec<SqlParam> = Vec::new();
    match name {
        Some(n) => {
            sql.append("name = ?");
            params.push(SqlParam::Text(String::from_str(n)));
        },
        None => {},
    }
    match filename {
        Some(f) => {
            if name.is_some() {
                sql.append(", ");
            }
            sql.append("filename = ?");
            params.push(SqlParam::Text(String::from_str(f)));
        },
        None => {},
    }
    sql.append(" WHERE id = ?");
    params.push(SqlParam::Integer(id));
    proof {
        assert(sql@ =~= spec_update_sql(opt_text(name), opt_text(filename)));
        assert(params@.map_values(|p: SqlParam| p@) =~= spec_update_params(id, opt_text(name), opt_text(filename)));
        lemma_update_binds_given_values(id, opt_text(name), opt_text(filename));
        let m = params@.map_values(|p: SqlParam| p@);
        assert(m[0] == params@[0]@);
        assert(m[m.len() - 1] == params@[params@.len() - 1]@);
        assert(m[m.len() - 2] == params@[params@.len() - 2]@);
    }
    Ok(UpdateStatement { sql, params })
}

} // verus!
