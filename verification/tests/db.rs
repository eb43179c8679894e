use stegrust::crypto::derive_key;
use stegrust::db::{
    classify_migration_error, classify_open_error, db_key, parse_salt_file, text_contains,
    update_statement, DbError, SqlParam,
};

fn texts(params: &[SqlParam]) -> Vec<String> {
    params
        .iter()
        .map(|p| match p {
            SqlParam::Text(s) => format!("T:{}", s),
            SqlParam::Integer(i) => format!("I:{}", i),
        })
        .collect()
}

#[test]
fn salt_file_must_hold_sixteen_bytes() {
    let bytes: Vec<u8> = (0u8..16).collect();
    let salt = parse_salt_file(&bytes).unwrap();
    assert_eq!(salt.to_vec(), bytes);
    assert_eq!(parse_salt_file(&bytes[..15]), Err(DbError::CorruptedSalt));
    assert_eq!(parse_salt_file(&[0u8; 17]), Err(DbError::CorruptedSalt));
    assert_eq!(parse_salt_file(&[]), Err(DbError::CorruptedSalt));
}

#[test]
fn db_key_is_lower_hex_of_derived_key() {
    let salt = [2u8; 16];
    let key = db_key("master", &salt).unwrap();
    let raw = derive_key("master", &salt).unwrap();
    let expected: String = raw.iter().map(|b| format!("{:02x}", b)).collect();
    assert_eq!(key.len(), 64);
    assert_eq!(key, expected);
}

#[test]
fn wrong_password_messages() {
    assert_eq!(classify_migration_error("file is not a database"), DbError::WrongPassword);
    assert_eq!(classify_migration_error("error: hmac check failed for page 1"), DbError::WrongPassword);
    assert_eq!(classify_migration_error("error decrypting page 3"), DbError::WrongPassword);
    assert_eq!(classify_migration_error("disk I/O error"), DbError::MigrationFailed);
    assert_eq!(classify_migration_error(""), DbError::MigrationFailed);
    assert_eq!(classify_open_error("file is not a database"), DbError::WrongPassword);
    assert_eq!(classify_open_error("hmac check failed"), DbError::OpenFailed);
    assert_eq!(classify_open_error("unable to open database file"), DbError::OpenFailed);
}

#[test]
fn contains_edge_cases() {
    assert!(text_contains("abc", ""));
    assert!(text_contains("", ""));
    assert!(!text_contains("", "a"));
    assert!(text_contains("abc", "abc"));
    assert!(text_contains("xxabc", "abc"));
    assert!(!text_contains("ab", "abc"));
    assert!(text_contains("héllo wörld", "wö"));
}

#[test]
fn update_statement_both_fields() {
    let st = update_statement(3, Some("github"), Some("a.png")).unwrap();
    assert_eq!(st.sql, "UPDATE entries SET name = ?, filename = ? WHERE id = ?");
    assert_eq!(texts(&st.params), vec!["T:github", "T:a.png", "I:3"]);
}

#[test]
fn update_statement_one_field() {
    let st = update_statement(1, Some("n"), None).unwrap();
    assert_eq!(st.sql, "UPDATE entries SET name = ? WHERE id = ?");
    assert_eq!(texts(&st.params), vec!["T:n", "I:1"]);
    let st = update_statement(-4, None, Some("f.png")).unwrap();
    assert_eq!(st.sql, "UPDATE entries SET filename = ? WHERE id = ?");
    assert_eq!(texts(&st.params), vec!["T:f.png", "I:-4"]);
}

#[test]
fn update_statement_needs_a_field() {
    assert!(matches!(update_statement(1, None, None), Err(DbError::NoFieldsToUpdate)));
}
