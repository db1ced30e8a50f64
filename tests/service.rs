use via_alias::service::write_outcome;
use via_alias::{
    DbServiceError, MemoryRepo, PayloadValidator, RedirectDTO, RedirectService,
    RedirectServiceImpl, StorageError, UpdateUrlDTO,
};

fn store() -> RedirectServiceImpl<MemoryRepo> {
    RedirectServiceImpl::new(MemoryRepo::new())
}

fn record(alias: &str, url: &str) -> RedirectDTO {
    RedirectDTO::new(alias, url)
}

fn update(url: &str) -> UpdateUrlDTO {
    UpdateUrlDTO { url: url.to_string() }
}

fn validation(r: Result<(), DbServiceError>) -> (String, Vec<String>) {
    match r {
        Err(DbServiceError::PayloadValidationError(field, msgs)) => (field, msgs),
        other => panic!("expected a validation error, got {:?}", other),
    }
}

#[test]
fn docs_lifecycle() {
    let mut s = store();
    assert!(s.create_redirect(&record("docs", "https://example.com/docs")).is_ok());
    let read = s.get_redirect("docs").unwrap();
    assert_eq!(read.alias, "docs");
    assert_eq!(read.url, "https://example.com/docs");
    assert!(s.update_redirect("docs", &update("https://example.com/new-docs")).is_ok());
    let read = s.get_redirect("docs").unwrap();
    assert_eq!(read.alias, "docs");
    assert_eq!(read.url, "https://example.com/new-docs");
    assert!(s.delete_redirect("docs").is_ok());
    assert!(matches!(s.get_redirect("docs"), Err(DbServiceError::NotFoundError)));
}

#[test]
fn create_refuses_bad_alias_characters() {
    let mut s = store();
    let (field, msgs) = validation(s.create_redirect(&record("bad alias!", "https://x.com")));
    assert_eq!(field, "alias");
    assert_eq!(msgs, vec!["allowed characters are alphanumeric and hyphens".to_string()]);
    assert!(s.get_all_redirects().unwrap().redirects.is_empty());
}

#[test]
fn create_refuses_ftp_url() {
    let mut s = store();
    let (field, msgs) = validation(s.create_redirect(&record("ok", "ftp://x.com")));
    assert_eq!(field, "url");
    assert_eq!(
        msgs,
        vec!["has to start with 'http://' or 'https://' and does not contain any whitespaces"
            .to_string()]
    );
    assert!(matches!(s.get_redirect("ok"), Err(DbServiceError::NotFoundError)));
}

#[test]
fn create_refuses_empty_and_long_aliases() {
    let mut s = store();
    let (field, msgs) = validation(s.create_redirect(&record("", "https://x.com")));
    assert_eq!(field, "alias");
    assert_eq!(msgs, vec!["can not be empty".to_string()]);
    let long = "a".repeat(51);
    let (field, msgs) = validation(s.create_redirect(&record(&long, "https://x.com")));
    assert_eq!(field, "alias");
    assert_eq!(msgs, vec!["max length is 50".to_string()]);
    let long_bad = "$".repeat(51);
    let (_, msgs) = validation(s.create_redirect(&record(&long_bad, "https://x.com")));
    assert_eq!(
        msgs,
        vec![
            "max length is 50".to_string(),
            PayloadValidator::ERR_ALPHANUMERIC.to_string()
        ]
    );
    assert!(s.get_redirect(&long).is_err());
    let fifty = "a".repeat(50);
    assert!(s.create_redirect(&record(&fifty, "https://x.com")).is_ok());
}

#[test]
fn alias_is_checked_before_url() {
    let mut s = store();
    let (field, _) = validation(s.create_redirect(&record("bad alias!", "ftp://x.com")));
    assert_eq!(field, "alias");
}

#[test]
fn url_rules_on_create_and_update() {
    let mut s = store();
    let (field, msgs) = validation(s.create_redirect(&record("a", "https://x .com")));
    assert_eq!(field, "url");
    assert_eq!(msgs, vec![PayloadValidator::ERR_URL_SCHEMA.to_string()]);
    let (field, msgs) = validation(s.create_redirect(&record("a", "")));
    assert_eq!(field, "url");
    assert_eq!(
        msgs,
        vec![
            PayloadValidator::ERR_EMPTY.to_string(),
            PayloadValidator::ERR_URL_SCHEMA.to_string()
        ]
    );
    let long = format!("https://{}", "x".repeat(2041));
    let (_, msgs) = validation(s.create_redirect(&record("a", &long)));
    assert_eq!(msgs, vec!["max length is 2048".to_string()]);
    let longest = format!("https://{}", "x".repeat(2040));
    assert!(s.create_redirect(&record("a", &longest)).is_ok());
    let (field, msgs) = validation(s.update_redirect("a", &update("mailto:x")));
    assert_eq!(field, "url");
    assert_eq!(msgs, vec![PayloadValidator::ERR_URL_SCHEMA.to_string()]);
    assert_eq!(s.get_redirect("a").unwrap().url, longest);
}

#[test]
fn create_then_read_round_trip() {
    let mut s = store();
    s.create_redirect(&record("Some_alias-1", "http://a.b/c?d=e")).unwrap();
    let read = s.get_redirect("Some_alias-1").unwrap();
    assert_eq!(read, record("Some_alias-1", "http://a.b/c?d=e"));
}

#[test]
fn read_twice_gives_the_same() {
    let mut s = store();
    s.create_redirect(&record("x", "https://x.com")).unwrap();
    assert_eq!(s.get_redirect("x").unwrap(), s.get_redirect("x").unwrap());
    assert!(matches!(s.get_redirect("y"), Err(DbServiceError::NotFoundError)));
    assert!(matches!(s.get_redirect("y"), Err(DbServiceError::NotFoundError)));
}

#[test]
fn second_create_of_an_alias_conflicts() {
    let mut s = store();
    assert!(s.create_redirect(&record("same", "https://one.com")).is_ok());
    assert!(matches!(
        s.create_redirect(&record("same", "https://two.com")),
        Err(DbServiceError::ConflictError)
    ));
    let all = s.get_all_redirects().unwrap().redirects;
    assert_eq!(all.iter().filter(|d| d.alias == "same").count(), 1);
    assert_eq!(s.get_redirect("same").unwrap().url, "https://one.com");
}

#[test]
fn delete_then_read_finds_nothing() {
    let mut s = store();
    s.create_redirect(&record("gone", "https://x.com")).unwrap();
    s.create_redirect(&record("kept", "https://y.com")).unwrap();
    s.delete_redirect("gone").unwrap();
    assert!(matches!(s.get_redirect("gone"), Err(DbServiceError::NotFoundError)));
    assert!(matches!(s.delete_redirect("gone"), Err(DbServiceError::NotFoundError)));
    assert_eq!(s.get_all_redirects().unwrap().redirects, vec![record("kept", "https://y.com")]);
}

#[test]
fn update_of_missing_alias_is_not_found() {
    let mut s = store();
    assert!(matches!(
        s.update_redirect("missing", &update("https://x.com")),
        Err(DbServiceError::NotFoundError)
    ));
    assert!(s.get_all_redirects().unwrap().redirects.is_empty());
}

#[test]
fn update_keeps_the_alias_and_other_records() {
    let mut s = store();
    s.create_redirect(&record("a", "https://a.com")).unwrap();
    s.create_redirect(&record("b", "https://b.com")).unwrap();
    s.update_redirect("a", &update("https://new.com")).unwrap();
    let all = s.get_all_redirects().unwrap().redirects;
    assert_eq!(all.len(), 2);
    assert!(all.contains(&record("a", "https://new.com")));
    assert!(all.contains(&record("b", "https://b.com")));
}

#[test]
fn validate_alias_and_url_directly() {
    assert!(RedirectServiceImpl::<MemoryRepo>::validate_alias("docs").is_ok());
    assert!(RedirectServiceImpl::<MemoryRepo>::validate_url("https://example.com/docs").is_ok());
    let (field, _) = validation(RedirectServiceImpl::<MemoryRepo>::validate_alias("a b"));
    assert_eq!(field, "alias");
    let (field, _) = validation(RedirectServiceImpl::<MemoryRepo>::validate_url("x"));
    assert_eq!(field, "url");
}

#[test]
fn storage_errors_map_to_store_errors() {
    assert!(matches!(DbServiceError::from(StorageError::RowNotFound), DbServiceError::NotFoundError));
    assert!(matches!(
        DbServiceError::from(StorageError::UniqueViolation),
        DbServiceError::ConflictError
    ));
    match DbServiceError::from(StorageError::Other("disk full".to_string())) {
        DbServiceError::DatabaseError(m) => assert_eq!(m, "disk full"),
        other => panic!("unexpected {:?}", other),
    }
}

#[test]
fn write_outcome_by_rows_changed() {
    assert!(matches!(write_outcome(0), Err(DbServiceError::NotFoundError)));
    assert!(write_outcome(1).is_ok());
}

#[test]
fn error_messages() {
    assert_eq!(DbServiceError::NotFoundError.message(), "Resource not found");
    assert_eq!(DbServiceError::ConflictError.message(), "Resource already exists");
    assert_eq!(
        DbServiceError::DatabaseError("locked".to_string()).message(),
        "Database error: locked"
    );
    assert_eq!(
        DbServiceError::PayloadValidationError("url".to_string(), vec![]).message(),
        "Validation failed on url"
    );
}
