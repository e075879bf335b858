use parallax::vault::{
    deletion_outcome, search_pattern, Conversation, DorkQuery, Message, RowKind, VaultError,
};

#[test]
fn search_pattern_holds_the_query_anywhere() {
    assert_eq!(search_pattern("Test"), "%Test%");
    assert_eq!(search_pattern(""), "%%");
    assert_eq!(search_pattern("50%"), "%50%%");
}

#[test]
fn a_deletion_that_removed_nothing_did_not_find_its_row() {
    assert!(deletion_outcome(RowKind::Dork, "d1", 1).is_ok());
    assert!(deletion_outcome(RowKind::Conversation, "c1", 3).is_ok());
    match deletion_outcome(RowKind::Dork, "d1", 0) {
        Err(VaultError::NotFound(RowKind::Dork, id)) => assert_eq!(id, "d1"),
        other => panic!("{:?}", other),
    }
    match deletion_outcome(RowKind::Conversation, "c1", 0) {
        Err(e) => assert_eq!(e.message(), "Conversation not found: c1"),
        other => panic!("{:?}", other),
    }
    assert_eq!(
        VaultError::NotFound(RowKind::Dork, "abc".to_string()).message(),
        "Dork not found: abc"
    );
}

#[test]
fn rows_hold_their_fields() {
    let dork = DorkQuery {
        id: "1".to_string(),
        name: "Test Dork".to_string(),
        query: "intitle:test".to_string(),
        category: "testing".to_string(),
        tags: vec!["test".to_string(), "example".to_string()],
        created_at: "2024-01-01T00:00:00+00:00".to_string(),
        updated_at: None,
    };
    assert_eq!(dork.name, "Test Dork");
    assert_eq!(dork.tags.len(), 2);
    let conversation = Conversation {
        id: "c".to_string(),
        title: "t".to_string(),
        messages: vec![Message {
            id: "m".to_string(),
            role: "user".to_string(),
            content: "hello".to_string(),
            timestamp: "2024-01-01T00:00:00+00:00".to_string(),
            dork: Some("intitle:test".to_string()),
        }],
        created_at: "2024-01-01T00:00:00+00:00".to_string(),
        updated_at: "2024-01-01T00:00:00+00:00".to_string(),
    };
    assert_eq!(conversation.messages[0].dork.as_deref(), Some("intitle:test"));
}
