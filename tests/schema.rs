use toasty_webapp::connect::{prepare_connection, StartupError};
use toasty_webapp::schema::{
    EntityDescriptor, Field, FieldType, Relation, RelationKind, SchemaError, SchemaRegistry,
};
use toasty_webapp::uri::{eq_ignoring_ascii_case, parse_storage_uri, Backend, ConnectionError};

fn field(name: &str, ty: FieldType, nullable: bool) -> Field {
    Field { name: name.to_string(), ty, nullable }
}

fn relation(name: &str, kind: RelationKind, target: &str, fk: &str) -> Relation {
    Relation { name: name.to_string(), kind, target: target.to_string(), foreign_key: fk.to_string() }
}

fn user_entity() -> EntityDescriptor {
    EntityDescriptor {
        name: "User".to_string(),
        fields: vec![
            field("id", FieldType::Id, false),
            field("name", FieldType::Text, false),
            field("email", FieldType::Text, false),
            field("moto", FieldType::Text, true),
        ],
        key: "id".to_string(),
        auto_key: true,
        unique: vec!["email".to_string()],
        indexed: vec![],
        relations: vec![relation("todos", RelationKind::HasMany, "Todo", "user_id")],
    }
}

fn todo_entity() -> EntityDescriptor {
    EntityDescriptor {
        name: "Todo".to_string(),
        fields: vec![
            field("id", FieldType::Id, false),
            field("user_id", FieldType::Reference, false),
            field("title", FieldType::Text, false),
        ],
        key: "id".to_string(),
        auto_key: true,
        unique: vec![],
        indexed: vec!["user_id".to_string()],
        relations: vec![relation("user", RelationKind::BelongsTo, "User", "user_id")],
    }
}

#[test]
fn user_and_todo_register_and_finalize() {
    let mut reg = SchemaRegistry::new();
    assert!(reg.register(user_entity()).is_ok());
    assert!(reg.register(todo_entity()).is_ok());
    assert!(reg.finalize().is_ok());
    assert_eq!(reg.descriptor("Todo").unwrap().indexed, vec!["user_id".to_string()]);
    assert!(reg.descriptor("Post").is_none());
}

#[test]
fn duplicate_entity_is_refused() {
    let mut reg = SchemaRegistry::new();
    reg.register(user_entity()).unwrap();
    match reg.register(user_entity()) {
        Err(SchemaError::DuplicateEntity(n)) => assert_eq!(n, "User"),
        other => panic!("unexpected {:?}", other),
    }
}

#[test]
fn nullable_or_missing_key_is_refused() {
    let mut reg = SchemaRegistry::new();
    let mut d = user_entity();
    d.key = "moto".to_string();
    assert!(matches!(reg.register(d), Err(SchemaError::InvalidKey(_))));
    let mut d = user_entity();
    d.key = "uid".to_string();
    assert!(matches!(reg.register(d), Err(SchemaError::InvalidKey(_))));
    assert!(reg.descriptor("User").is_none());
}

#[test]
fn relation_to_unregistered_entity_fails_finalize() {
    let mut reg = SchemaRegistry::new();
    reg.register(todo_entity()).unwrap();
    match reg.finalize() {
        Err(SchemaError::Unresolved(n)) => assert_eq!(n, "Todo"),
        other => panic!("unexpected {:?}", other),
    }
}

#[test]
fn undeclared_unique_field_fails_finalize() {
    let mut reg = SchemaRegistry::new();
    let mut d = user_entity();
    d.unique = vec!["phone".to_string()];
    d.relations = vec![];
    reg.register(d).unwrap();
    assert!(matches!(reg.finalize(), Err(SchemaError::Unresolved(_))));
}

#[test]
fn sealed_registry_refuses_registration() {
    let mut reg = SchemaRegistry::new();
    reg.register(user_entity()).unwrap();
    reg.register(todo_entity()).unwrap();
    reg.finalize().unwrap();
    let mut d = todo_entity();
    d.name = "Note".to_string();
    assert!(matches!(reg.register(d), Err(SchemaError::Sealed)));
}

#[test]
fn sqlite_uri_selects_sqlite() {
    let u = parse_storage_uri("sqlite:mydb.db").unwrap();
    assert_eq!(u.backend, Backend::Sqlite);
    assert_eq!(u.uri, "sqlite:mydb.db");
    assert!(parse_storage_uri("SQLite://todos.db").is_ok());
}

#[test]
fn other_scheme_is_unsupported() {
    match parse_storage_uri("postgres://localhost/db") {
        Err(ConnectionError::UnsupportedBackend(s)) => assert_eq!(s, "postgres"),
        other => panic!("unexpected {:?}", other),
    }
}

#[test]
fn malformed_uri_is_refused() {
    assert!(matches!(parse_storage_uri("mydb.db"), Err(ConnectionError::InvalidUri(_))));
    assert!(matches!(parse_storage_uri("1db:x"), Err(ConnectionError::InvalidUri(_))));
    assert!(matches!(parse_storage_uri(":x"), Err(ConnectionError::InvalidUri(_))));
}

#[test]
fn ascii_case_is_folded() {
    assert!(eq_ignoring_ascii_case("SqLite", "sqlite"));
    assert!(!eq_ignoring_ascii_case("sqlit", "sqlite"));
    assert!(!eq_ignoring_ascii_case("sqlitf", "sqlite"));
}

#[test]
fn connection_needs_a_sound_schema_and_uri() {
    let mut reg = SchemaRegistry::new();
    reg.register(todo_entity()).unwrap();
    assert!(matches!(prepare_connection(&mut reg, "sqlite:mydb.db"), Err(StartupError::Schema(_))));
    reg.register(user_entity()).unwrap();
    assert!(matches!(
        prepare_connection(&mut reg, "mysql://h/db"),
        Err(StartupError::Connection(ConnectionError::UnsupportedBackend(_)))
    ));
    let mut reg = SchemaRegistry::new();
    reg.register(user_entity()).unwrap();
    reg.register(todo_entity()).unwrap();
    assert!(prepare_connection(&mut reg, "sqlite:mydb.db").is_ok());
}
