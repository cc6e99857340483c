use toasty_webapp::listing::{users_response, UsersResponse};
use toasty_webapp::store::{QueryError, Store};

fn ann(store: &mut Store) -> u64 {
    store
        .insert_user("Ann".to_string(), "ann@x.com".to_string(), None)
        .unwrap()
}

#[test]
fn inserted_user_reads_back_field_for_field() {
    let mut store = Store::new();
    let id = store
        .insert_user("Bob".to_string(), "bob@x.com".to_string(), Some("carpe diem".to_string()))
        .unwrap();
    let u = store.user(id).unwrap();
    assert_eq!(u.id, id);
    assert_eq!(u.name, "Bob");
    assert_eq!(u.email, "bob@x.com");
    assert_eq!(u.moto.as_deref(), Some("carpe diem"));
}

#[test]
fn lookup_of_unknown_key_misses() {
    let mut store = Store::new();
    let id = ann(&mut store);
    assert!(store.user(id + 1).is_none());
    assert!(store.user(0).is_none());
}

#[test]
fn second_user_with_same_email_is_refused() {
    let mut store = Store::new();
    let first = ann(&mut store);
    let second = store.insert_user("Other".to_string(), "ann@x.com".to_string(), None);
    assert_eq!(second, Err(QueryError::UniqueViolation));
    let all = store.all_users();
    assert_eq!(all.len(), 1);
    assert_eq!(all[0].id, first);
    assert_eq!(all[0].name, "Ann");
}

#[test]
fn distinct_emails_get_distinct_keys() {
    let mut store = Store::new();
    let a = ann(&mut store);
    let b = store
        .insert_user("Bea".to_string(), "bea@x.com".to_string(), None)
        .unwrap();
    assert_ne!(a, b);
    assert_eq!(store.all_users().len(), 2);
}

#[test]
fn todo_of_unknown_user_is_refused() {
    let mut store = Store::new();
    assert_eq!(
        store.insert_todo(7, "nothing".to_string()),
        Err(QueryError::ForeignKeyViolation)
    );
    assert!(store.all_todos().is_empty());
}

#[test]
fn belongs_to_resolves_to_the_parent() {
    let mut store = Store::new();
    let a = ann(&mut store);
    let b = store
        .insert_user("Bea".to_string(), "bea@x.com".to_string(), None)
        .unwrap();
    store.insert_todo(b, "walk".to_string()).unwrap();
    let todos = store.all_todos();
    let owner = store.owner(&todos[0]).unwrap();
    assert_eq!(owner.id, b);
    assert_ne!(owner.id, a);
    assert_eq!(owner.name, "Bea");
}

#[test]
fn has_many_lists_exactly_the_children() {
    let mut store = Store::new();
    let a = ann(&mut store);
    let b = store
        .insert_user("Bea".to_string(), "bea@x.com".to_string(), None)
        .unwrap();
    store.insert_todo(a, "one".to_string()).unwrap();
    store.insert_todo(b, "two".to_string()).unwrap();
    store.insert_todo(a, "three".to_string()).unwrap();
    let of_a = store.todos_of_user(a);
    let titles: Vec<&str> = of_a.iter().map(|t| t.title.as_str()).collect();
    assert_eq!(titles, vec!["one", "three"]);
    assert!(of_a.iter().all(|t| t.user_id == a));
    assert_eq!(store.todos_of_user(b).len(), 1);
    assert!(store.todos_of_user(b + 100).is_empty());
}

#[test]
fn listing_twice_gives_the_same_rows() {
    let mut store = Store::new();
    ann(&mut store);
    store
        .insert_user("Bea".to_string(), "bea@x.com".to_string(), Some("hi".to_string()))
        .unwrap();
    let first = store.all_users();
    let second = store.all_users();
    assert_eq!(first.len(), second.len());
    for (x, y) in first.iter().zip(second.iter()) {
        assert_eq!(x.id, y.id);
        assert_eq!(x.name, y.name);
        assert_eq!(x.email, y.email);
        assert_eq!(x.moto, y.moto);
    }
}

#[test]
fn listing_of_registered_users_scenario() {
    let mut store = Store::new();
    ann(&mut store);
    match users_response(Ok(store.all_users())) {
        UsersResponse::Users(js) => {
            assert_eq!(js.len(), 1);
            assert_eq!(js[0].name, "Ann");
            assert_eq!(js[0].email, "ann@x.com");
            assert_eq!(js[0].moto, None);
        }
        UsersResponse::Failure { .. } => panic!("listing failed"),
    }
    let again = store.insert_user("Ann2".to_string(), "ann@x.com".to_string(), None);
    assert_eq!(again, Err(QueryError::UniqueViolation));
}
