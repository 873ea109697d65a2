use user_registry::handlers::{
    create_user, greet, CreateUserResponse, CreatedResponse, GreetResponse, STATUS_CREATED,
    STATUS_OK,
};
use user_registry::registry::UserRegistry;
use user_registry::user::User;

fn user(name: &str) -> User {
    User { name: name.to_string() }
}

#[test]
fn status_values() {
    assert_eq!(STATUS_OK, 200);
    assert_eq!(STATUS_CREATED, 201);
}

#[test]
fn create_on_empty_registry_reports_id_one() {
    let mut db = UserRegistry::new();
    let response = create_user(user("Ada"), &mut db);
    assert_eq!(
        response,
        CreatedResponse {
            status: 201,
            body: CreateUserResponse { id: 1, name: "Ada".to_string() },
        }
    );
    assert_eq!(db.len(), 1);
}

#[test]
fn greet_after_create_says_hello() {
    let mut db = UserRegistry::new();
    create_user(user("Ada"), &mut db);
    let response = greet(1, &db);
    assert_eq!(response, GreetResponse { status: 200, body: "Hello, Ada".to_string() });
}

#[test]
fn greet_on_fresh_registry_reports_a_miss() {
    let db = UserRegistry::new();
    let response = greet(42, &db);
    assert_eq!(
        response,
        GreetResponse { status: 200, body: "User with id 42 not found".to_string() }
    );
}

#[test]
fn two_creates_get_one_then_two() {
    let mut db = UserRegistry::new();
    let ada = create_user(user("Ada"), &mut db);
    let linus = create_user(user("Linus"), &mut db);
    assert_eq!(ada.body.id, 1);
    assert_eq!(linus.body.id, 2);
    assert_eq!(ada.body.name, "Ada");
    assert_eq!(linus.body.name, "Linus");
    assert_eq!(greet(1, &db).body, "Hello, Ada");
    assert_eq!(greet(2, &db).body, "Hello, Linus");
    assert_eq!(db.get(1), Some(user("Ada")));
    assert_eq!(db.get(2), Some(user("Linus")));
}

#[test]
fn greet_does_not_change_the_registry() {
    let mut db = UserRegistry::new();
    create_user(user("Ada"), &mut db);
    let first = greet(1, &db);
    let second = greet(1, &db);
    assert_eq!(first, second);
    assert_eq!(greet(2, &db), greet(2, &db));
    assert_eq!(db.len(), 1);
    assert_eq!(create_user(user("Linus"), &mut db).body.id, 2);
}

#[test]
fn miss_names_the_id_that_was_asked_for() {
    let mut db = UserRegistry::new();
    create_user(user("Ada"), &mut db);
    assert_eq!(greet(0, &db).body, "User with id 0 not found");
    assert_eq!(greet(2, &db).body, "User with id 2 not found");
    assert_eq!(greet(1000, &db).body, "User with id 1000 not found");
    assert_eq!(greet(4294967295, &db).body, "User with id 4294967295 not found");
    assert_eq!(greet(4294967295, &db).status, 200);
}

#[test]
fn names_are_stored_and_greeted_as_they_are() {
    let mut db = UserRegistry::new();
    let empty = create_user(user(""), &mut db);
    assert_eq!(empty.status, 201);
    assert_eq!(empty.body.name, "");
    assert_eq!(greet(empty.body.id, &db).body, "Hello, ");
    let odd = create_user(user(" Zoë \"Z\" <b>\n"), &mut db);
    assert_eq!(odd.body.id, 2);
    assert_eq!(odd.body.name, " Zoë \"Z\" <b>\n");
    assert_eq!(greet(2, &db).body, "Hello,  Zoë \"Z\" <b>\n");
}

#[test]
fn create_matches_insert() {
    let mut by_handler = UserRegistry::new();
    let mut by_insert = UserRegistry::new();
    for name in ["Ada", "Linus", "Grace"] {
        let response = create_user(user(name), &mut by_handler);
        let id = by_insert.insert(user(name));
        assert_eq!(response.body.id, id);
        assert_eq!(by_handler.get(id), by_insert.get(id));
    }
    assert_eq!(by_handler.len(), by_insert.len());
}
