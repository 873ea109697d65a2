use std::sync::{Arc, Mutex};
use user_registry::handlers::{create_user, greet};
use user_registry::registry::UserRegistry;
use user_registry::user::User;

#[test]
fn interleaved_clients_get_one_to_n() {
    let db = Arc::new(Mutex::new(UserRegistry::new()));
    let clients = [Arc::clone(&db), Arc::clone(&db), Arc::clone(&db)];
    let turns = [2usize, 0, 0, 1, 2, 1, 1, 0, 2, 2];
    let mut assigned: Vec<(usize, u32, String)> = Vec::new();
    for (step, client) in turns.iter().enumerate() {
        let name = format!("user-{}-{}", client, step);
        let mut registry = clients[*client].lock().unwrap();
        let response = create_user(User { name: name.clone() }, &mut registry);
        assert_eq!(response.status, 201);
        assigned.push((*client, response.body.id, name));
    }
    let ids: Vec<u32> = assigned.iter().map(|entry| entry.1).collect();
    assert_eq!(ids, vec![1, 2, 3, 4, 5, 6, 7, 8, 9, 10]);
    let registry = db.lock().unwrap();
    assert_eq!(registry.len(), 10);
    for (_, id, name) in assigned {
        assert_eq!(registry.get(id), Some(User { name: name.clone() }));
        assert_eq!(greet(id, &registry).body, format!("Hello, {}", name));
    }
}
