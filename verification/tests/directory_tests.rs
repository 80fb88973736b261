use ast_toolkit::buffers::{double_evens, scale_by_index};
use ast_toolkit::directory::{find_user_by_id, User};

fn users() -> Vec<User> {
    vec![
        User::new(1, "Alice", "alice@example.com"),
        User::new(2, "Bob", "bob@example.com"),
        User::new(3, "Charlie", "charlie@example.com"),
        User::new(4, "Diana", "diana@example.com"),
    ]
}

#[test]
fn new_user_is_active() {
    let user = User::new(1, "Alice", "alice@example.com");
    assert_eq!(user.id, 1);
    assert_eq!(user.name, "Alice");
    assert_eq!(user.email, "alice@example.com");
    assert!(user.active);
}

#[test]
fn deactivate_changes_only_the_flag() {
    let mut user = User::new(2, "Bob", "bob@example.com");
    user.deactivate();
    assert_eq!(
        user,
        User { id: 2, name: "Bob".to_string(), email: "bob@example.com".to_string(), active: false }
    );
    user.deactivate();
    assert!(!user.active);
}

#[test]
fn users_are_found_by_their_id() {
    let users = users();
    assert_eq!(find_user_by_id(&users, 1).map(|user| user.name.as_str()), Some("Alice"));
    assert_eq!(find_user_by_id(&users, 2).map(|user| user.name.as_str()), Some("Bob"));
    assert_eq!(find_user_by_id(&users, 3).map(|user| user.name.as_str()), Some("Charlie"));
}

#[test]
fn last_user_is_found() {
    let users = users();
    let found = find_user_by_id(&users, 4);
    assert_eq!(found.map(|user| (user.id, user.name.as_str())), Some((4, "Diana")));
    assert_eq!(find_user_by_id(&users[..1], 1).map(|user| user.name.as_str()), Some("Alice"));
}

#[test]
fn unknown_id_is_not_found() {
    let users = users();
    assert_eq!(find_user_by_id(&users, 9), None);
    assert_eq!(find_user_by_id(&users, 0), None);
}

#[test]
fn nobody_is_found_among_no_users() {
    let nobody: Vec<User> = vec![];
    assert_eq!(find_user_by_id(&nobody, 1), None);
}

#[test]
fn first_of_several_users_with_the_id_is_found() {
    let users = vec![
        User::new(7, "first", "a"),
        User::new(7, "second", "b"),
        User::new(7, "third", "c"),
    ];
    assert_eq!(find_user_by_id(&users, 7).map(|user| user.name.as_str()), Some("first"));
}

#[test]
fn buffer_is_overwritten_with_ten_times_the_index() {
    let mut data = vec![1, 2, 3, 4, 5];
    scale_by_index(&mut data);
    assert_eq!(data, vec![0, 10, 20, 30, 40]);
    let mut empty: Vec<i32> = vec![];
    scale_by_index(&mut empty);
    assert!(empty.is_empty());
}

#[test]
fn even_numbers_are_doubled() {
    let mut numbers = vec![1, 2, 3, 4, 5];
    double_evens(&mut numbers);
    assert_eq!(numbers, vec![1, 4, 3, 8, 5]);
    let mut edge = vec![0, -2, -3, i32::MAX, 1073741822, -1073741824];
    double_evens(&mut edge);
    assert_eq!(edge, vec![0, -4, -3, i32::MAX, 2147483644, i32::MIN]);
}
