use uat::todo::{add_todo, get_todo, NewTodo};
use uuid::Uuid;

#[test]
fn get_answers_the_sample_entry_under_the_id() {
    let id = 0x1234_5678_9abc_def0_1234_5678_9abc_def0u128;
    let todo = get_todo(id);
    assert_eq!(todo.id, id);
    assert_eq!(todo.title, "some title");
    assert_eq!(todo.description, None);
}

#[test]
fn add_keeps_title_and_description_with_fresh_ids() {
    let a = add_todo(NewTodo { title: "buy milk".to_string(), description: Some("2 l".to_string()) });
    let b = add_todo(NewTodo { title: "walk".to_string(), description: None });
    assert_eq!(a.title, "buy milk");
    assert_eq!(a.description.as_deref(), Some("2 l"));
    assert_eq!(b.title, "walk");
    assert_eq!(b.description, None);
    assert_ne!(a.id, b.id);
    assert_eq!(Uuid::from_u128(a.id).get_version_num(), 4);
    assert_eq!(Uuid::from_u128(b.id).get_version_num(), 4);
    assert_eq!((a.id >> 76) & 0xf, 4);
    assert_eq!((a.id >> 62) & 0x3, 2);
}
