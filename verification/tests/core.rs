use project_tracker::ordered_hash_map::OrderedHashMap;
use project_tracker::source_code_todo::{
    import_source_code_comment_from_line, import_source_code_todos_from_lines, line_is_searchable,
    should_import_source_code_todos_from_folder,
};
use project_tracker::TaskState;

#[test]
fn ordered_hash_map_keeps_insertion_order_and_moves() {
    let mut map: OrderedHashMap<u64, &str> = OrderedHashMap::new();
    map.insert(1, "a");
    map.insert(2, "b");
    map.insert(3, "c");
    assert_eq!(map.len(), 3);
    assert_eq!(map.get(&2), Some(&"b"));
    assert_eq!(map.get(&9), None);
    assert_eq!(map.get_order(&3), Some(2));
    map.move_up(&3);
    assert_eq!(map.order, vec![1, 3, 2]);
    map.move_up(&1);
    assert_eq!(map.order, vec![1, 3, 2]);
    map.move_down(&2);
    assert_eq!(map.order, vec![1, 3, 2]);
    map.move_down(&1);
    assert_eq!(map.order, vec![3, 1, 2]);
    map.move_up(&1);
    assert_eq!(map.order, vec![1, 3, 2]);
    map.move_to_bottom(&1);
    assert_eq!(map.order, vec![3, 2, 1]);
    map.remove(&3);
    assert_eq!(map.order, vec![2, 1]);
    assert_eq!(map.get(&3), None);
    assert_eq!(map.len(), 2);
    if let Some(v) = map.get_mut(&2) {
        *v = "B";
    }
    assert_eq!(map.get(&2), Some(&"B"));
    assert_eq!(map.iter().copied().collect::<Vec<u64>>(), vec![2, 1]);
    let mut values: Vec<&str> = map.values().copied().collect();
    values.sort();
    assert_eq!(values, vec!["B", "a"]);
    assert_eq!(map.keys(), &vec![2, 1]);
}

#[test]
fn ordered_hash_map_insert_of_a_present_key_appends_it_again() {
    let mut map: OrderedHashMap<u64, u8> = OrderedHashMap::new();
    map.insert(1, 1);
    map.insert(1, 2);
    assert_eq!(map.order, vec![1, 1]);
    assert_eq!(map.get(&1), Some(&2));
    assert_eq!(map.get_order(&7), None);
}

#[test]
fn task_states() {
    assert!(TaskState::Done.is_done());
    assert!(!TaskState::Done.is_todo());
    assert!(TaskState::Todo.is_todo());
}

#[test]
fn todo_comments() {
    assert_eq!(
        import_source_code_comment_from_line("    // TODO: fix this".to_string()),
        Some(("fix this".to_string(), 5))
    );
    assert_eq!(
        import_source_code_comment_from_line("x = 1 #todo later".to_string()),
        Some(("later".to_string(), 7))
    );
    assert_eq!(
        import_source_code_comment_from_line("//Todo it".to_string()),
        Some(("it".to_string(), 1))
    );
    assert_eq!(import_source_code_comment_from_line("let s = \"// todo no\";".to_string()), None);
    assert_eq!(import_source_code_comment_from_line("nothing here".to_string()), None);
}

#[test]
fn todo_macros() {
    assert_eq!(
        import_source_code_comment_from_line("    todo!(\"parse it\")".to_string()),
        Some(("parse it".to_string(), 5))
    );
    assert_eq!(
        import_source_code_comment_from_line("todo!()".to_string()),
        Some((String::new(), 1))
    );
}

#[test]
fn todos_of_a_file() {
    let lines = vec!["fn a() {".to_string(), "  // todo: one".to_string(), "  todo!(\"two\")".to_string()];
    assert!(lines.iter().all(|l| line_is_searchable(l)));
    assert_eq!(
        import_source_code_todos_from_lines("src/a.rs", &lines),
        vec![
            ("one".to_string(), "src/a.rs:2:3".to_string()),
            ("two".to_string(), "src/a.rs:3:3".to_string())
        ]
    );
}

#[test]
fn folders_that_are_skipped() {
    let names = |v: &[&str]| v.iter().map(|s| s.to_string()).collect::<Vec<String>>();
    assert!(should_import_source_code_todos_from_folder(&names(&["src", "project"])));
    assert!(!should_import_source_code_todos_from_folder(&names(&["debug", "target", "project"])));
    assert!(!should_import_source_code_todos_from_folder(&names(&["objects", ".git", "project"])));
    assert!(should_import_source_code_todos_from_folder(&names(&["targets", "a.b"])));
    assert!(should_import_source_code_todos_from_folder(&names(&[])));
}
