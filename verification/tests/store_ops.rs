use todolist::add_content;
use todolist::initialize;
use todolist::remove_todo;
use todolist::update_content;
use todolist::update_state;
use todolist::Identity;
use todolist::List;
use todolist::TodoError;

fn id(byte: u8) -> Identity {
    Identity::new(vec![byte; 32]).unwrap()
}

fn fresh_record(byte: u8) -> List {
    initialize(id(byte))
}

#[test]
fn scenario_append_toggle_remove() {
    let caller = id(1);
    let mut record = fresh_record(1);

    assert!(add_content(&mut record, &caller, "  buy milk  ".to_string()).is_ok());
    assert_eq!(record.todo_count(), 1);
    assert_eq!(record.get_todo(0).content, "buy milk");
    assert!(!record.get_todo(0).is_done);

    assert_eq!(
        add_content(&mut record, &caller, "".to_string()),
        Err(TodoError::EmptyContent)
    );

    let long = "x".repeat(201);
    assert_eq!(
        add_content(&mut record, &caller, long),
        Err(TodoError::ContentTooLong)
    );

    assert!(update_state(&mut record, &caller, 0).is_ok());
    assert!(record.get_todo(0).is_done);

    assert!(remove_todo(&mut record, &caller, 0).is_ok());
    assert_eq!(record.todo_count(), 0);
}

#[test]
fn initialize_record_is_empty_and_owned() {
    let record = fresh_record(7);
    assert_eq!(record.todo_count(), 0);
    assert_eq!(record.owner().as_bytes().as_slice(), &[7u8; 32]);
}

#[test]
fn unauthorized_caller_rejected_everywhere() {
    let owner = id(1);
    let intruder = id(2);
    let mut record = fresh_record(1);
    assert!(add_content(&mut record, &owner, "task".to_string()).is_ok());

    assert_eq!(
        add_content(&mut record, &intruder, "task two".to_string()),
        Err(TodoError::Unauthorized)
    );
    assert_eq!(
        update_state(&mut record, &intruder, 0),
        Err(TodoError::Unauthorized)
    );
    assert_eq!(
        update_content(&mut record, &intruder, 0, "other".to_string()),
        Err(TodoError::Unauthorized)
    );
    assert_eq!(
        remove_todo(&mut record, &intruder, 0),
        Err(TodoError::Unauthorized)
    );

    assert_eq!(record.todo_count(), 1);
    assert_eq!(record.get_todo(0).content, "task");
    assert!(!record.get_todo(0).is_done);
}

#[test]
fn unauthorized_checked_before_content_and_index() {
    let intruder = id(9);
    let mut record = fresh_record(1);
    assert_eq!(
        add_content(&mut record, &intruder, "".to_string()),
        Err(TodoError::Unauthorized)
    );
    assert_eq!(
        update_state(&mut record, &intruder, 200),
        Err(TodoError::Unauthorized)
    );
}

#[test]
fn append_success_condition_boundaries() {
    let caller = id(3);
    let mut record = fresh_record(3);

    let exactly_200 = "y".repeat(200);
    assert!(add_content(&mut record, &caller, exactly_200.clone()).is_ok());
    assert_eq!(record.get_todo(0).content, exactly_200);

    assert_eq!(
        add_content(&mut record, &caller, "   \t\n ".to_string()),
        Err(TodoError::EmptyContent)
    );

    // The length bound reads the untrimmed text: 195 characters of content
    // inside 10 blanks is over it even though the stored text would not be.
    let padded = format!("     {}     ", "z".repeat(195));
    assert_eq!(padded.chars().count(), 205);
    assert_eq!(
        add_content(&mut record, &caller, padded),
        Err(TodoError::ContentTooLong)
    );

    // Blanks count toward the length bound but are stripped before storage.
    let trimmed_inside = format!("   {}   ", "w".repeat(194));
    assert_eq!(trimmed_inside.chars().count(), 200);
    assert!(add_content(&mut record, &caller, trimmed_inside).is_ok());
    assert_eq!(record.get_todo(1).content, "w".repeat(194));
}

#[test]
fn append_length_gate_counts_characters() {
    let caller = id(4);
    let mut record = fresh_record(4);
    let accented = "é".repeat(200);
    assert_eq!(accented.chars().count(), 200);
    assert!(add_content(&mut record, &caller, accented.clone()).is_ok());
    assert_eq!(record.get_todo(0).content, accented);

    let over = "é".repeat(201);
    assert_eq!(
        add_content(&mut record, &caller, over),
        Err(TodoError::ContentTooLong)
    );
}

#[test]
fn capacity_reached_on_twenty_first_append() {
    let caller = id(5);
    let mut record = fresh_record(5);
    for k in 0..20 {
        assert!(add_content(&mut record, &caller, format!("task {k}")).is_ok());
    }
    assert_eq!(record.todo_count(), 20);
    assert_eq!(
        add_content(&mut record, &caller, "one more".to_string()),
        Err(TodoError::MaxTodosReached)
    );
    assert_eq!(record.todo_count(), 20);
}

#[test]
fn toggle_twice_restores_and_touches_nothing_else() {
    let caller = id(6);
    let mut record = fresh_record(6);
    assert!(add_content(&mut record, &caller, "first".to_string()).is_ok());
    assert!(add_content(&mut record, &caller, "second".to_string()).is_ok());
    assert!(update_state(&mut record, &caller, 1).is_ok());

    assert!(update_state(&mut record, &caller, 0).is_ok());
    assert!(record.get_todo(0).is_done);
    assert!(record.get_todo(1).is_done);
    assert_eq!(record.get_todo(1).content, "second");

    assert!(update_state(&mut record, &caller, 0).is_ok());
    assert!(!record.get_todo(0).is_done);
    assert_eq!(record.get_todo(0).content, "first");
    assert!(record.get_todo(1).is_done);
}

#[test]
fn remove_shifts_later_items_down() {
    let caller = id(8);
    let mut record = fresh_record(8);
    for name in ["a", "b", "c", "d"] {
        assert!(add_content(&mut record, &caller, name.to_string()).is_ok());
    }
    assert!(update_state(&mut record, &caller, 3).is_ok());

    assert!(remove_todo(&mut record, &caller, 1).is_ok());
    assert_eq!(record.todo_count(), 3);
    assert_eq!(record.get_todo(0).content, "a");
    assert_eq!(record.get_todo(1).content, "c");
    assert_eq!(record.get_todo(2).content, "d");
    assert!(record.get_todo(2).is_done);
}

#[test]
fn invalid_index_rejected_on_empty_and_past_end() {
    let caller = id(10);
    let mut record = fresh_record(10);

    assert_eq!(
        update_state(&mut record, &caller, 0),
        Err(TodoError::InvalidIndex)
    );
    assert_eq!(
        remove_todo(&mut record, &caller, 0),
        Err(TodoError::InvalidIndex)
    );
    assert_eq!(
        update_content(&mut record, &caller, 0, "text".to_string()),
        Err(TodoError::InvalidIndex)
    );

    assert!(add_content(&mut record, &caller, "only".to_string()).is_ok());
    assert_eq!(
        update_state(&mut record, &caller, 1),
        Err(TodoError::InvalidIndex)
    );
    assert_eq!(
        remove_todo(&mut record, &caller, 1),
        Err(TodoError::InvalidIndex)
    );
    assert_eq!(
        update_content(&mut record, &caller, 1, "text".to_string()),
        Err(TodoError::InvalidIndex)
    );
    assert_eq!(record.todo_count(), 1);
    assert_eq!(record.get_todo(0).content, "only");
}

#[test]
fn edit_content_checks_come_before_index() {
    let caller = id(11);
    let mut record = fresh_record(11);
    assert_eq!(
        update_content(&mut record, &caller, 5, "  ".to_string()),
        Err(TodoError::EmptyContent)
    );
    assert_eq!(
        update_content(&mut record, &caller, 5, "q".repeat(201)),
        Err(TodoError::ContentTooLong)
    );
}

#[test]
fn edit_trims_and_keeps_completion_flag() {
    let caller = id(12);
    let mut record = fresh_record(12);
    assert!(add_content(&mut record, &caller, "old text".to_string()).is_ok());
    assert!(add_content(&mut record, &caller, "stays".to_string()).is_ok());
    assert!(update_state(&mut record, &caller, 0).is_ok());

    assert!(update_content(&mut record, &caller, 0, "  new text\t".to_string()).is_ok());
    assert_eq!(record.get_todo(0).content, "new text");
    assert!(record.get_todo(0).is_done);
    assert_eq!(record.get_todo(1).content, "stays");
    assert!(!record.get_todo(1).is_done);
}

#[test]
fn trim_strips_unicode_white_space() {
    let caller = id(13);
    let mut record = fresh_record(13);
    assert!(add_content(&mut record, &caller, "\u{a0}\u{2003} note \u{3000}".to_string()).is_ok());
    assert_eq!(record.get_todo(0).content, "note");

    assert_eq!(
        add_content(&mut record, &caller, "\u{2028}\u{2009}\u{85}".to_string()),
        Err(TodoError::EmptyContent)
    );
}

#[test]
fn identity_rules() {
    assert!(Identity::new(vec![]).is_none());
    let a = Identity::new(vec![1, 2, 3]).unwrap();
    let b = Identity::new(vec![1, 2, 3]).unwrap();
    let c = Identity::new(vec![1, 2, 4]).unwrap();
    let d = Identity::new(vec![1, 2]).unwrap();
    assert!(a.equals(&b));
    assert!(!a.equals(&c));
    assert!(!a.equals(&d));
    assert_eq!(a.as_bytes(), &vec![1, 2, 3]);
}
