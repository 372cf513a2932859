use todos::app::{EntryInput, MyApp, Notice, Snapshot};
use todos::todolist::{Enum, ItemInput, TodoItem};

fn record(title: &str, active: bool, edit: bool) -> TodoItem {
    TodoItem { title: title.to_string(), active, edit }
}

fn state(radio: Enum, data: Vec<TodoItem>) -> MyApp {
    MyApp::new(Some(Snapshot { addtodo: String::new(), task: 0, radio, data, del: None }))
}

fn titles(app: &MyApp) -> Vec<String> {
    app.items().iter().map(|item| item.title.clone()).collect()
}

fn flags(app: &MyApp) -> Vec<(bool, bool)> {
    app.items().iter().map(|item| (item.active, item.edit)).collect()
}

fn idle(app: &MyApp) -> Vec<ItemInput> {
    app.shown().iter().map(|&i| ItemInput::untouched(&app.items()[i])).collect()
}

fn typed(text: &str, lost_focus: bool, clicked_elsewhere: bool) -> EntryInput {
    EntryInput { text: text.to_string(), lost_focus, clicked_elsewhere }
}

#[test]
fn first_start_is_empty() {
    let app = MyApp::new(None);
    assert_eq!(app.pending_input(), "");
    assert_eq!(app.task(), 0);
    assert_eq!(app.radio(), Enum::All);
    assert!(app.items().is_empty());
    assert_eq!(app.pending_delete(), None);
}

#[test]
fn default_state_is_empty() {
    let app = MyApp::default();
    assert_eq!(app.pending_input(), "");
    assert_eq!(app.task(), 0);
    assert_eq!(app.radio(), Enum::All);
    assert!(app.items().is_empty());
    assert_eq!(app.pending_delete(), None);
}

#[test]
fn start_takes_what_was_stored() {
    let app = MyApp::new(Some(Snapshot {
        addtodo: "half typed".to_string(),
        task: 7,
        radio: Enum::Completed,
        data: vec![record("a", true, false), record("b", false, true)],
        del: None,
    }));
    assert_eq!(app.pending_input(), "half typed");
    assert_eq!(app.task(), 7);
    assert_eq!(app.radio(), Enum::Completed);
    assert_eq!(titles(&app), ["a", "b"]);
    assert_eq!(flags(&app), [(true, false), (false, true)]);
    assert_eq!(app.pending_delete(), None);
}

#[test]
fn start_drops_a_stored_delete_marker() {
    let mut app = MyApp::new(Some(Snapshot {
        addtodo: String::new(),
        task: 1,
        radio: Enum::All,
        data: vec![record("a", false, false)],
        del: Some(0),
    }));
    assert_eq!(app.pending_delete(), None);
    app.dataupdate();
    assert_eq!(titles(&app), ["a"]);
}

#[test]
fn start_drops_a_stored_marker_that_names_no_record() {
    let mut app = MyApp::new(Some(Snapshot {
        addtodo: String::new(),
        task: 0,
        radio: Enum::All,
        data: Vec::new(),
        del: Some(5),
    }));
    assert_eq!(app.pending_delete(), None);
    app.dataupdate();
    assert!(app.items().is_empty());
}

#[test]
fn save_holds_every_field() {
    let mut app = state(Enum::Active, vec![record("a", true, false), record("b", false, true)]);
    app.enter(typed("next", false, false));
    app.dataupdate();
    let snapshot = app.save();
    assert_eq!(snapshot.addtodo, "next");
    assert_eq!(snapshot.task, 1);
    assert_eq!(snapshot.radio, Enum::Active);
    assert_eq!(snapshot.data.len(), 2);
    assert_eq!(snapshot.data[0].title, "a");
    assert!(snapshot.data[0].active);
    assert!(!snapshot.data[0].edit);
    assert_eq!(snapshot.data[1].title, "b");
    assert!(!snapshot.data[1].active);
    assert!(snapshot.data[1].edit);
    assert_eq!(snapshot.del, None);
}

#[test]
fn save_holds_a_pending_delete() {
    let mut app = state(Enum::All, vec![record("a", false, false), record("b", false, true)]);
    let mut seen = idle(&app);
    seen[1].delete_clicked = true;
    app.show_content(&seen);
    assert_eq!(app.save().del, Some(1));
}

#[test]
fn save_then_start_gives_the_state_back_without_the_marker() {
    let mut app = state(Enum::Completed, vec![record("a", true, true), record("b", false, false)]);
    app.enter(typed("draft", false, false));
    let mut seen = idle(&app);
    seen[0].delete_clicked = true;
    app.show_content(&seen);
    assert_eq!(app.pending_delete(), Some(0));

    let again = MyApp::new(Some(app.save()));
    assert_eq!(again.pending_input(), app.pending_input());
    assert_eq!(again.task(), app.task());
    assert_eq!(again.radio(), app.radio());
    assert_eq!(titles(&again), titles(&app));
    assert_eq!(flags(&again), flags(&app));
    assert_eq!(again.pending_delete(), None);
}

#[test]
fn commit_adds_one_record_and_clears_the_field() {
    let mut app = state(Enum::All, vec![record("first", true, false)]);
    app.enter(typed("second", false, false));
    app.commit_pending_input();
    assert_eq!(titles(&app), ["first", "second"]);
    assert_eq!(flags(&app), [(true, false), (false, false)]);
    assert_eq!(app.pending_input(), "");
}

#[test]
fn commit_of_an_empty_field_changes_nothing() {
    let mut app = state(Enum::All, vec![record("first", true, false)]);
    app.commit_pending_input();
    assert_eq!(titles(&app), ["first"]);
    assert_eq!(flags(&app), [(true, false)]);
    assert_eq!(app.pending_input(), "");
}

#[test]
fn commit_takes_blanks_for_text() {
    let mut app = MyApp::new(None);
    app.enter(typed("  ", false, false));
    app.commit_pending_input();
    assert_eq!(titles(&app), ["  "]);
    assert_eq!(app.pending_input(), "");
}

#[test]
fn commit_leaves_count_filter_and_marker() {
    let mut app = MyApp::new(Some(Snapshot {
        addtodo: "more".to_string(),
        task: 3,
        radio: Enum::Completed,
        data: vec![record("a", false, true)],
        del: None,
    }));
    app.select_filter(Enum::All);
    let mut seen = idle(&app);
    seen[0].delete_clicked = true;
    app.show_content(&seen);
    app.select_filter(Enum::Completed);
    app.commit_pending_input();
    assert_eq!(app.task(), 3);
    assert_eq!(app.radio(), Enum::Completed);
    assert_eq!(app.pending_delete(), Some(0));
    assert_eq!(titles(&app), ["a", "more"]);
}

#[test]
fn entry_keeps_the_text_while_the_field_has_the_focus() {
    let mut app = MyApp::new(None);
    app.enter(typed("wri", false, false));
    assert_eq!(app.pending_input(), "wri");
    assert!(app.items().is_empty());
    app.enter(typed("write", false, false));
    assert_eq!(app.pending_input(), "write");
    assert!(app.items().is_empty());
}

#[test]
fn entry_submits_when_the_field_loses_the_focus() {
    let mut app = MyApp::new(None);
    app.enter(typed("write", true, false));
    assert_eq!(app.pending_input(), "");
    assert_eq!(titles(&app), ["write"]);
    assert_eq!(flags(&app), [(false, false)]);
}

#[test]
fn entry_submits_when_a_click_elsewhere_takes_the_focus() {
    let mut app = MyApp::new(None);
    app.enter(typed("write", true, true));
    assert_eq!(app.pending_input(), "");
    assert_eq!(titles(&app), ["write"]);
    assert_eq!(flags(&app), [(false, false)]);
}

#[test]
fn entry_does_not_submit_on_a_click_elsewhere_without_loss_of_focus() {
    let mut app = MyApp::new(None);
    app.enter(typed("write", false, true));
    assert_eq!(app.pending_input(), "write");
    assert!(app.items().is_empty());
}

#[test]
fn entry_submits_alike_however_the_focus_was_lost() {
    let mut one = state(Enum::Active, vec![record("a", true, false)]);
    let mut other = state(Enum::Active, vec![record("a", true, false)]);
    one.enter(typed("b", true, false));
    other.enter(typed("b", true, true));
    assert_eq!(titles(&one), ["a", "b"]);
    assert_eq!(titles(&other), titles(&one));
    assert_eq!(flags(&other), flags(&one));
    assert_eq!(other.pending_input(), one.pending_input());
    assert_eq!(other.pending_input(), "");
}

#[test]
fn entry_ignores_an_empty_submission() {
    let mut app = state(Enum::All, vec![record("a", false, false)]);
    app.enter(typed("", true, false));
    assert_eq!(app.pending_input(), "");
    assert_eq!(titles(&app), ["a"]);
}

#[test]
fn filter_selection_leaves_the_records() {
    let mut app = state(Enum::All, vec![record("a", true, false), record("b", false, false)]);
    app.select_filter(Enum::Completed);
    assert_eq!(app.radio(), Enum::Completed);
    assert_eq!(titles(&app), ["a", "b"]);
    assert_eq!(flags(&app), [(true, false), (false, false)]);
    app.select_filter(Enum::Active);
    assert_eq!(app.radio(), Enum::Active);
    assert_eq!(titles(&app), ["a", "b"]);
}

#[test]
fn each_filter_lists_its_records_in_order() {
    let mut app = state(
        Enum::All,
        vec![
            record("a", true, false),
            record("b", false, false),
            record("c", true, true),
            record("d", false, true),
            record("e", false, false),
        ],
    );
    assert_eq!(app.shown(), [0, 1, 2, 3, 4]);
    app.select_filter(Enum::Active);
    assert_eq!(app.shown(), [1, 3, 4]);
    app.select_filter(Enum::Completed);
    assert_eq!(app.shown(), [0, 2]);
}

#[test]
fn active_and_completed_split_the_full_list() {
    let mut app = state(
        Enum::All,
        vec![
            record("a", false, false),
            record("b", true, false),
            record("c", true, false),
            record("d", false, false),
        ],
    );
    let all = app.shown();
    app.select_filter(Enum::Active);
    let active = app.shown();
    app.select_filter(Enum::Completed);
    let completed = app.shown();
    assert_eq!(all, [0, 1, 2, 3]);
    assert_eq!(active.len() + completed.len(), all.len());
    for i in all {
        assert_ne!(active.contains(&i), completed.contains(&i));
    }
}

#[test]
fn empty_lists_show_their_own_message() {
    let mut app = MyApp::new(None);
    assert_eq!(app.show_content(&Vec::new()), Some(Notice::NoTasks));
    app.select_filter(Enum::Active);
    assert_eq!(app.show_content(&Vec::new()), Some(Notice::NoActiveTasks));
    app.select_filter(Enum::Completed);
    assert_eq!(app.show_content(&Vec::new()), Some(Notice::NoCompletedTasks));
}

#[test]
fn a_filter_without_records_shows_its_message() {
    let mut app = state(Enum::Completed, vec![record("a", false, false)]);
    assert!(app.shown().is_empty());
    assert_eq!(app.show_content(&Vec::new()), Some(Notice::NoCompletedTasks));
    app.select_filter(Enum::Active);
    let seen = idle(&app);
    assert_eq!(app.show_content(&seen), None);
    app.select_filter(Enum::All);
    let seen = idle(&app);
    assert_eq!(app.show_content(&seen), None);

    let mut app = state(Enum::Active, vec![record("a", true, false)]);
    assert_eq!(app.show_content(&Vec::new()), Some(Notice::NoActiveTasks));
}

#[test]
fn toggling_keeps_length_and_order() {
    let mut app = state(
        Enum::All,
        vec![record("a", false, false), record("b", false, false), record("c", true, false)],
    );
    let mut seen = idle(&app);
    seen[1].checked = true;
    seen[2].checked = false;
    assert_eq!(app.show_content(&seen), None);
    assert_eq!(titles(&app), ["a", "b", "c"]);
    assert_eq!(flags(&app), [(false, false), (true, false), (false, false)]);
    assert_eq!(app.pending_delete(), None);
}

#[test]
fn toggling_under_a_filter_reaches_the_displayed_record() {
    let mut app = state(
        Enum::Active,
        vec![record("a", true, false), record("b", false, false), record("c", false, false)],
    );
    let mut seen = idle(&app);
    assert_eq!(seen.len(), 2);
    seen[1].checked = true;
    app.show_content(&seen);
    assert_eq!(titles(&app), ["a", "b", "c"]);
    assert_eq!(flags(&app), [(true, false), (false, false), (true, false)]);
    assert_eq!(app.shown(), [1]);
}

#[test]
fn records_that_are_not_listed_are_not_touched() {
    let mut app = state(
        Enum::Completed,
        vec![record("a", false, true), record("b", true, true), record("c", false, false)],
    );
    let seen = vec![ItemInput {
        text: "B".to_string(),
        delete_clicked: false,
        lost_focus: true,
        clicked_elsewhere: false,
        checked: false,
        edit_clicked: false,
    }];
    app.show_content(&seen);
    assert_eq!(titles(&app), ["a", "B", "c"]);
    assert_eq!(flags(&app), [(false, true), (true, false), (false, false)]);
}

#[test]
fn delete_under_a_filter_removes_the_displayed_record() {
    let mut app = state(
        Enum::Active,
        vec![record("A", true, false), record("B", false, false), record("C", false, true)],
    );
    assert_eq!(app.shown(), [1, 2]);
    let mut seen = idle(&app);
    seen[1].delete_clicked = true;
    app.show_content(&seen);
    assert_eq!(app.pending_delete(), Some(2));
    assert_eq!(titles(&app), ["A", "B", "C"]);
    app.dataupdate();
    assert_eq!(titles(&app), ["A", "B"]);
    assert_eq!(flags(&app), [(true, false), (false, false)]);
    assert_eq!(app.pending_delete(), None);
}

#[test]
fn delete_under_the_completed_filter_removes_the_displayed_record() {
    let mut app = state(
        Enum::Completed,
        vec![
            record("A", false, false),
            record("B", true, true),
            record("C", false, false),
            record("D", true, true),
        ],
    );
    let mut seen = idle(&app);
    seen[0].delete_clicked = true;
    app.show_content(&seen);
    assert_eq!(app.pending_delete(), Some(1));
    app.dataupdate();
    assert_eq!(titles(&app), ["A", "C", "D"]);
}

#[test]
fn delete_under_the_full_list_removes_the_displayed_record() {
    let mut app = state(
        Enum::All,
        vec![record("A", false, true), record("B", true, false), record("C", false, false)],
    );
    let mut seen = idle(&app);
    seen[0].delete_clicked = true;
    app.show_content(&seen);
    assert_eq!(app.pending_delete(), Some(0));
    app.dataupdate();
    assert_eq!(titles(&app), ["B", "C"]);
}

#[test]
fn the_last_delete_click_of_a_redraw_wins() {
    let mut app = state(
        Enum::All,
        vec![record("A", false, true), record("B", false, true), record("C", false, true)],
    );
    let mut seen = idle(&app);
    seen[0].delete_clicked = true;
    seen[1].delete_clicked = true;
    app.show_content(&seen);
    assert_eq!(app.pending_delete(), Some(1));
    app.dataupdate();
    assert_eq!(titles(&app), ["A", "C"]);
}

#[test]
fn a_later_redraw_overwrites_a_pending_delete() {
    let mut app = state(Enum::All, vec![record("A", false, true), record("B", false, true)]);
    let mut seen = idle(&app);
    seen[1].delete_clicked = true;
    app.show_content(&seen);
    assert_eq!(app.pending_delete(), Some(1));
    let mut seen = idle(&app);
    seen[0].delete_clicked = true;
    app.show_content(&seen);
    assert_eq!(app.pending_delete(), Some(0));
}

#[test]
fn a_redraw_without_a_delete_click_keeps_a_pending_delete() {
    let mut app = state(Enum::All, vec![record("A", false, true), record("B", false, false)]);
    let mut seen = idle(&app);
    seen[0].delete_clicked = true;
    app.show_content(&seen);
    let seen = idle(&app);
    app.show_content(&seen);
    assert_eq!(app.pending_delete(), Some(0));
}

#[test]
fn a_delete_click_outside_edit_mode_marks_nothing() {
    let mut app = state(Enum::All, vec![record("A", false, false)]);
    let mut seen = idle(&app);
    seen[0].delete_clicked = true;
    app.show_content(&seen);
    assert_eq!(app.pending_delete(), None);
    app.dataupdate();
    assert_eq!(titles(&app), ["A"]);
}

#[test]
fn typed_title_survives_leaving_the_field() {
    let mut app = state(Enum::All, vec![record("a", false, false), record("b", true, false)]);
    let mut seen = idle(&app);
    seen[1].edit_clicked = true;
    app.show_content(&seen);
    assert_eq!(flags(&app), [(false, false), (true, true)]);

    let mut seen = idle(&app);
    seen[1].text = "b, rewritten".to_string();
    app.show_content(&seen);
    assert_eq!(titles(&app), ["a", "b, rewritten"]);
    assert_eq!(flags(&app), [(false, false), (true, true)]);

    let mut seen = idle(&app);
    seen[1].lost_focus = true;
    app.show_content(&seen);
    app.dataupdate();
    assert_eq!(titles(&app), ["a", "b, rewritten"]);
    assert_eq!(flags(&app), [(false, false), (true, false)]);
}

#[test]
fn count_is_taken_at_the_end_of_a_redraw() {
    let mut app = state(
        Enum::All,
        vec![record("a", false, false), record("b", true, false), record("c", false, false)],
    );
    assert_eq!(app.task(), 0);
    app.dataupdate();
    assert_eq!(app.task(), 2);

    let mut seen = idle(&app);
    seen[0].checked = true;
    app.show_content(&seen);
    assert_eq!(app.task(), 2);
    app.dataupdate();
    assert_eq!(app.task(), 1);

    app.enter(typed("d", true, false));
    assert_eq!(app.task(), 1);
    app.dataupdate();
    assert_eq!(app.task(), 2);
}

#[test]
fn count_of_no_records_is_zero() {
    let mut app = MyApp::new(Some(Snapshot {
        addtodo: String::new(),
        task: 9,
        radio: Enum::All,
        data: Vec::new(),
        del: None,
    }));
    assert_eq!(app.task(), 9);
    app.dataupdate();
    assert_eq!(app.task(), 0);
}

#[test]
fn count_includes_the_record_that_the_same_redraw_removes() {
    let mut app = state(Enum::All, vec![record("a", false, true), record("b", false, false)]);
    let mut seen = idle(&app);
    seen[0].delete_clicked = true;
    app.show_content(&seen);
    app.dataupdate();
    assert_eq!(titles(&app), ["b"]);
    assert_eq!(app.task(), 2);
    app.dataupdate();
    assert_eq!(titles(&app), ["b"]);
    assert_eq!(app.task(), 1);
}

#[test]
fn count_follows_a_run_of_adds_toggles_and_deletes() {
    let mut app = MyApp::new(None);
    for title in ["a", "b", "c", "d"] {
        app.enter(typed(title, true, false));
        let seen = idle(&app);
        app.show_content(&seen);
        app.dataupdate();
    }
    assert_eq!(app.task(), 4);

    let mut seen = idle(&app);
    seen[1].checked = true;
    seen[3].checked = true;
    seen[2].edit_clicked = true;
    app.show_content(&seen);
    app.dataupdate();
    assert_eq!(app.task(), 2);

    app.select_filter(Enum::Active);
    let mut seen = idle(&app);
    seen[1].delete_clicked = true;
    app.show_content(&seen);
    app.dataupdate();
    assert_eq!(titles(&app), ["a", "b", "d"]);

    let seen = idle(&app);
    app.show_content(&seen);
    app.dataupdate();
    let direct = app.items().iter().filter(|item| !item.active).count();
    assert_eq!(direct, 1);
    assert_eq!(app.task(), direct);
}

#[test]
fn idle_redraws_change_nothing() {
    let mut app = state(
        Enum::Active,
        vec![record("a", false, true), record("b", true, false), record("c", false, false)],
    );
    app.enter(typed("typing", false, false));
    let seen = idle(&app);
    app.show_content(&seen);
    app.dataupdate();
    let first = app.save();
    for _ in 0..3 {
        let text = app.pending_input().clone();
        app.enter(EntryInput { text, lost_focus: false, clicked_elsewhere: false });
        let seen = idle(&app);
        assert_eq!(app.show_content(&seen), None);
        app.dataupdate();
    }
    assert_eq!(app.pending_input(), &first.addtodo);
    assert_eq!(app.task(), first.task);
    assert_eq!(app.task(), 2);
    assert_eq!(app.radio(), first.radio);
    assert_eq!(titles(&app), ["a", "b", "c"]);
    assert_eq!(flags(&app), [(false, true), (true, false), (false, false)]);
    assert_eq!(app.pending_delete(), None);
}

#[test]
fn a_record_added_in_a_redraw_is_listed_in_it() {
    let mut app = MyApp::new(None);
    app.enter(typed("new", true, false));
    assert_eq!(app.shown(), [0]);
    let mut seen = idle(&app);
    seen[0].checked = true;
    assert_eq!(app.show_content(&seen), None);
    app.dataupdate();
    assert_eq!(flags(&app), [(true, false)]);
    assert_eq!(app.task(), 0);
}

#[test]
fn a_listed_record_without_a_report_stays_as_it_is() {
    let mut app = state(
        Enum::All,
        vec![record("a", false, true), record("b", false, true), record("c", false, false)],
    );
    let seen = vec![ItemInput {
        text: "A".to_string(),
        delete_clicked: true,
        lost_focus: true,
        clicked_elsewhere: false,
        checked: false,
        edit_clicked: false,
    }];
    assert_eq!(app.show_content(&seen), None);
    assert_eq!(titles(&app), ["A", "b", "c"]);
    assert_eq!(flags(&app), [(false, false), (false, true), (false, false)]);
    assert_eq!(app.pending_delete(), Some(0));

    assert_eq!(app.show_content(&Vec::new()), None);
    assert_eq!(titles(&app), ["A", "b", "c"]);
    assert_eq!(app.pending_delete(), Some(0));
}

#[test]
fn reports_beyond_the_list_are_not_read() {
    let mut app = state(Enum::Active, vec![record("a", true, true), record("b", false, true)]);
    let extra = ItemInput {
        text: "x".to_string(),
        delete_clicked: true,
        lost_focus: true,
        clicked_elsewhere: true,
        checked: true,
        edit_clicked: true,
    };
    let seen = vec![ItemInput::untouched(&app.items()[1]), extra];
    assert_eq!(app.show_content(&seen), None);
    assert_eq!(titles(&app), ["a", "b"]);
    assert_eq!(flags(&app), [(true, true), (false, true)]);
    assert_eq!(app.pending_delete(), None);
}

#[test]
fn show_all_redraws_every_record_whatever_the_filter() {
    let mut app = state(
        Enum::Completed,
        vec![record("a", false, false), record("b", true, true), record("c", false, false)],
    );
    let mut seen: Vec<ItemInput> = app.items().iter().map(ItemInput::untouched).collect();
    seen[0].checked = true;
    seen[1].delete_clicked = true;
    seen[2].edit_clicked = true;
    assert_eq!(app.show_all(&seen), None);
    assert_eq!(app.radio(), Enum::Completed);
    assert_eq!(titles(&app), ["a", "b", "c"]);
    assert_eq!(flags(&app), [(true, false), (true, true), (false, true)]);
    assert_eq!(app.pending_delete(), Some(1));
}

#[test]
fn show_all_of_no_records_shows_its_message() {
    let mut app = state(Enum::Active, Vec::new());
    assert_eq!(app.show_all(&Vec::new()), Some(Notice::NoTasks));
    assert_eq!(app.radio(), Enum::Active);
}

#[test]
fn show_active_marks_the_position_among_all_records() {
    for active in [false, true] {
        let mut app = state(
            Enum::All,
            vec![
                record("a", !active, true),
                record("b", active, true),
                record("c", !active, true),
                record("d", active, true),
            ],
        );
        let mut seen = vec![
            ItemInput::untouched(&app.items()[1]),
            ItemInput::untouched(&app.items()[3]),
        ];
        seen[1].delete_clicked = true;
        assert_eq!(app.show_active(&seen, active), None);
        assert_eq!(app.pending_delete(), Some(3));
        assert_eq!(app.radio(), Enum::All);
        assert_eq!(titles(&app), ["a", "b", "c", "d"]);
        app.dataupdate();
        assert_eq!(titles(&app), ["a", "b", "c"]);
    }
}

#[test]
fn show_active_reaches_the_records_that_matched_before_the_pass() {
    let mut app = state(
        Enum::All,
        vec![
            record("a", false, false),
            record("b", true, false),
            record("c", false, false),
            record("d", true, true),
        ],
    );
    let mut seen = vec![
        ItemInput::untouched(&app.items()[0]),
        ItemInput::untouched(&app.items()[2]),
    ];
    seen[0].checked = true;
    seen[1].edit_clicked = true;
    assert_eq!(app.show_active(&seen, false), None);
    assert_eq!(titles(&app), ["a", "b", "c", "d"]);
    assert_eq!(flags(&app), [(true, false), (true, false), (false, true), (true, true)]);
    assert_eq!(app.pending_delete(), None);
    assert_eq!(app.task(), 0);
    assert_eq!(app.pending_input(), "");
}

#[test]
fn show_active_without_a_match_shows_its_message() {
    let mut app = state(Enum::All, vec![record("a", false, false)]);
    assert_eq!(app.show_active(&Vec::new(), true), Some(Notice::NoCompletedTasks));
    let mut app = state(Enum::All, vec![record("a", true, false)]);
    assert_eq!(app.show_active(&Vec::new(), false), Some(Notice::NoActiveTasks));
    let seen = vec![ItemInput::untouched(&app.items()[0])];
    assert_eq!(app.show_active(&seen, true), None);
}
