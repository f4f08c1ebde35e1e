use timelog::log::get_file_path;

#[test]
fn file_path_for_general_work() {
    assert_eq!(get_file_path(None), "work/sessions.log");
}

#[test]
fn file_path_for_a_task() {
    assert_eq!(get_file_path(Some("mytask")), "tasks/mytask/sessions.log");
}
