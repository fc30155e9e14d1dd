use sqlite_stub::{set_error_constructor, Database};

fn open(path: &str) -> Database {
    Database::new(path.to_string(), None).value
}

#[test]
fn new_captures_the_path_as_given() {
    let paths = [
        "test.db",
        "",
        ":memory:",
        "./a/../b.db",
        "  spaced name .db  ",
        "/abs//double/slash.db",
        "C:\\data\\file.DB",
        "données/ümlaut-数据.db",
        "line\nbreak.db",
    ];
    for path in paths {
        let opened = Database::new(path.to_string(), None);
        assert_eq!(opened.value.path(), path);
        assert_eq!(opened.trace, format!("[SQLite Stub] Opening database: {}", path));
    }
}

#[test]
fn new_does_not_look_at_the_options() {
    let plain = Database::new("a.db".to_string(), None);
    let empty = Database::new("a.db".to_string(), Some(String::new()));
    let odd = Database::new("a.db".to_string(), Some("not even json {".to_string()));
    assert_eq!(plain.value.path(), "a.db");
    assert_eq!(empty.value.path(), "a.db");
    assert_eq!(odd.value.path(), "a.db");
    assert_eq!(plain.trace, "[SQLite Stub] Opening database: a.db");
    assert_eq!(empty.trace, plain.trace);
    assert_eq!(odd.trace, plain.trace);
}

#[test]
fn new_needs_no_file_behind_the_path() {
    let opened = Database::new("/no/such/directory/anywhere/x.db".to_string(), None);
    assert_eq!(opened.value.path(), "/no/such/directory/anywhere/x.db");
}

#[test]
fn handles_are_independent_of_each_other() {
    let first = open("first.db");
    let second = open("second.db");
    assert_eq!(first.path(), "first.db");
    assert_eq!(second.path(), "second.db");
    first.close();
    assert_eq!(second.path(), "second.db");
    assert_eq!(second.pragma("x".to_string()).value, None);
}

#[test]
fn prepare_captures_any_text_as_given() {
    let db = open("test.db");
    let texts = [
        "SELECT * FROM t",
        "",
        "this is not sql at all",
        "SELECT '; DROP TABLE t; --",
        "  \t leading and trailing \n",
        "SELECT 'ü', '数据'",
    ];
    for sql in texts {
        let prepared = db.prepare(sql.to_string());
        assert_eq!(prepared.value.sql(), sql);
        assert_eq!(prepared.trace, format!("[SQLite Stub] Preparing statement: {}", sql));
    }
}

#[test]
fn prepare_leaves_the_handle_as_it_was() {
    let db = open("kept.db");
    let _one = db.prepare("SELECT 1".to_string());
    let _two = db.prepare("SELECT 2".to_string());
    assert_eq!(db.path(), "kept.db");
}

#[test]
fn exec_accepts_any_text_and_answers_nothing() {
    let db = open("test.db");
    let done = db.exec("CREATE TABLE t(x)".to_string());
    assert_eq!(done.value, ());
    assert_eq!(done.trace, "[SQLite Stub] Executing: CREATE TABLE t(x)");
    let nonsense = db.exec("%%% nonsense %%%".to_string());
    assert_eq!(nonsense.value, ());
    assert_eq!(nonsense.trace, "[SQLite Stub] Executing: %%% nonsense %%%");
    let empty = db.exec(String::new());
    assert_eq!(empty.trace, "[SQLite Stub] Executing: ");
}

#[test]
fn close_announces_itself_without_a_subject() {
    let db = open("test.db");
    let closed = db.close();
    assert_eq!(closed.value, ());
    assert_eq!(closed.trace, "[SQLite Stub] Closing database");
    assert_eq!(open("another.db").close().trace, "[SQLite Stub] Closing database");
}

#[test]
fn pragma_is_always_absent() {
    let db = open("test.db");
    let texts = ["journal_mode", "journal_mode = WAL", "", "user_version", "no such pragma ü"];
    for text in texts {
        let asked = db.pragma(text.to_string());
        assert_eq!(asked.value, None);
        assert_eq!(asked.trace, format!("[SQLite Stub] Pragma: {}", text));
    }
}

#[test]
fn pragma_answers_alike_when_asked_again() {
    let db = open("test.db");
    let first = db.pragma("cache_size".to_string());
    let second = db.pragma("cache_size".to_string());
    assert_eq!(first.value, None);
    assert_eq!(second.value, None);
    assert_eq!(first.trace, second.trace);
}

#[test]
fn closed_handle_still_takes_every_call() {
    let db = open("test.db");
    db.close();
    assert_eq!(db.path(), "test.db");
    let done = db.exec("CREATE TABLE t(x)".to_string());
    assert_eq!(done.value, ());
    assert_eq!(done.trace, "[SQLite Stub] Executing: CREATE TABLE t(x)");
    let asked = db.pragma("journal_mode".to_string());
    assert_eq!(asked.value, None);
    assert_eq!(asked.trace, "[SQLite Stub] Pragma: journal_mode");
    let prepared = db.prepare("SELECT 1".to_string());
    assert_eq!(prepared.value.sql(), "SELECT 1");
    assert_eq!(prepared.value.run(None).value, "{}");
    assert_eq!(prepared.value.get(None).value, None);
    assert_eq!(prepared.value.all(None).value, Vec::<String>::new());
}

#[test]
fn close_may_be_called_again() {
    let db = open("test.db");
    let first = db.close();
    let second = db.close();
    let third = db.close();
    assert_eq!(first.trace, "[SQLite Stub] Closing database");
    assert_eq!(second.trace, first.trace);
    assert_eq!(third.trace, first.trace);
    assert_eq!(db.path(), "test.db");
}

#[test]
fn statement_prepared_before_close_answers_after_it() {
    let db = open("test.db");
    let statement = db.prepare("SELECT * FROM t".to_string()).value;
    db.close();
    assert_eq!(statement.run(None).value, "{}");
    assert_eq!(statement.get(None).value, None);
    assert_eq!(statement.all(None).value, Vec::<String>::new());
}

#[test]
fn set_error_constructor_takes_any_value_and_drops_it() {
    let from_closure = set_error_constructor(|message: &str| message.len());
    assert_eq!(from_closure.value, ());
    assert_eq!(from_closure.trace, "[SQLite Stub] setErrorConstructor called");
    let from_unit = set_error_constructor(());
    assert_eq!(from_unit.trace, "[SQLite Stub] setErrorConstructor called");
    let from_text = set_error_constructor("SqliteError".to_string());
    assert_eq!(from_text.trace, "[SQLite Stub] setErrorConstructor called");
    let from_fn_item = set_error_constructor(String::new);
    assert_eq!(from_fn_item.value, ());
    assert_eq!(from_fn_item.trace, "[SQLite Stub] setErrorConstructor called");
}
