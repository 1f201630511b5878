use scribble::args::{CreateArgs, DeleteArgs, GetFileArgs, ListArgs, SearchArgs};
use scribble::catalog::FileRepository;
use scribble::error::Error;
use scribble::files::File;

fn file(id: i64, directory: &str, filename: &str, storage_dir: &str) -> File {
    File {
        id,
        directory: directory.to_string(),
        filename: filename.to_string(),
        storage_dir: storage_dir.to_string(),
    }
}

fn create_args(directory: Option<&str>, filename: &str, storage_dir: &str) -> CreateArgs {
    CreateArgs {
        directory: directory.map(|d| d.to_string()),
        filename: filename.to_string(),
        storage_dir: storage_dir.to_string(),
    }
}

fn get_args(directory: Option<&str>, filename: &str, storage_dir: &str) -> GetFileArgs {
    GetFileArgs {
        directory: directory.map(|d| d.to_string()),
        filename: filename.to_string(),
        storage_dir: storage_dir.to_string(),
    }
}

fn delete_args(directory: Option<&str>, filename: &str, storage_dir: &str) -> DeleteArgs {
    DeleteArgs {
        directory: directory.map(|d| d.to_string()),
        filename: filename.to_string(),
        storage_dir: storage_dir.to_string(),
    }
}

fn list_args(directory: Option<&str>, storage_dir: &str) -> ListArgs {
    ListArgs { directory: directory.map(|d| d.to_string()), storage_dir: storage_dir.to_string() }
}

fn search_args(query: &str, directory: Option<&str>, storage_dir: &str) -> SearchArgs {
    SearchArgs {
        directory: directory.map(|d| d.to_string()),
        query: query.to_string(),
        storage_dir: storage_dir.to_string(),
    }
}

fn empty() -> FileRepository {
    FileRepository::new(Vec::new()).unwrap()
}

fn names(files: &[File]) -> Vec<String> {
    files.iter().map(|f| f.filename.clone()).collect()
}

#[test]
fn new_keeps_the_records_in_their_order() {
    let rows = vec![file(7, "", "a", "s"), file(3, "d", "a", "s"), file(9, "", "a", "t")];
    let repository = FileRepository::new(rows.clone()).unwrap();
    assert_eq!(repository.files(), rows);
}

#[test]
fn new_refuses_two_records_with_one_identifier() {
    let rows = vec![file(1, "", "a", "s"), file(1, "", "b", "s")];
    assert_eq!(
        FileRepository::new(rows).unwrap_err(),
        Error::Storage { detail: "two entries share an identifier or a place".to_string() }
    );
}

#[test]
fn new_refuses_two_records_at_one_place() {
    let rows = vec![file(1, "d", "a", "s"), file(2, "x", "a", "s"), file(3, "d", "a", "s")];
    assert!(matches!(FileRepository::new(rows), Err(Error::Storage { .. })));
}

#[test]
fn new_accepts_records_that_differ_in_one_field_only() {
    let rows = vec![
        file(1, "d", "a", "s"),
        file(2, "e", "a", "s"),
        file(3, "d", "b", "s"),
        file(4, "d", "a", "t"),
    ];
    assert!(FileRepository::new(rows).is_ok());
}

#[test]
fn create_then_get_returns_the_inputs() {
    let mut repository = empty();
    let made = repository.create(create_args(Some("work"), "notes.txt", "default")).unwrap();
    assert_eq!(made, file(1, "work", "notes.txt", "default"));
    let found = repository.get_file(get_args(Some("work"), "notes.txt", "default")).unwrap();
    assert_eq!(found, made);
}

#[test]
fn create_without_directory_stores_the_empty_directory() {
    let mut repository = empty();
    let made = repository.create(create_args(None, "todo.md", "default")).unwrap();
    assert_eq!(made.directory, "");
    assert_eq!(repository.get_file(get_args(None, "todo.md", "default")).unwrap(), made);
    assert_eq!(repository.get_file(get_args(Some(""), "todo.md", "default")).unwrap(), made);
}

#[test]
fn create_gives_one_more_than_the_greatest_identifier() {
    let mut repository =
        FileRepository::new(vec![file(41, "", "a", "s"), file(5, "", "b", "s")]).unwrap();
    assert_eq!(repository.create(create_args(None, "c", "s")).unwrap().id, 42);
    assert_eq!(repository.create(create_args(None, "d", "s")).unwrap().id, 43);
}

#[test]
fn create_starts_at_one_when_no_identifier_is_positive() {
    let mut repository = FileRepository::new(vec![file(-8, "", "a", "s")]).unwrap();
    assert_eq!(repository.create(create_args(None, "b", "s")).unwrap().id, 1);
}

#[test]
fn create_twice_conflicts_and_changes_nothing() {
    let mut repository = empty();
    repository.create(create_args(Some("work"), "notes.txt", "default")).unwrap();
    let before = repository.files();
    assert_eq!(
        repository.create(create_args(Some("work"), "notes.txt", "default")),
        Err(Error::Conflict)
    );
    assert_eq!(repository.files(), before);
}

#[test]
fn create_conflicts_between_no_directory_and_the_empty_one() {
    let mut repository = empty();
    repository.create(create_args(None, "todo.md", "default")).unwrap();
    assert_eq!(repository.create(create_args(Some(""), "todo.md", "default")), Err(Error::Conflict));
}

#[test]
fn create_accepts_the_same_name_in_another_storage_root() {
    let mut repository = empty();
    repository.create(create_args(None, "todo.md", "default")).unwrap();
    assert_eq!(
        repository.create(create_args(None, "todo.md", "other")).unwrap(),
        file(2, "", "todo.md", "other")
    );
}

#[test]
fn create_fails_when_no_identifier_is_left() {
    let mut repository = FileRepository::new(vec![file(i64::MAX, "", "a", "s")]).unwrap();
    let before = repository.files();
    assert_eq!(
        repository.create(create_args(None, "b", "s")),
        Err(Error::Storage { detail: "no identifier is left".to_string() })
    );
    assert_eq!(repository.files(), before);
}

#[test]
fn get_of_a_missing_record_is_not_found() {
    let repository = FileRepository::new(vec![file(1, "work", "notes.txt", "default")]).unwrap();
    assert_eq!(repository.get_file(get_args(None, "notes.txt", "default")), Err(Error::NotFound));
    assert_eq!(
        repository.get_file(get_args(Some("work"), "notes.txt", "other")),
        Err(Error::NotFound)
    );
    assert_eq!(
        repository.get_file(get_args(Some("work"), "notes", "default")),
        Err(Error::NotFound)
    );
}

#[test]
fn delete_of_a_missing_record_is_not_found_and_changes_nothing() {
    let mut repository =
        FileRepository::new(vec![file(1, "work", "notes.txt", "default")]).unwrap();
    let before = repository.files();
    assert_eq!(repository.delete(delete_args(None, "notes.txt", "default")), Err(Error::NotFound));
    assert_eq!(repository.files(), before);
}

#[test]
fn delete_returns_the_record_and_keeps_the_others_in_order() {
    let rows = vec![file(1, "", "a", "s"), file(2, "", "b", "s"), file(3, "", "c", "s")];
    let mut repository = FileRepository::new(rows).unwrap();
    assert_eq!(repository.delete(delete_args(None, "b", "s")).unwrap(), file(2, "", "b", "s"));
    assert_eq!(repository.files(), vec![file(1, "", "a", "s"), file(3, "", "c", "s")]);
    assert_eq!(repository.get_file(get_args(None, "b", "s")), Err(Error::NotFound));
}

#[test]
fn delete_after_create_restores_the_catalog() {
    let rows = vec![file(1, "", "a", "s"), file(2, "d", "b", "s")];
    let mut repository = FileRepository::new(rows.clone()).unwrap();
    let made = repository.create(create_args(Some("d"), "c", "s")).unwrap();
    assert_eq!(repository.delete(delete_args(Some("d"), "c", "s")).unwrap(), made);
    assert_eq!(repository.files(), rows);
}

#[test]
fn list_by_directory_returns_exactly_that_directory() {
    let mut repository = empty();
    let made = repository.create(create_args(Some("work"), "notes.txt", "default")).unwrap();
    assert_eq!(repository.list(list_args(Some("work"), "default")), vec![made]);
    assert_eq!(repository.list(list_args(Some("home"), "default")), Vec::<File>::new());
}

#[test]
fn list_without_directory_returns_the_whole_storage_root() {
    let rows = vec![
        file(1, "", "a", "s"),
        file(2, "d", "b", "s"),
        file(3, "", "c", "t"),
        file(4, "e", "d", "s"),
    ];
    let repository = FileRepository::new(rows).unwrap();
    assert_eq!(
        repository.list(list_args(None, "s")),
        vec![file(1, "", "a", "s"), file(2, "d", "b", "s"), file(4, "e", "d", "s")]
    );
    assert_eq!(repository.list(list_args(Some(""), "s")), vec![file(1, "", "a", "s")]);
    assert_eq!(repository.list(list_args(None, "u")), Vec::<File>::new());
}

#[test]
fn search_an_finds_banana_only() {
    let mut repository = empty();
    for name in ["banana", "apple", "grape"] {
        repository.create(create_args(Some("fruit"), name, "default")).unwrap();
    }
    let found = repository.search(search_args("an", Some("fruit"), "default"));
    assert_eq!(names(&found), vec!["banana".to_string()]);
}

#[test]
fn search_applies_the_directory_and_the_storage_root_together_with_the_query() {
    let rows = vec![
        file(1, "fruit", "banana", "default"),
        file(2, "other", "banana", "default"),
        file(3, "fruit", "banana", "elsewhere"),
        file(4, "", "banana", "default"),
        file(5, "fruit", "mango", "default"),
        file(6, "fruit", "pear", "default"),
    ];
    let repository = FileRepository::new(rows).unwrap();
    assert_eq!(
        repository.search(search_args("an", Some("fruit"), "default")),
        vec![file(1, "fruit", "banana", "default"), file(5, "fruit", "mango", "default")]
    );
    assert_eq!(
        repository.search(search_args("an", None, "default")),
        vec![file(4, "", "banana", "default")]
    );
}

#[test]
fn search_tells_upper_case_from_lower_case() {
    let rows = vec![file(1, "", "Banana", "s"), file(2, "", "banana", "s")];
    let repository = FileRepository::new(rows).unwrap();
    assert_eq!(repository.search(search_args("ban", None, "s")), vec![file(2, "", "banana", "s")]);
    assert_eq!(repository.search(search_args("Ban", None, "s")), vec![file(1, "", "Banana", "s")]);
}

#[test]
fn search_takes_percent_and_underscore_as_themselves() {
    let rows = vec![file(1, "", "a_b", "s"), file(2, "", "axb", "s"), file(3, "", "50%", "s")];
    let repository = FileRepository::new(rows).unwrap();
    assert_eq!(repository.search(search_args("_", None, "s")), vec![file(1, "", "a_b", "s")]);
    assert_eq!(repository.search(search_args("%", None, "s")), vec![file(3, "", "50%", "s")]);
}

#[test]
fn search_with_the_empty_query_finds_every_record_in_scope() {
    let rows = vec![file(1, "", "a", "s"), file(2, "d", "b", "s"), file(3, "", "c", "s")];
    let repository = FileRepository::new(rows).unwrap();
    assert_eq!(
        repository.search(search_args("", None, "s")),
        vec![file(1, "", "a", "s"), file(3, "", "c", "s")]
    );
}
