use file_matcher::{
    file_name_of, DirEntry, DirSnapshot, EntryKind, FileMatcherError, FileNamed, FileOrFolderNamed,
    FilesNamed, FolderNamed,
};

/// The directory the queries run against: two text files and a folder,
/// mirroring an assets directory holding cat.txt, dog.txt and a folder cat.
fn assets() -> DirSnapshot {
    DirSnapshot::new(vec![
        DirEntry::new("cat.txt".to_string(), EntryKind::File),
        DirEntry::new("dog.txt".to_string(), EntryKind::File),
        DirEntry::new("cat".to_string(), EntryKind::Folder),
    ])
}

#[test]
pub fn find_one_file_exact() -> Result<(), FileMatcherError> {
    let file = FileNamed::exact("cat.txt")
        .within("tests/assets")
        .find(&assets())?;
    assert_eq!(file_name_of(&file).unwrap(), "cat.txt");
    Ok(())
}

#[test]
pub fn exists_one_file_exact() -> Result<(), FileMatcherError> {
    let exists = FileNamed::exact("cat.txt")
        .within("tests/assets")
        .is_present(&assets())?;
    assert!(exists);
    Ok(())
}

#[test]
pub fn does_not_exist_one_file_exact() -> Result<(), FileMatcherError> {
    let exists = FileNamed::exact("kitty.txt")
        .within("tests/assets")
        .is_present(&assets())?;
    assert!(!exists);
    Ok(())
}

#[test]
pub fn one_folder_exact() -> Result<(), FileMatcherError> {
    let folder = FolderNamed::exact("cat")
        .within("tests/assets")
        .find(&assets())?;
    assert_eq!(file_name_of(&folder).unwrap(), "cat");
    Ok(())
}

#[test]
pub fn one_file_any() -> Result<(), FileMatcherError> {
    let file = FileNamed::any(vec!["cat.txt", "bird.txt"])
        .within("tests/assets")
        .find(&assets())?;
    assert_eq!(file_name_of(&file).unwrap(), "cat.txt");
    Ok(())
}

#[test]
pub fn one_file_regex() -> Result<(), FileMatcherError> {
    let file = FileNamed::regex("cat.*")
        .within("tests/assets")
        .find(&assets())?;
    assert_eq!(file_name_of(&file).unwrap(), "cat.txt");
    Ok(())
}

#[test]
pub fn one_folder_regex() -> Result<(), FileMatcherError> {
    let folder = FolderNamed::regex("cat.*")
        .within("tests/assets")
        .find(&assets())?;
    assert_eq!(file_name_of(&folder).unwrap(), "cat");
    Ok(())
}

#[test]
pub fn one_file_wildmatch() -> Result<(), FileMatcherError> {
    let file = FileNamed::wildmatch("cat*")
        .within("tests/assets")
        .find(&assets())?;
    assert_eq!(file_name_of(&file).unwrap(), "cat.txt");
    Ok(())
}

#[test]
pub fn one_folder_wildmatch() -> Result<(), FileMatcherError> {
    let folder = FolderNamed::wildmatch("cat*")
        .within("tests/assets")
        .find(&assets())?;
    assert_eq!(file_name_of(&folder).unwrap(), "cat");
    Ok(())
}

#[test]
pub fn one_file_or_file_wildmatch_error() -> Result<(), FileMatcherError> {
    let entry = FileOrFolderNamed::wildmatch("cat*").within("tests/assets");
    match entry.find(&assets()) {
        Ok(found) => {
            panic!("Should fail, but found one {:?}", &found)
        }
        Err(error) => match &error {
            FileMatcherError::TooMany(failed_entry) => {
                assert_eq!(failed_entry.directory(), entry.directory());
                assert_eq!(failed_entry.entry_name(), entry.entry_name());
                assert_eq!(failed_entry.entry_type(), entry.entry_type());
            }
            _ => {
                panic!("Wrong error type {:?}", error);
            }
        },
    }
    Ok(())
}

#[test]
pub fn many_exact() -> Result<(), FileMatcherError> {
    let files = FilesNamed::exact("cat.txt")
        .within("tests/assets")
        .find(&assets())?;

    let file_names = files
        .iter()
        .map(|each| file_name_of(each).unwrap())
        .collect::<Vec<String>>();
    assert_eq!(file_names.len(), 1);
    assert!(file_names.contains(&"cat.txt".to_string()));
    Ok(())
}

#[test]
pub fn many_any() -> Result<(), FileMatcherError> {
    let files = FilesNamed::any(vec!["cat.txt", "dog.txt", "bird.txt"])
        .within("tests/assets")
        .find(&assets())?;

    let file_names = files
        .iter()
        .map(|each| file_name_of(each).unwrap())
        .collect::<Vec<String>>();
    assert_eq!(file_names.len(), 2);
    assert!(file_names.contains(&"cat.txt".to_string()));
    assert!(file_names.contains(&"dog.txt".to_string()));
    Ok(())
}

#[test]
pub fn many_regex() -> Result<(), FileMatcherError> {
    let files = FilesNamed::regex(".*\\.txt")
        .within("tests/assets")
        .find(&assets())?;

    let file_names = files
        .iter()
        .map(|each| file_name_of(each).unwrap())
        .collect::<Vec<String>>();
    assert_eq!(file_names.len(), 2);
    assert!(file_names.contains(&"cat.txt".to_string()));
    assert!(file_names.contains(&"dog.txt".to_string()));
    Ok(())
}

#[test]
pub fn many_wildmatch() -> Result<(), FileMatcherError> {
    let files = FilesNamed::wildmatch("*.txt")
        .within("tests/assets")
        .find(&assets())?;

    let file_names = files
        .iter()
        .map(|each| file_name_of(each).unwrap())
        .collect::<Vec<String>>();
    assert_eq!(file_names.len(), 2);
    assert!(file_names.contains(&"cat.txt".to_string()));
    assert!(file_names.contains(&"dog.txt".to_string()));
    Ok(())
}

#[test]
pub fn find_full_path_joins_directory_and_name() -> Result<(), FileMatcherError> {
    let file = FileNamed::exact("cat.txt")
        .within("tests/assets")
        .find(&assets())?;
    assert_eq!(file, "tests/assets/cat.txt");
    Ok(())
}

#[test]
pub fn find_twice_returns_same_path() -> Result<(), FileMatcherError> {
    let entry = FileNamed::exact("cat.txt").within("tests/assets");
    let listing = assets();
    let first = entry.find(&listing)?;
    let second = entry.find(&listing)?;
    assert_eq!(first, second);
    Ok(())
}

#[test]
pub fn missing_directory_is_empty_not_error() {
    let empty = DirSnapshot::empty();
    let exists = FileNamed::wildmatch("cat*")
        .within("no/such/place")
        .is_present(&empty)
        .unwrap();
    assert!(!exists);
}

#[test]
pub fn broken_regex_is_an_error_not_absence() {
    let entry = FileNamed::regex("cat(").within("tests/assets");
    match entry.is_present(&assets()) {
        Ok(answer) => panic!("a broken pattern must not become {:?}", answer),
        Err(error) => assert!(matches!(error, FileMatcherError::RegexError(_))),
    }
    match entry.find(&assets()) {
        Ok(found) => panic!("a broken pattern must not resolve to {:?}", found),
        Err(error) => assert!(matches!(error, FileMatcherError::RegexError(_))),
    }
}

#[test]
pub fn symlinks_are_never_matched() {
    let listing = DirSnapshot::new(vec![
        DirEntry::new("cat.txt".to_string(), EntryKind::Symlink),
        DirEntry::new("cat".to_string(), EntryKind::Symlink),
    ]);
    assert!(!FileNamed::exact("cat.txt")
        .within("tests/assets")
        .is_present(&listing)
        .unwrap());
    assert!(!FolderNamed::exact("cat")
        .within("tests/assets")
        .is_present(&listing)
        .unwrap());
    assert!(!FileOrFolderNamed::wildmatch("cat*")
        .within("tests/assets")
        .is_present(&listing)
        .unwrap());
}

#[test]
pub fn wildcard_and_regex_pick_the_same_file() -> Result<(), FileMatcherError> {
    let listing = DirSnapshot::new(vec![
        DirEntry::new("cat.txt".to_string(), EntryKind::File),
        DirEntry::new("dog.txt".to_string(), EntryKind::File),
    ]);
    let by_wildcard = FileNamed::wildmatch("cat*").within("d").find(&listing)?;
    let by_regex = FileNamed::regex("cat.*").within("d").find(&listing)?;
    assert_eq!(by_wildcard, "d/cat.txt");
    assert_eq!(by_regex, "d/cat.txt");
    Ok(())
}

#[test]
pub fn nested_alternatives_concatenate_candidates() -> Result<(), FileMatcherError> {
    let files = FilesNamed::any(vec!["dog.txt", "cat.txt"])
        .within("tests/assets")
        .find(&assets())?;
    assert_eq!(files, vec!["tests/assets/dog.txt", "tests/assets/cat.txt"]);

    let nested = FileNamed::any_named(vec![
        FileNamed::exact("dog.txt"),
        FileNamed::exact("bird.txt"),
    ]);
    let found = nested.within("tests/assets").find(&assets())?;
    assert_eq!(found, "tests/assets/dog.txt");
    Ok(())
}

#[test]
pub fn too_many_within_nested_alternatives() {
    let nested = FileNamed::any_named(vec![
        FileNamed::exact("dog.txt"),
        FileNamed::exact("cat.txt"),
    ]);
    match nested.within("tests/assets").find(&assets()) {
        Ok(found) => panic!("Should fail, but found one {:?}", found),
        Err(error) => assert!(matches!(error, FileMatcherError::TooMany(_))),
    }
}

#[test]
pub fn not_exists_carries_the_query() {
    let entry = FileNamed::exact("bird.txt").within("tests/assets");
    match entry.find(&assets()) {
        Ok(found) => panic!("Should fail, but found one {:?}", found),
        Err(FileMatcherError::NotExists(failed)) => {
            assert_eq!(failed.directory(), "tests/assets");
            assert_eq!(failed.entry_name(), entry.entry_name());
        }
        Err(error) => panic!("Wrong error type {:?}", error),
    }
}

#[test]
pub fn as_string_returns_the_file_name() -> Result<(), FileMatcherError> {
    let name = FileNamed::wildmatch("cat*")
        .within("tests/assets")
        .as_string(&assets())?;
    assert_eq!(name, "cat.txt");
    let path = FileNamed::wildmatch("cat*")
        .within("tests/assets")
        .as_path_buf(&assets())?;
    assert_eq!(path, "tests/assets/cat.txt");
    Ok(())
}

#[test]
pub fn messages_name_the_query_and_the_directory() {
    let entry = FileNamed::exact("bird.txt").within("tests/assets");
    let error = entry.find(&assets()).unwrap_err();
    assert_eq!(
        error.message(),
        "Could not find file named bird.txt in tests/assets"
    );

    let ambiguous = FileOrFolderNamed::wildmatch("cat*").within("tests/assets");
    let error = ambiguous.find(&assets()).unwrap_err();
    assert_eq!(
        error.message(),
        "Found more than one file or folder named wildcard cat* in tests/assets"
    );

    let broken = FileNamed::regex("cat(").within("tests/assets");
    let error = broken.find(&assets()).unwrap_err();
    assert_eq!(error.message(), "Failed to create regex");
}

#[test]
pub fn alternatives_are_spelled_out_in_messages() {
    let entry = FileNamed::any(vec!["bird.txt", "mouse.txt"]).within("tests/assets");
    let error = entry.find(&assets()).unwrap_err();
    assert_eq!(
        error.message(),
        "Could not find file named one of [bird.txt, mouse.txt] in tests/assets"
    );
}
