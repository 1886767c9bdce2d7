use file_matcher::{
    copy_entry, move_entry, DirEntry, DirSnapshot, EntryKind, FileMatcherError, FileNamed,
    FolderNamed, OneEntryCopier, OneEntryMover, TransferKind,
};

fn assets() -> DirSnapshot {
    DirSnapshot::new(vec![
        DirEntry::new("cat.txt".to_string(), EntryKind::File),
        DirEntry::new("dog.txt".to_string(), EntryKind::File),
        DirEntry::new("cat".to_string(), EntryKind::Folder),
    ])
}

#[test]
pub fn copy_plan_for_one_file_exact() -> Result<(), FileMatcherError> {
    let file = FileNamed::exact("cat.txt").within("tests/assets");
    let plan = file.copy(&assets(), "target/spot", true)?;

    assert_eq!(plan.source(), "tests/assets/cat.txt");
    assert_eq!(plan.destination(), "target/spot/cat.txt");
    assert_eq!(plan.kind(), TransferKind::FileCopy);
    assert!(!plan.removes_source());
    Ok(())
}

#[test]
pub fn copy_plan_for_one_file_exact_alias() -> Result<(), FileMatcherError> {
    let file = FileNamed::exact("cat.txt")
        .alias("kitty.txt")
        .within("tests/assets");
    let plan = file.copy(&assets(), "target/spot", true)?;

    assert_eq!(plan.source(), "tests/assets/cat.txt");
    assert_eq!(plan.destination(), "target/spot/kitty.txt");
    assert_eq!(plan.kind(), TransferKind::FileCopy);
    Ok(())
}

#[test]
pub fn copy_plan_for_one_folder_exact() -> Result<(), FileMatcherError> {
    let folder = FolderNamed::exact("cat").within("tests/assets");
    let plan = folder.copy(&assets(), "target/spot", true)?;

    assert_eq!(plan.source(), "tests/assets/cat");
    assert_eq!(plan.destination(), "target/spot/cat");
    assert_eq!(plan.kind(), TransferKind::FolderCopy);
    Ok(())
}

#[test]
pub fn copy_plan_for_one_folder_exact_alias() -> Result<(), FileMatcherError> {
    let folder = FolderNamed::exact("cat").alias("kitty").within("tests/assets");
    let plan = folder.copy(&assets(), "target/spot", true)?;

    assert_eq!(plan.destination(), "target/spot/kitty");
    assert_eq!(plan.kind(), TransferKind::FolderCopy);
    Ok(())
}

#[test]
pub fn copy_to_literal_path_keeps_it_verbatim() -> Result<(), FileMatcherError> {
    let file = FileNamed::exact("cat.txt").within("tests/assets");
    let plan = file.copy(&assets(), "target/spot/renamed.txt", false)?;

    assert_eq!(plan.destination(), "target/spot/renamed.txt");
    assert_eq!(plan.kind(), TransferKind::FileCopy);
    Ok(())
}

#[test]
pub fn move_plan_removes_the_source() -> Result<(), FileMatcherError> {
    let file = FileNamed::exact("cat.txt")
        .alias("kitty.txt")
        .within("tests/assets");
    let plan = file.move_to(&assets(), "target/spot", true)?;

    assert_eq!(plan.source(), "tests/assets/cat.txt");
    assert_eq!(plan.destination(), "target/spot/kitty.txt");
    assert_eq!(plan.kind(), TransferKind::FileCopy);
    assert!(plan.removes_source());
    Ok(())
}

#[test]
pub fn copy_of_missing_entry_fails() {
    let file = FileNamed::exact("bird.txt").within("tests/assets");
    match file.copy(&assets(), "target/spot", true) {
        Ok(plan) => panic!("Should fail, but planned {:?}", plan),
        Err(error) => assert!(matches!(error, FileMatcherError::NotExists(_))),
    }
}

#[test]
pub fn plans_for_unreadable_sources_fail() {
    match copy_entry("d/link", EntryKind::Symlink, "link", "target", true) {
        Ok(plan) => panic!("Should fail, but planned {:?}", plan),
        Err(error) => match error {
            FileMatcherError::NotReadable(path) => assert_eq!(path, "d/link"),
            other => panic!("Wrong error type {:?}", other),
        },
    }
    match move_entry("d/dev", EntryKind::Other, "dev", "target", false) {
        Ok(plan) => panic!("Should fail, but planned {:?}", plan),
        Err(error) => assert!(matches!(error, FileMatcherError::NotReadable(_))),
    }
}

#[test]
pub fn free_plans_follow_the_source_kind() -> Result<(), FileMatcherError> {
    let copy = copy_entry("a/cat.txt", EntryKind::File, "kitty.txt", "b", true)?;
    assert_eq!(copy.source(), "a/cat.txt");
    assert_eq!(copy.destination(), "b/kitty.txt");
    assert_eq!(copy.kind(), TransferKind::FileCopy);
    assert!(!copy.removes_source());

    let relocation = move_entry("a/cat", EntryKind::Folder, "cat", "b/spot", false)?;
    assert_eq!(relocation.destination(), "b/spot");
    assert_eq!(relocation.kind(), TransferKind::FolderCopy);
    assert!(relocation.removes_source());
    Ok(())
}
