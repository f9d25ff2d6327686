use exit_backup::calendar::CalendarDate;
use exit_backup::paths::{
    backup_dir, backup_file_name, backup_path, source_path, BACKUP_DIR_NAME, SOURCE_FILE_NAME,
};

#[test]
fn names_are_fixed() {
    assert_eq!(SOURCE_FILE_NAME, "aerowis.db");
    assert_eq!(BACKUP_DIR_NAME, "backupDB");
}

#[test]
fn source_lies_in_the_config_directory() {
    assert_eq!(source_path("/cfg"), "/cfg/aerowis.db");
    assert_eq!(source_path("/home/user/.config/app"), "/home/user/.config/app/aerowis.db");
}

#[test]
fn backups_go_below_the_data_directory() {
    assert_eq!(backup_dir("/data"), "/data/backupDB");
}

#[test]
fn directories_are_joined_as_paths() {
    assert_eq!(source_path("/cfg/"), "/cfg/aerowis.db");
    assert_eq!(backup_dir(""), "backupDB");
    assert_eq!(backup_dir("relative/data"), "relative/data/backupDB");
}

#[test]
fn backup_is_named_after_the_day() {
    let date = CalendarDate::new(2024, 3, 5).unwrap();
    assert_eq!(backup_file_name(&date), "BackUp_(05-03-2024).db");
}

#[test]
fn backup_path_is_the_name_in_the_directory() {
    let date = CalendarDate::new(2024, 3, 5).unwrap();
    assert_eq!(backup_path("/data/backupDB", &date), "/data/backupDB/BackUp_(05-03-2024).db");
}

#[test]
fn backup_paths_differ_by_day() {
    let one = CalendarDate::new(2024, 3, 5).unwrap();
    let other = CalendarDate::new(2024, 3, 6).unwrap();
    assert_ne!(backup_path("/data/backupDB", &one), backup_path("/data/backupDB", &other));
    assert_eq!(backup_path("/data/backupDB", &one), backup_path("/data/backupDB", &one));
}
