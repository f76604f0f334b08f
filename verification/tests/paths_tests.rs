use staff_directory::paths::choose_downloads_dir;
use staff_directory::paths::downloads_under;
use staff_directory::paths::get_database_path;
use std::path::PathBuf;

#[test]
fn the_database_lies_in_the_data_directory() {
    let dir = PathBuf::from("data").join("staff");
    let path = get_database_path(&dir);
    assert_eq!(path, dir.join("staff_database.db"));
    assert_eq!(path.file_name().unwrap(), "staff_database.db");
    assert_eq!(path.parent().unwrap(), dir.as_path());
    assert_ne!(path, dir);
}

#[test]
fn the_data_directory_is_left_as_it_is() {
    let dir = PathBuf::from("data");
    let _ = get_database_path(&dir);
    assert_eq!(dir, PathBuf::from("data"));
    assert_eq!(get_database_path(&PathBuf::new()), PathBuf::from("staff_database.db"));
}

#[test]
fn downloads_lie_under_the_home() {
    let home = PathBuf::from("home").join("perera");
    let path = downloads_under(&home);
    assert_eq!(path, home.join("Downloads"));
    assert_eq!(path.file_name().unwrap(), "Downloads");
}

#[test]
fn the_first_place_that_is_there_is_chosen() {
    let known = PathBuf::from("known");
    let home = PathBuf::from("home");
    let profile = PathBuf::from("profile");
    assert_eq!(
        choose_downloads_dir(Some(known.clone()), Some(home.clone()), Some(profile.clone())),
        Ok(known.clone())
    );
    assert_eq!(choose_downloads_dir(Some(known.clone()), None, None), Ok(known));
    assert_eq!(
        choose_downloads_dir(None, Some(home.clone()), Some(profile.clone())),
        Ok(home)
    );
    assert_eq!(choose_downloads_dir(None, None, Some(profile.clone())), Ok(profile));
}

#[test]
fn without_any_place_the_choice_fails() {
    assert_eq!(
        choose_downloads_dir(None, None, None),
        Err("Could not find Downloads directory".to_string())
    );
}
