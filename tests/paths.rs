use symphoxy::path::{finish_lookup, split_target, PathError};
use symphoxy::InteractiveTui;

fn current_dir_canonical() -> std::path::PathBuf {
    std::path::Path::new(".").canonicalize().unwrap()
}

#[test]
fn relative_file_resolves_in_current_directory() {
    let expected = current_dir_canonical().join("song.wav").into_os_string().into_string().unwrap();
    assert_eq!(InteractiveTui::get_absolute_path("song.wav"), Ok(expected.clone()));
    assert!(expected.ends_with("/song.wav"));
    assert!(expected.starts_with('/'));
}

#[test]
fn missing_parent_directory_is_refused() {
    assert_eq!(
        InteractiveTui::get_absolute_path("/nonexistent/dir/song.wav"),
        Err(PathError::Unresolvable.message())
    );
    assert_eq!(
        InteractiveTui::absolute_path_from_line("/nonexistent/dir/song.wav\n"),
        Err("Failed to canonicalize path. Please enter a valid path.".to_string())
    );
}

#[test]
fn line_whitespace_is_trimmed() {
    let expected = current_dir_canonical().join("song.wav").into_os_string().into_string().unwrap();
    assert_eq!(InteractiveTui::absolute_path_from_line("  song.wav \n"), Ok(expected));
}

#[test]
fn empty_or_root_path_has_no_file_name() {
    let msg = "Invalid path. Please enter a valid file name.".to_string();
    assert_eq!(InteractiveTui::get_absolute_path(""), Err(msg.clone()));
    assert_eq!(InteractiveTui::get_absolute_path("/"), Err(msg.clone()));
    assert_eq!(InteractiveTui::absolute_path_from_line("   \n"), Err(msg));
}

#[test]
fn parent_that_is_a_file_is_refused() {
    assert_eq!(
        InteractiveTui::get_absolute_path("/dev/null/out.wav"),
        Err(PathError::NotADirectory.message())
    );
}

#[test]
fn absolute_parent_is_kept() {
    let root = std::path::Path::new("/").canonicalize().unwrap();
    let expected = root.join("out.wav").into_os_string().into_string().unwrap();
    assert_eq!(InteractiveTui::get_absolute_path("/out.wav"), Ok(expected));
}

#[test]
fn splits_into_directory_and_name() {
    assert_eq!(split_target("song.wav"), Ok((".".to_string(), "song.wav".to_string())));
    assert_eq!(split_target("a/b/c.wav"), Ok(("a/b".to_string(), "c.wav".to_string())));
    assert_eq!(split_target("/c.wav"), Ok(("/".to_string(), "c.wav".to_string())));
    assert_eq!(split_target(""), Err(PathError::NoFileName));
    assert_eq!(split_target("a/.."), Err(PathError::NoFileName));
}

#[test]
fn error_messages() {
    assert_eq!(PathError::NoFileName.message(), "Invalid path. Please enter a valid file name.");
    assert_eq!(
        PathError::NoParent.message(),
        "Failed to get parent directory. Please enter a valid path."
    );
    assert_eq!(
        PathError::NotADirectory.message(),
        "Parent path is not a directory. Please enter a valid path."
    );
    assert_eq!(
        PathError::NotText.message(),
        "Failed to convert path to string. Please enter a valid path."
    );
}

#[test]
fn lookup_outcomes_in_step_order() {
    let parent = Some("/home/user".to_string());
    let expected = std::path::Path::new("/home/user").join("song.wav");
    let expected = expected.into_os_string().into_string().unwrap();
    assert_eq!(expected, "/home/user/song.wav");
    assert_eq!(finish_lookup(true, true, parent.clone(), "song.wav"), Ok(expected));
    assert_eq!(finish_lookup(true, true, Some("/".to_string()), "a.wav"), Ok("/a.wav".to_string()));
    let unresolvable = Err(PathError::Unresolvable.message());
    assert_eq!(finish_lookup(false, false, None, "song.wav"), unresolvable);
    assert_eq!(finish_lookup(false, true, parent.clone(), "song.wav"), unresolvable);
    let not_dir = Err(PathError::NotADirectory.message());
    assert_eq!(finish_lookup(true, false, parent.clone(), "song.wav"), not_dir);
    assert_eq!(finish_lookup(true, false, None, "song.wav"), not_dir);
    let not_text = Err(PathError::NotText.message());
    assert_eq!(finish_lookup(true, true, None, "song.wav"), not_text);
}
