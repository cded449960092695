use browser_manager::{
    finish_project_dir, plan_project_dir, DirStep, DirectoryError, APPLICATION, ORGANIZATION,
    QUALIFIER,
};

#[test]
fn unlocatable_directory_is_an_error() {
    assert_eq!(plan_project_dir(None, false), Err(DirectoryError::Unresolvable));
    assert_eq!(plan_project_dir(None, true), Err(DirectoryError::Unresolvable));
}

#[test]
fn existing_directory_is_used_as_is() {
    let d = "/home/alice/.config/browsermanager".to_string();
    assert_eq!(plan_project_dir(Some(d.clone()), true), Ok(DirStep::Ready(d)));
}

#[test]
fn missing_directory_is_created() {
    let d = "/home/alice/.config/browsermanager".to_string();
    assert_eq!(plan_project_dir(Some(d.clone()), false), Ok(DirStep::Create(d.clone())));
    assert_eq!(finish_project_dir(d.clone(), true), Ok(d));
}

#[test]
fn failed_creation_is_an_error() {
    let d = "/root/forbidden".to_string();
    assert_eq!(finish_project_dir(d, false), Err(DirectoryError::CreationFailed));
}

#[test]
fn second_resolution_gives_the_same_directory() {
    let d = "/home/alice/.config/browsermanager".to_string();
    let first = match plan_project_dir(Some(d.clone()), false) {
        Ok(DirStep::Create(p)) => finish_project_dir(p, true),
        other => panic!("unexpected first step {:?}", other),
    };
    let second = match plan_project_dir(Some(d.clone()), true) {
        Ok(DirStep::Ready(p)) => Ok(p),
        other => panic!("unexpected second step {:?}", other),
    };
    assert_eq!(first, second);
    assert_eq!(second, Ok(d));
}

#[test]
fn project_identity() {
    assert_eq!(QUALIFIER, "org");
    assert_eq!(ORGANIZATION, "webdriver");
    assert_eq!(APPLICATION, "browser-manager");
}
