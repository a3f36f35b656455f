use denv::environment::Environment;
use denv::fs::DefaultFileSystem;
use sha2::Digest;

#[test]
fn should_return_env() {
    let dirpath = "/denv".to_string();
    let digest = sha2::Sha256::digest(dirpath.as_bytes());
    let expected = hex::encode(digest);
    let env = Environment::new(dirpath);
    assert_eq!(env.0, expected);
    assert_eq!(env.id(), expected);
}

#[test]
fn id_is_sixty_four_lowercase_hex_digits() {
    let env = Environment::new("/some/project".to_string());
    assert_eq!(env.id().len(), 64);
    assert!(env.id().chars().all(|c| c.is_ascii_hexdigit() && !c.is_ascii_uppercase()));
}

#[test]
fn different_paths_get_different_ids() {
    let a = Environment::new("/project/a".to_string());
    let b = Environment::new("/project/b".to_string());
    assert_ne!(a.id(), b.id());
}

#[test]
fn should_return_env_dirpath() {
    let fs = DefaultFileSystem::new(".denv".to_string(), "/tmp/denv".to_string());
    let env = Environment::new("/cwd".to_string());
    let expected = format!(".denv/environments/{}", env.id());
    assert_eq!(fs.env_dirpath("/cwd"), expected);
}

#[test]
fn software_dirpath_is_keyed_by_name_and_version() {
    let fs = DefaultFileSystem::new(".denv".to_string(), "/tmp/denv".to_string());
    assert_eq!(
        fs.software_dirpath("terraform", "1.2.3"),
        ".denv/softwares/terraform/1.2.3"
    );
}
