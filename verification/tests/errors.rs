use denv::cfg::Error as CfgError;
use denv::error::FileSystemError;
use denv::error::IoError;
use denv::run::Error as RunError;
use denv::soft::Error as SoftError;
use denv::var::Literal;
use denv::var::Var;

#[test]
fn run_message_compute() {
    let str = "Unable to compute value of some variables";
    let err = RunError::Compute(vec![]);
    assert_eq!(err.message(), str);
}

#[test]
fn run_message_config() {
    let err = CfgError::Version(None);
    let str = err.message();
    let err = RunError::Config(err);
    assert_eq!(err.message(), str);
}

#[test]
fn run_message_env_not_loaded() {
    let str = "No environment loaded";
    let err = RunError::EnvNotLoaded;
    assert_eq!(err.message(), str);
}

#[test]
fn run_message_install() {
    let str = "Unable to install some softwares";
    let err = RunError::Install(vec![]);
    assert_eq!(err.message(), str);
}

#[test]
fn run_message_io() {
    let err = IoError::new("permission denied".into());
    let str = err.message().to_string();
    let err = RunError::Io(err);
    assert_eq!(err.message(), str);
}

#[test]
fn mod_should_return_str() {
    let str = "This system is not supported";
    let err = SoftError::UnsupportedSystem;
    assert_eq!(err.message(), str);
}

#[test]
fn soft_message_io() {
    let err = IoError::new("permission denied".into());
    let str = err.message().to_string();
    let err = SoftError::Io(err);
    assert_eq!(err.message(), str);
}

#[test]
fn cfg_message_config() {
    let str = "Invalid configuration";
    let err = CfgError::Config(vec![]);
    assert_eq!(err.message(), str);
}

#[test]
fn cfg_message_io() {
    let err = IoError::new("permission denied".into());
    let str = err.message().to_string();
    let err = CfgError::Io(err);
    assert_eq!(err.message(), str);
}

#[test]
fn cfg_message_version_missing() {
    let str = "Missing configuration version";
    let err = CfgError::Version(None);
    assert_eq!(err.message(), str);
}

#[test]
fn cfg_message_version_invalid() {
    let str = "1 is not a valid configuration version";
    let err = CfgError::Version(Some("1".into()));
    assert_eq!(err.message(), str);
}

#[test]
fn cfg_message_yaml_syntax() {
    let err = CfgError::YamlSyntax("while parsing".into());
    assert_eq!(err.message(), "while parsing");
}

#[test]
fn fs_error_keeps_path_and_source() {
    let err = FileSystemError::new("/file".into(), IoError::new("permission denied".into()));
    assert_eq!(err.path(), "/file");
    assert_eq!(err.source().message(), "permission denied");
    assert_eq!(err.message(), "I/O failed on /file: permission denied");
    assert_eq!(err.to_io_error().message(), "I/O failed on /file: permission denied");
}

#[test]
fn var_should_return_var() {
    let name = "var";
    let value = "value";
    let var = Literal::new(name.into(), value.into());
    assert_eq!(var.name(), name);
    assert_eq!(var.value(), value);
}

#[test]
fn literal_computes_its_declared_value() {
    let var = Literal::new("var".into(), "value".into());
    assert_eq!(var.compute_value().unwrap(), "value");
}
