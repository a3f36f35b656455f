use denv::archive::ArchiveEntry;
use denv::archive::Unarchiver;
use denv::cfg::Config;
use denv::cfg::Error as CfgError;
use denv::cfg::ConfigLoader;
use denv::cfg::SoftwareDefinition;
use denv::cfg::SoftwareDefinitionKind;
use denv::cfg::VarDefinition;
use denv::cfg::VarDefinitionKind;
use denv::cli::Command;
use denv::cli::Options;
use denv::cli::Shell;
use denv::cli::Verbosity;
use denv::error::IoError;
use denv::fs::DefaultFileSystem;
use denv::fs::FileSystem;
use denv::memfs::MemFileSystem;
use denv::net::Downloader;
use denv::run::Error;
use denv::run::Runner;
use denv::run::EnvVarReader;
use denv::run::print_export_statements;
use denv::soft::Error as SoftError;
use denv::soft::Software;
use denv::soft::SystemInfo;
use denv::soft::installer::Artifact;
use denv::soft::installer::DefaultArchiveArtifactInstaller;
use denv::soft::installer::Symlink;
use denv::soft::tf::Terraform;
use denv::soft::k8s::ChartTesting;
use denv::var::Var;

fn mem_fs() -> MemFileSystem {
    MemFileSystem::new("/denv".into(), "/cwd".into(), "/home".into())
}

fn env_dir(fs: &MemFileSystem, project: &str) -> String {
    DefaultFileSystem::new(fs.denv_dirpath.clone(), "/tmp".into()).env_dirpath(project)
}

/// The effective target of a symlink: the newest entry for `dest` wins.
fn link_target<'a>(fs: &'a MemFileSystem, dest: &str) -> Option<&'a str> {
    fs.link_entries.iter().find(|(d, _)| d == dest).map(|(_, s)| s.as_str())
}

#[derive(Clone, Default)]
struct FakeDownloader {
    body: Vec<u8>,
    fail: bool,
    calls: usize,
    urls: Vec<String>,
}

impl Downloader for FakeDownloader {
    fn download(&mut self, url: &str) -> Result<Vec<u8>, IoError> {
        self.calls += 1;
        self.urls.push(url.to_string());
        if self.fail {
            Err(IoError::new("connection refused".into()))
        } else {
            Ok(self.body.clone())
        }
    }
}

#[derive(Clone, Default)]
struct FakeUnarchiver {
    entries: Vec<ArchiveEntry>,
    fail: bool,
    calls: usize,
}

impl FakeUnarchiver {
    fn decode(&mut self) -> Result<Vec<ArchiveEntry>, IoError> {
        self.calls += 1;
        if self.fail {
            Err(IoError::new("invalid archive".into()))
        } else {
            Ok(self.entries.clone())
        }
    }
}

impl Unarchiver for FakeUnarchiver {
    fn untar(&mut self, _archive: &Vec<u8>) -> Result<Vec<ArchiveEntry>, IoError> {
        self.decode()
    }

    fn unzip(&mut self, _archive: &Vec<u8>) -> Result<Vec<ArchiveEntry>, IoError> {
        self.decode()
    }
}

#[derive(Clone)]
struct FakeLoader {
    cfg: Option<Config>,
}

impl ConfigLoader for FakeLoader {
    fn load(&self, _path: &str) -> Result<Config, CfgError> {
        match &self.cfg {
            Some(cfg) => Ok(cfg.clone()),
            None => Err(CfgError::Version(None)),
        }
    }
}

#[derive(Clone, Default)]
struct FakeEnv {
    vars: Vec<(String, String)>,
}

impl EnvVarReader for FakeEnv {
    fn var(&self, name: &str) -> Option<String> {
        self.vars.iter().find(|(n, _)| n == name).map(|(_, v)| v.clone())
    }
}

struct FlakyVar {
    name: String,
    value: Option<String>,
}

impl Var for FlakyVar {
    fn name(&self) -> &str {
        &self.name
    }

    fn compute_value(&self) -> Result<String, denv::var::Error> {
        self.value.clone().ok_or(denv::var::Error)
    }
}

fn entry(path: &str, data: &[u8]) -> ArchiveEntry {
    ArchiveEntry { path: path.into(), data: data.to_vec(), is_dir: false }
}

fn installer(
    downloader: FakeDownloader,
    unarchiver: FakeUnarchiver,
) -> DefaultArchiveArtifactInstaller<FakeDownloader, FakeUnarchiver> {
    DefaultArchiveArtifactInstaller::new(downloader, unarchiver)
}

fn test_artifact() -> Artifact {
    Artifact {
        bin_filepaths: vec!["bin".into()],
        name: "soft".into(),
        symlinks: vec![
            Symlink { dest: "/dest1".into(), required: true, src: "bin1".into() },
            Symlink { dest: "/dest2".into(), required: false, src: "bin2".into() },
        ],
        url: "url".into(),
        version: "1.0.0".into(),
    }
}

fn artifact_downloader() -> FakeDownloader {
    FakeDownloader { body: vec![0xAB], ..FakeDownloader::default() }
}

fn artifact_unarchiver() -> FakeUnarchiver {
    FakeUnarchiver { entries: vec![entry("bin", b"binary")], ..FakeUnarchiver::default() }
}

const CACHE: &str = "/denv/softwares/soft/1.0.0";

#[test]
fn should_return_io_err_if_ensure_software_dir_failed() {
    let mut fs = mem_fs();
    fs.fail_ensure_software_dir = true;
    let mut ins = installer(artifact_downloader(), artifact_unarchiver());
    match ins.install_zip(&test_artifact(), &mut fs).unwrap_err() {
        SoftError::Io(_) => {}
        err => panic!("{}", err.message()),
    }
}

#[test]
fn should_return_io_err_if_download_failed() {
    let mut fs = mem_fs();
    let mut downloader = artifact_downloader();
    downloader.fail = true;
    let mut ins = installer(downloader, artifact_unarchiver());
    match ins.install_zip(&test_artifact(), &mut fs).unwrap_err() {
        SoftError::Io(_) => {}
        err => panic!("{}", err.message()),
    }
}

#[test]
fn should_return_io_err_if_untar_failed() {
    let mut fs = mem_fs();
    let mut unarchiver = artifact_unarchiver();
    unarchiver.fail = true;
    let mut ins = installer(artifact_downloader(), unarchiver);
    match ins.install_targz(&test_artifact(), &mut fs).unwrap_err() {
        SoftError::Io(_) => {}
        err => panic!("{}", err.message()),
    }
}

#[test]
fn should_return_io_err_if_make_executable_failed() {
    let mut fs = mem_fs();
    fs.fail_make_executable = true;
    let mut ins = installer(artifact_downloader(), artifact_unarchiver());
    match ins.install_zip(&test_artifact(), &mut fs).unwrap_err() {
        SoftError::Io(_) => {}
        err => panic!("{}", err.message()),
    }
}

#[test]
fn should_return_io_err_if_ensure_symlink_failed() {
    let mut fs = mem_fs();
    fs.fail_symlink_dests.push("/dest1".into());
    let mut ins = installer(artifact_downloader(), artifact_unarchiver());
    match ins.install_zip(&test_artifact(), &mut fs).unwrap_err() {
        SoftError::Io(_) => {}
        err => panic!("{}", err.message()),
    }
}

#[test]
fn failing_optional_symlink_does_not_fail_the_install() {
    let mut fs = mem_fs();
    fs.fail_symlink_dests.push("/dest2".into());
    let mut ins = installer(artifact_downloader(), artifact_unarchiver());
    ins.install_zip(&test_artifact(), &mut fs).unwrap();
    assert_eq!(link_target(&fs, "/dest1"), Some(format!("{}/bin1", CACHE).as_str()));
    assert_eq!(link_target(&fs, "/dest2"), None);
}

#[test]
fn should_return_ok_if_software_is_not_installed() {
    let mut fs = mem_fs();
    let mut ins = installer(artifact_downloader(), artifact_unarchiver());
    ins.install_zip(&test_artifact(), &mut fs).unwrap();
    assert_eq!(ins.downloader.calls, 1);
    assert_eq!(ins.downloader.urls, vec!["url".to_string()]);
    assert_eq!(ins.unarchiver.calls, 1);
    assert!(fs.file_exists(&format!("{}/bin", CACHE)));
    assert!(fs.exec_paths.contains(&format!("{}/bin", CACHE)));
    assert_eq!(link_target(&fs, "/dest1"), Some(format!("{}/bin1", CACHE).as_str()));
    assert_eq!(link_target(&fs, "/dest2"), Some(format!("{}/bin2", CACHE).as_str()));
}

#[test]
fn should_return_ok_if_software_is_installed() {
    let mut fs = mem_fs();
    fs.file_paths.push(format!("{}/bin", CACHE));
    let mut ins = installer(artifact_downloader(), artifact_unarchiver());
    ins.install_zip(&test_artifact(), &mut fs).unwrap();
    assert_eq!(ins.downloader.calls, 0);
    assert_eq!(ins.unarchiver.calls, 0);
    assert_eq!(link_target(&fs, "/dest1"), Some(format!("{}/bin1", CACHE).as_str()));
}

#[test]
fn installing_twice_downloads_once_and_keeps_the_links() {
    let mut fs = mem_fs();
    let mut ins = installer(artifact_downloader(), artifact_unarchiver());
    ins.install_zip(&test_artifact(), &mut fs).unwrap();
    let target1 = link_target(&fs, "/dest1").unwrap().to_string();
    let target2 = link_target(&fs, "/dest2").unwrap().to_string();
    ins.install_zip(&test_artifact(), &mut fs).unwrap();
    assert_eq!(ins.downloader.calls, 1);
    assert_eq!(ins.unarchiver.calls, 1);
    assert_eq!(link_target(&fs, "/dest1").unwrap(), target1);
    assert_eq!(link_target(&fs, "/dest2").unwrap(), target2);
}

fn linux_amd64() -> SystemInfo {
    SystemInfo { os: "linux".into(), arch: "x86_64".into() }
}

#[test]
fn tf_should_return_soft() {
    let version = "1.2.3";
    let soft = SoftwareDefinition {
        kind: SoftwareDefinitionKind::Terraform,
        version: version.into(),
    }
    .into_software();
    assert_eq!(soft.name(), "terraform");
    assert_eq!(soft.version(), version);
}

#[test]
fn k8s_should_return_soft() {
    let version = "3.7.0";
    let soft = SoftwareDefinition {
        kind: SoftwareDefinitionKind::ChartTesting,
        version: version.into(),
    }
    .into_software();
    assert_eq!(soft.name(), "chart-testing");
    assert_eq!(soft.version(), version);
}

#[test]
fn tf_should_return_io_err_if_ensure_env_dir_failed() {
    let mut fs = mem_fs();
    fs.fail_ensure_env_dir = true;
    let mut ins = installer(artifact_downloader(), artifact_unarchiver());
    let soft = Terraform::new("1.2.3".into());
    match soft.install("/project", &mut fs, &mut ins, &linux_amd64()).unwrap_err() {
        SoftError::Io(_) => {}
        err => panic!("{}", err.message()),
    }
}

#[test]
fn tf_should_return_err_if_install_zip_failed() {
    let mut fs = mem_fs();
    let mut downloader = artifact_downloader();
    downloader.fail = true;
    let mut ins = installer(downloader, artifact_unarchiver());
    let soft = Terraform::new("1.2.3".into());
    match soft.install("/project", &mut fs, &mut ins, &linux_amd64()).unwrap_err() {
        SoftError::Io(_) => {}
        err => panic!("{}", err.message()),
    }
}

#[test]
fn tf_should_return_ok() {
    let mut fs = mem_fs();
    let mut ins = installer(
        artifact_downloader(),
        FakeUnarchiver {
            entries: vec![entry("terraform", b"tf")],
            ..FakeUnarchiver::default()
        },
    );
    let soft = Terraform::new("1.2.3".into());
    soft.install("/project", &mut fs, &mut ins, &linux_amd64()).unwrap();
    assert_eq!(
        ins.downloader.urls,
        vec!["https://releases.hashicorp.com/terraform/1.2.3/terraform_1.2.3_linux_amd64.zip"
            .to_string()]
    );
    let cache_bin = "/denv/softwares/terraform/1.2.3/terraform".to_string();
    assert!(fs.file_exists(&cache_bin));
    assert!(fs.exec_paths.contains(&cache_bin));
    let dest = format!("{}/terraform", env_dir(&fs, "/project"));
    assert_eq!(link_target(&fs, &dest), Some(cache_bin.as_str()));
}

#[test]
fn tf_unsupported_system() {
    let mut fs = mem_fs();
    let mut ins = installer(artifact_downloader(), artifact_unarchiver());
    let soft = Terraform::new("1.2.3".into());
    let sys = SystemInfo { os: "linux".into(), arch: "sparc".into() };
    match soft.install("/project", &mut fs, &mut ins, &sys).unwrap_err() {
        SoftError::UnsupportedSystem => {}
        err => panic!("{}", err.message()),
    }
    assert_eq!(ins.downloader.calls, 0);
    assert!(fs.link_entries.is_empty());
}

#[test]
fn k8s_should_return_io_err_if_ensure_env_dir_is_present_failed() {
    let mut fs = mem_fs();
    fs.fail_ensure_env_dir = true;
    let mut ins = installer(artifact_downloader(), artifact_unarchiver());
    let soft = ChartTesting::new("3.7.0".into());
    match soft.install("/project", &mut fs, &mut ins, &linux_amd64()).unwrap_err() {
        SoftError::Io(_) => {}
        err => panic!("{}", err.message()),
    }
}

#[test]
fn k8s_should_return_err_if_install_zip_failed() {
    let mut fs = mem_fs();
    let mut unarchiver = artifact_unarchiver();
    unarchiver.fail = true;
    let mut ins = installer(artifact_downloader(), unarchiver);
    let soft = ChartTesting::new("3.7.0".into());
    match soft.install("/project", &mut fs, &mut ins, &linux_amd64()).unwrap_err() {
        SoftError::Io(_) => {}
        err => panic!("{}", err.message()),
    }
}

#[test]
fn k8s_should_return_ok() {
    let mut fs = mem_fs();
    let mut ins = installer(
        artifact_downloader(),
        FakeUnarchiver {
            entries: vec![
                entry("ct", b"ct"),
                entry("etc/chart-schema.yaml", b"schema"),
                entry("etc/lintconf.yaml", b"lint"),
            ],
            ..FakeUnarchiver::default()
        },
    );
    let soft = ChartTesting::new("3.7.0".into());
    soft.install("/project", &mut fs, &mut ins, &linux_amd64()).unwrap();
    assert_eq!(
        ins.downloader.urls,
        vec![
            "https://github.com/helm/chart-testing/releases/download/v3.7.0/chart-testing_3.7.0_linux_amd64.tar.gz"
                .to_string()
        ]
    );
    let cache = "/denv/softwares/chart-testing/3.7.0";
    let dest = format!("{}/ct", env_dir(&fs, "/project"));
    assert_eq!(link_target(&fs, &dest), Some(format!("{}/ct", cache).as_str()));
    assert_eq!(
        link_target(&fs, "/home/.ct/chart_schema.yaml"),
        Some(format!("{}/etc/chart-schema.yaml", cache).as_str())
    );
    assert_eq!(
        link_target(&fs, "/home/.ct/lintconf.yaml"),
        Some(format!("{}/etc/lintconf.yaml", cache).as_str())
    );
}

fn terraform_cfg() -> Config {
    Config {
        soft_defs: vec![SoftwareDefinition {
            kind: SoftwareDefinitionKind::Terraform,
            version: "1.2.3".into(),
        }],
        var_defs: vec![VarDefinition {
            kind: VarDefinitionKind::Literal("v".into()),
            name: "VAR".into(),
        }],
    }
}

fn runner(
    cfg: Option<Config>,
    fs: MemFileSystem,
    vars: Vec<(String, String)>,
) -> Runner<FakeLoader, MemFileSystem, FakeDownloader, FakeUnarchiver, FakeEnv> {
    Runner {
        args: vec!["denv".to_string()],
        cfg_loader: FakeLoader { cfg },
        env: FakeEnv { vars },
        fs,
        installer: installer(
            artifact_downloader(),
            FakeUnarchiver {
                entries: vec![entry("terraform", b"tf"), entry("ct", b"ct")],
                ..FakeUnarchiver::default()
            },
        ),
        system: linux_amd64(),
    }
}

fn path_var() -> Vec<(String, String)> {
    vec![("PATH".to_string(), "path".to_string())]
}

#[test]
fn run_should_return_config_err() {
    let mut runner = runner(None, mem_fs(), path_var());
    let (out, res) = runner.run(&Command::Load, &Options::default());
    assert_eq!(out, "");
    match res.unwrap_err() {
        Error::Config(_) => {}
        err => panic!("{}", err.message()),
    }
    assert_eq!(runner.installer.downloader.calls, 0);
    assert!(runner.fs.link_entries.is_empty());
    assert!(runner.fs.file_paths.is_empty());
}

#[test]
fn run_should_return_io_err_if_cwd_failed() {
    let mut fs = mem_fs();
    fs.fail_cwd = true;
    let mut runner = runner(Some(terraform_cfg()), fs, path_var());
    let (out, res) = runner.run(&Command::Load, &Options::default());
    assert_eq!(out, "");
    match res.unwrap_err() {
        Error::Io(_) => {}
        err => panic!("{}", err.message()),
    }
    assert_eq!(runner.installer.downloader.calls, 0);
    assert!(runner.fs.link_entries.is_empty());
}

#[test]
fn run_should_return_io_err_if_ensure_env_dir_failed() {
    let mut fs = mem_fs();
    fs.fail_ensure_env_dir = true;
    let mut runner = runner(Some(terraform_cfg()), fs, path_var());
    let (out, res) = runner.run(&Command::Load, &Options::default());
    assert_eq!(out, "");
    match res.unwrap_err() {
        Error::Io(_) => {}
        err => panic!("{}", err.message()),
    }
}

#[test]
fn should_return_install_err_if_install_failed() {
    let mut runner = runner(Some(terraform_cfg()), mem_fs(), path_var());
    runner.system = SystemInfo { os: "linux".into(), arch: "sparc".into() };
    let (out, res) = runner.run(&Command::Load, &Options::default());
    assert_eq!(out, "");
    match res.unwrap_err() {
        Error::Install(errs) => {
            assert_eq!(errs.len(), 1);
            assert_eq!(errs[0].name, "terraform");
            match errs[0].cause {
                SoftError::UnsupportedSystem => {}
                ref err => panic!("{}", err.message()),
            }
        }
        err => panic!("{}", err.message()),
    }
    assert!(runner.fs.link_entries.is_empty());
}

#[test]
fn one_failing_software_of_two_is_reported_alone() {
    let mut cfg = terraform_cfg();
    cfg.soft_defs.insert(
        0,
        SoftwareDefinition {
            kind: SoftwareDefinitionKind::ChartTesting,
            version: "3.7.0".into(),
        },
    );
    let mut runner = runner(Some(cfg), mem_fs(), path_var());
    runner.system = SystemInfo { os: "linux".into(), arch: "x86".into() };
    let (out, res) = runner.run(&Command::Load, &Options::default());
    assert_eq!(out, "");
    match res.unwrap_err() {
        Error::Install(errs) => {
            assert_eq!(errs.len(), 1);
            assert_eq!(errs[0].name, "chart-testing");
            assert_eq!(errs[0].version, "3.7.0");
        }
        err => panic!("{}", err.message()),
    }
    let dest = format!("{}/terraform", env_dir(&runner.fs, "/cwd"));
    assert_eq!(
        link_target(&runner.fs, &dest),
        Some("/denv/softwares/terraform/1.2.3/terraform")
    );
}

fn expected_load_output(fs: &MemFileSystem, cfg_path: &str) -> String {
    format!(
        "export DENV_CWD='/cwd'\nexport DENV_CONFIG_FILE='{}'\nexport DENV_PATH_BACKUP='path'\nexport PATH=\"{}:${{PATH}}\"\nexport VAR='v'\n",
        cfg_path,
        env_dir(fs, "/cwd"),
    )
}

#[test]
fn should_return_install_ok_with_opts() {
    let mut runner = runner(Some(terraform_cfg()), mem_fs(), path_var());
    let opts = Options {
        cfg_filepath: Some("/config".to_string()),
        no_color: false,
        verbosity: Verbosity::default(),
    };
    let (out, res) = runner.run(&Command::Load, &opts);
    res.unwrap();
    assert_eq!(out, expected_load_output(&runner.fs, "/config"));
}

#[test]
fn should_return_install_ok_without_opts() {
    let mut runner = runner(Some(terraform_cfg()), mem_fs(), path_var());
    let (out, res) = runner.run(&Command::Load, &Options::default());
    res.unwrap();
    assert_eq!(out, expected_load_output(&runner.fs, "denv.yml"));
}

#[test]
fn load_installs_the_declared_terraform() {
    let mut runner = runner(Some(terraform_cfg()), mem_fs(), path_var());
    let (_, res) = runner.run(&Command::Load, &Options::default());
    res.unwrap();
    let cache_bin = "/denv/softwares/terraform/1.2.3/terraform".to_string();
    assert!(runner.fs.file_exists(&cache_bin));
    assert!(runner.fs.exec_paths.contains(&cache_bin));
    let dest = format!("{}/terraform", env_dir(&runner.fs, "/cwd"));
    assert_eq!(link_target(&runner.fs, &dest), Some(cache_bin.as_str()));
    assert_eq!(runner.installer.downloader.calls, 1);
}

#[test]
fn loading_twice_downloads_once() {
    let mut runner = runner(Some(terraform_cfg()), mem_fs(), path_var());
    let (_, res) = runner.run(&Command::Load, &Options::default());
    res.unwrap();
    let dest = format!("{}/terraform", env_dir(&runner.fs, "/cwd"));
    let target = link_target(&runner.fs, &dest).unwrap().to_string();
    let (_, res) = runner.run(&Command::Load, &Options::default());
    res.unwrap();
    assert_eq!(runner.installer.downloader.calls, 1);
    assert_eq!(runner.installer.unarchiver.calls, 1);
    assert_eq!(link_target(&runner.fs, &dest).unwrap(), target);
}

#[test]
fn should_return_install_err_if_compute_failed() {
    let vars = vec![
        FlakyVar { name: "var0".into(), value: Some("ok".into()) },
        FlakyVar { name: "var1".into(), value: None },
        FlakyVar { name: "var2".into(), value: Some("ok2".into()) },
    ];
    let (out, res) = print_export_statements("/cwd", "/env", "/config", "path", &vars);
    match res.unwrap_err() {
        Error::Compute(errs) => {
            assert_eq!(errs.len(), 1);
            assert_eq!(errs[0].var_name, "var1");
        }
        err => panic!("{}", err.message()),
    }
    let expected = "export DENV_CWD='/cwd'\nexport DENV_CONFIG_FILE='/config'\nexport DENV_PATH_BACKUP='path'\nexport PATH=\"/env:${PATH}\"\nexport var0='ok'\nexport var2='ok2'\n";
    assert_eq!(out, expected);
    assert_eq!(out.lines().count(), 4 + 3 - 1);
}

#[test]
fn should_return_env_not_loaded_err() {
    let mut runner = runner(Some(terraform_cfg()), mem_fs(), vec![]);
    let (out, res) = runner.run(&Command::Unload, &Options::default());
    assert_eq!(out, "");
    match res.unwrap_err() {
        Error::EnvNotLoaded => {}
        err => panic!("{}", err.message()),
    }
}

fn loaded_env() -> Vec<(String, String)> {
    vec![("DENV_CONFIG_FILE".to_string(), "/config".to_string())]
}

#[test]
fn unload_should_return_config_err() {
    let mut runner = runner(None, mem_fs(), loaded_env());
    let (out, res) = runner.run(&Command::Unload, &Options::default());
    assert_eq!(out, "");
    match res.unwrap_err() {
        Error::Config(_) => {}
        err => panic!("{}", err.message()),
    }
}

#[test]
fn unload_should_return_io_err_if_cwd_failed() {
    let mut fs = mem_fs();
    fs.fail_cwd = true;
    let mut runner = runner(Some(terraform_cfg()), fs, loaded_env());
    let (out, res) = runner.run(&Command::Unload, &Options::default());
    assert_eq!(out, "");
    match res.unwrap_err() {
        Error::Io(_) => {}
        err => panic!("{}", err.message()),
    }
}

const UNLOAD_OUTPUT: &str =
    "export PATH=$DENV_PATH_BACKUP\nunset DENV_CWD\nunset DENV_CONFIG_FILE\nunset DENV_PATH_BACKUP\nunset VAR\n";

#[test]
fn should_return_io_err_if_delete_env_dir_failed() {
    let mut fs = mem_fs();
    fs.fail_delete_env_dir = true;
    let mut runner = runner(Some(terraform_cfg()), fs, loaded_env());
    let (out, res) = runner.run(&Command::Unload, &Options::default());
    assert_eq!(out, UNLOAD_OUTPUT);
    match res.unwrap_err() {
        Error::Io(_) => {}
        err => panic!("{}", err.message()),
    }
}

#[test]
fn should_return_install_ok() {
    let mut runner = runner(Some(terraform_cfg()), mem_fs(), loaded_env());
    let (out, res) = runner.run(&Command::Unload, &Options::default());
    res.unwrap();
    assert_eq!(out, UNLOAD_OUTPUT);
}

#[test]
fn unload_removes_the_environment_links() {
    let mut env = loaded_env();
    env.extend(path_var());
    let mut runner = runner(Some(terraform_cfg()), mem_fs(), env);
    let (_, res) = runner.run(&Command::Load, &Options::default());
    res.unwrap();
    let dest = format!("{}/terraform", env_dir(&runner.fs, "/cwd"));
    assert!(link_target(&runner.fs, &dest).is_some());
    let (_, res) = runner.run(&Command::Unload, &Options::default());
    res.unwrap();
    assert!(link_target(&runner.fs, &dest).is_none());
}

fn expected_hook(shell: Shell, cli: &str) -> String {
    let tail = match shell {
        Shell::Bash => {
            " unload)\"\n  fi\n}\nif [[ ! \"${PROMPT_COMMAND:-}\" =~ _denv_hook ]]; then\n  PROMPT_COMMAND=\"_denv_hook${PROMPT_COMMAND:+;$PROMPT_COMMAND}\"\nfi\n"
        }
        Shell::Zsh => {
            " unload)\"\n  fi\n}\nautoload -U add-zsh-hook\nadd-zsh-hook chpwd _denv_hook\n_denv_hook\n"
        }
    };
    format!(
        "_denv_hook() {{\n  if [[ -f \"denv.yml\" ]]; then\n    eval \"$({} load)\"\n  elif [[ -n \"${{DENV_CWD:-}}\" && \"$PWD\" != \"$DENV_CWD\" ]]; then\n    eval \"$({}{}",
        cli, cli, tail,
    )
}

#[test]
fn hook_bash_without_opts() {
    let mut runner = runner(Some(terraform_cfg()), mem_fs(), vec![]);
    runner.args = vec!["denv".into(), "hook".into(), "bash".into()];
    let (out, res) = runner.run(&Command::Hook(Shell::Bash), &Options::default());
    res.unwrap();
    assert_eq!(out, expected_hook(Shell::Bash, "denv"));
}

#[test]
fn hook_bash_with_opts() {
    let mut runner = runner(Some(terraform_cfg()), mem_fs(), vec![]);
    runner.args =
        vec!["denv".into(), "-vvvv".into(), "--no-color".into(), "hook".into(), "bash".into()];
    let (out, res) = runner.run(&Command::Hook(Shell::Bash), &Options::default());
    res.unwrap();
    assert_eq!(out, expected_hook(Shell::Bash, "denv -vvvv --no-color"));
}

#[test]
fn hook_bash_with_one_flag() {
    let mut runner = runner(Some(terraform_cfg()), mem_fs(), vec![]);
    runner.args = vec!["denv".into(), "-q".into(), "hook".into(), "bash".into()];
    let (out, res) = runner.run(&Command::Hook(Shell::Bash), &Options::default());
    res.unwrap();
    assert_eq!(out, expected_hook(Shell::Bash, "denv -q"));
}

#[test]
fn hook_zsh_without_opts() {
    let mut runner = runner(Some(terraform_cfg()), mem_fs(), vec![]);
    runner.args = vec!["denv".into(), "hook".into(), "zsh".into()];
    let (out, res) = runner.run(&Command::Hook(Shell::Zsh), &Options::default());
    res.unwrap();
    assert_eq!(out, expected_hook(Shell::Zsh, "denv"));
}
