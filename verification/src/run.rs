//! The runner: the load/unload state transition and the hook statement.
//!
//! `load` installs every declared software independently, then prints the
//! activation exports; no export is printed when any install failed. `unload`
//! prints the deactivation statements in their fixed order and removes the
//! environment directory. Both return the text to print together with the
//! outcome, so that partial output on a late failure reaches the shell the
//! way it was produced.

use vstd::prelude::*;
use crate::archive::Unarchiver;
use crate::cfg::ConfigLoader;
use crate::cfg::SoftwareDefinition;
use crate::cfg::SoftwareDefinitionKind;
use crate::cfg::VarDefinition;
use crate::cfg::VarDefinitionKind;
use crate::cfg::kind_name;
use crate::cli::Command;
use crate::cli::Options;
use crate::cli::Shell;
use crate::error::IoError;
use crate::fs::FileSystem;
use crate::fs::env_dir_path;
use crate::fs::fs_unchanged;
use crate::fs::joined_path;
use crate::fs::lemma_joined_path_ne;
use crate::fs::same_places;
use crate::fs::software_dir_path;
use crate::net::Downloader;
use crate::soft::Software;
use crate::soft::SystemInfo;
use crate::soft::installer::DefaultArchiveArtifactInstaller;
use crate::soft::k8s::ChartTesting;
use crate::soft::tf::Terraform;
use crate::text::has_prefix;
use crate::text::str_starts_with_dash;
use crate::var::Literal;
use crate::var::Var;

verus! {

/// Why a command failed.
#[derive(Debug)]
pub enum Error {
    /// Some variables could not be computed; their exports were not printed.
    Compute(Vec<ComputeError>),
    /// The configuration could not be loaded.
    Config(crate::cfg::Error),
    /// `unload` was invoked with no environment loaded.
    EnvNotLoaded,
    /// Some softwares could not be installed; nothing was printed.
    Install(Vec<InstallError>),
    /// A filesystem primitive failed.
    Io(IoError),
}

impl Error {
    /// The rendering used when this failure is reported.
    pub fn message(&self) -> (r: String)
        ensures
            ({
                match self {
                    Error::Compute(_) => r@ == "Unable to compute value of some variables"@,
                    Error::Config(e) => r@ == crate::cfg::config_error_message(*e),
                    Error::EnvNotLoaded => r@ == "No environment loaded"@,
                    Error::Install(_) => r@ == "Unable to install some softwares"@,
                    Error::Io(e) => r@ == e.message@,
                }
            }),
    {
        match self {
            Error::Compute(_) => "Unable to compute value of some variables".to_owned(),
            Error::Config(e) => e.message(),
            Error::EnvNotLoaded => "No environment loaded".to_owned(),
            Error::Install(_) => "Unable to install some softwares".to_owned(),
            Error::Io(e) => e.message().to_owned(),
        }
    }
}

/// One variable that failed to compute.
#[derive(Debug)]
pub struct ComputeError {
    pub cause: crate::var::Error,
    pub var_name: String,
}

/// One software that failed to install.
#[derive(Debug)]
pub struct InstallError {
    pub cause: crate::soft::Error,
    pub name: String,
    pub version: String,
}

/// Reads the calling process's environment variables.
pub trait EnvVarReader: Sized {
    /// The environment, as a map from name to value.
    open spec fn vars(&self) -> Map<Seq<char>, Seq<char>> {
        Map::empty()
    }

    /// The value of the variable `name`, if it is set.
    fn var(&self, name: &str) -> (r: Option<String>)
        ensures
            match r {
                Some(v) => self.vars().contains_key(name@) && v@ == self.vars()[name@],
                None => !self.vars().contains_key(name@),
            },
    ;
}

/// One `export NAME='VALUE'` line.
pub open spec fn export_line(name: Seq<char>, value: Seq<char>) -> Seq<char> {
    "export "@ + name + "='"@ + value + "'\n"@
}

/// One `unset NAME` line.
pub open spec fn unset_line(name: Seq<char>) -> Seq<char> {
    "unset "@ + name + "\n"@
}

/// The line that prepends the environment directory to `PATH`.
pub open spec fn path_export_line(env_dir: Seq<char>) -> Seq<char> {
    "export PATH=\""@ + env_dir + ":${PATH}\"\n"@
}

/// The configuration path a load works from: the override, or the default.
pub open spec fn chosen_cfg_path(opts: &Options) -> Seq<char> {
    match opts.cfg_filepath {
        Some(p) => p@,
        None => "denv.yml"@,
    }
}

/// The `PATH` value a load snapshots: the variable's value, or empty when it
/// is not set.
pub open spec fn path_backup_of(vars: Map<Seq<char>, Seq<char>>) -> Seq<char> {
    if vars.contains_key("PATH"@) {
        vars["PATH"@]
    } else {
        Seq::empty()
    }
}

/// The four fixed lines `load` prints before the variable exports.
pub open spec fn load_header(
    cwd: Seq<char>,
    cfg_path: Seq<char>,
    path_backup: Seq<char>,
    env_dir: Seq<char>,
) -> Seq<char> {
    export_line("DENV_CWD"@, cwd) + export_line("DENV_CONFIG_FILE"@, cfg_path) + export_line(
        "DENV_PATH_BACKUP"@,
        path_backup,
    ) + path_export_line(env_dir)
}

/// The export lines of the variables from position `i` on that compute, in
/// order, each skipped when it does not.
pub open spec fn var_export_lines<V: Var>(vars: Seq<V>, i: int) -> Seq<char>
    decreases vars.len() - i,
{
    if i < 0 || i >= vars.len() {
        Seq::empty()
    } else {
        (match vars[i].spec_value() {
            Some(v) => export_line(vars[i].spec_name(), v),
            None => Seq::empty(),
        }) + var_export_lines(vars, i + 1)
    }
}

/// How many of the variables from position `i` on do not compute.
pub open spec fn failed_count<V: Var>(vars: Seq<V>, i: int) -> int
    decreases vars.len() - i,
{
    if i < 0 || i >= vars.len() {
        0
    } else {
        (if vars[i].spec_value() is None {
            1int
        } else {
            0int
        }) + failed_count(vars, i + 1)
    }
}

/// The names of the variables from position `i` on that do not compute, in
/// order.
pub open spec fn failed_names<V: Var>(vars: Seq<V>, i: int) -> Seq<Seq<char>>
    decreases vars.len() - i,
{
    if i < 0 || i >= vars.len() {
        Seq::empty()
    } else {
        (if vars[i].spec_value() is None {
            seq![vars[i].spec_name()]
        } else {
            Seq::empty()
        }) + failed_names(vars, i + 1)
    }
}

/// No list has a negative number of failures.
pub proof fn lemma_failed_count_nonneg<V: Var>(vars: Seq<V>, i: int)
    ensures
        failed_count(vars, i) >= 0,
    decreases vars.len() - i,
{
    if !(i < 0 || i >= vars.len()) {
        lemma_failed_count_nonneg(vars, i + 1);
    }
}

/// The required binary's name of a declared software kind.
pub open spec fn def_bin_name(kind: SoftwareDefinitionKind) -> Seq<char> {
    match kind {
        SoftwareDefinitionKind::ChartTesting => "ct"@,
        SoftwareDefinitionKind::Terraform => "terraform"@,
    }
}

/// The cache path of a declared software's required binary.
pub open spec fn def_cached_bin(denv_dir: Seq<char>, def: SoftwareDefinition) -> Seq<char> {
    joined_path(
        software_dir_path(denv_dir, kind_name(def.kind), def.version@),
        def_bin_name(def.kind),
    )
}

/// Where a declared software's environment-directory symlink lives.
pub open spec fn def_env_dest(
    denv_dir: Seq<char>,
    project_dirpath: Seq<char>,
    kind: SoftwareDefinitionKind,
) -> Seq<char> {
    joined_path(env_dir_path(denv_dir, project_dirpath), def_bin_name(kind))
}

/// Whether no declaration after position `m` (before `upto`) repeats the
/// kind of the declaration at `m`.
pub open spec fn kind_settled(defs: Seq<SoftwareDefinition>, m: int, upto: int) -> bool {
    forall|j: int| m < j < upto ==> (#[trigger] defs[j]).kind != defs[m].kind
}

/// Whether an install failure names one of the declared softwares.
pub open spec fn names_a_definition(e: InstallError, defs: Seq<SoftwareDefinition>) -> bool {
    exists|j: int|
        0 <= j < defs.len() && e.name@ == kind_name((#[trigger] defs[j]).kind) && e.version@
            == defs[j].version@
}

/// The names carried by a list of compute failures.
pub open spec fn compute_error_names(errs: Seq<ComputeError>) -> Seq<Seq<char>> {
    errs.map_values(|e: ComputeError| e.var_name@)
}

/// The four fixed lines `unload` prints before the variable unsets.
pub open spec fn unload_header() -> Seq<char> {
    "export PATH=$DENV_PATH_BACKUP\n"@ + unset_line("DENV_CWD"@) + unset_line(
        "DENV_CONFIG_FILE"@,
    ) + unset_line("DENV_PATH_BACKUP"@)
}

/// The `unset` lines of the declared variables from position `i` on, in
/// declaration order.
pub open spec fn unset_var_lines(defs: Seq<VarDefinition>, i: int) -> Seq<char>
    decreases defs.len() - i,
{
    if i < 0 || i >= defs.len() {
        Seq::empty()
    } else {
        unset_line(defs[i].name@) + unset_var_lines(defs, i + 1)
    }
}

/// Appends one `export` line.
fn push_export_line(out: &mut String, name: &str, value: &str)
    ensures
        final(out)@ == old(out)@ + export_line(name@, value@),
{
    out.append("export ");
    out.append(name);
    out.append("='");
    out.append(value);
    out.append("'\n");
    proof {
        assert(final(out)@ =~= old(out)@ + export_line(name@, value@));
    }
}

/// Appends one `unset` line.
fn push_unset_line(out: &mut String, name: &str)
    ensures
        final(out)@ == old(out)@ + unset_line(name@),
{
    out.append("unset ");
    out.append(name);
    out.append("\n");
    proof {
        assert(final(out)@ =~= old(out)@ + unset_line(name@));
    }
}

/// Appends the `PATH` rewrite line.
fn push_path_export_line(out: &mut String, env_dir: &str)
    ensures
        final(out)@ == old(out)@ + path_export_line(env_dir@),
{
    out.append("export PATH=\"");
    out.append(env_dir);
    out.append(":${PATH}\"\n");
    proof {
        assert(final(out)@ =~= old(out)@ + path_export_line(env_dir@));
    }
}

/// The statements `unload` prints, in their fixed order: the `PATH` restore,
/// the three fixed unsets, then one unset per declared variable in
/// declaration order.
pub fn unload_statements(var_defs: &Vec<VarDefinition>) -> (r: String)
    ensures
        r@ == unload_header() + unset_var_lines(var_defs@, 0),
{
    let mut out = String::new();
    out.append("export PATH=$DENV_PATH_BACKUP\n");
    push_unset_line(&mut out, "DENV_CWD");
    push_unset_line(&mut out, "DENV_CONFIG_FILE");
    push_unset_line(&mut out, "DENV_PATH_BACKUP");
    proof {
        assert(out@ =~= unload_header());
    }
    let ghost header = out@;
    let mut i: usize = 0;
    while i < var_defs.len()
        invariant
            i <= var_defs.len(),
            out@ + unset_var_lines(var_defs@, i as int) == header + unset_var_lines(var_defs@, 0),
        decreases var_defs.len() - i,
    {
        let ghost out_before = out@;
        push_unset_line(&mut out, var_defs[i].name.as_str());
        proof {
            assert(unset_var_lines(var_defs@, i as int) == unset_line(var_defs@[i as int].name@)
                + unset_var_lines(var_defs@, i as int + 1));
            assert((out_before + unset_line(var_defs@[i as int].name@)) + unset_var_lines(
                var_defs@,
                i as int + 1,
            ) =~= out_before + (unset_line(var_defs@[i as int].name@) + unset_var_lines(
                var_defs@,
                i as int + 1,
            )));
        }
        i += 1;
    }
    out
}

/// The installable form of one declaration, built without consuming it.
fn software_of(def: &SoftwareDefinition) -> (r: Software)
    ensures
        r.spec_name() == kind_name(def.kind),
        r.spec_version() == def.version@,
        r.bin_name() == def_bin_name(def.kind),
        def.kind is ChartTesting ==> r is ChartTesting,
        def.kind is Terraform ==> r is Terraform,
    {
    match def.kind {
        SoftwareDefinitionKind::ChartTesting => Software::ChartTesting(
            ChartTesting::new(def.version.clone()),
        ),
        SoftwareDefinitionKind::Terraform => Software::Terraform(Terraform::new(def.version.clone())),
    }
}

/// The computable form of one declaration, built without consuming it.
fn literal_of(def: &VarDefinition) -> (r: Literal)
    ensures
        r.name@ == def.name@,
        def.kind matches VarDefinitionKind::Literal(v) ==> r.value@ == v@,
{
    match &def.kind {
        VarDefinitionKind::Literal(value) => Literal::new(def.name.clone(), value.clone()),
    }
}

/// The bash hook statement: an on-prompt trap that loads when a project
/// configuration is in sight and unloads when the activated project is left.
pub open spec fn bash_hook(cli: Seq<char>) -> Seq<char> {
    "_denv_hook() {\n  if [[ -f \"denv.yml\" ]]; then\n    eval \"$("@ + cli
        + " load)\"\n  elif [[ -n \"${DENV_CWD:-}\" && \"$PWD\" != \"$DENV_CWD\" ]]; then\n    eval \"$("@
        + cli
        + " unload)\"\n  fi\n}\nif [[ ! \"${PROMPT_COMMAND:-}\" =~ _denv_hook ]]; then\n  PROMPT_COMMAND=\"_denv_hook${PROMPT_COMMAND:+;$PROMPT_COMMAND}\"\nfi\n"@
}

/// The zsh hook statement: the same trap, registered through `chpwd`.
pub open spec fn zsh_hook(cli: Seq<char>) -> Seq<char> {
    "_denv_hook() {\n  if [[ -f \"denv.yml\" ]]; then\n    eval \"$("@ + cli
        + " load)\"\n  elif [[ -n \"${DENV_CWD:-}\" && \"$PWD\" != \"$DENV_CWD\" ]]; then\n    eval \"$("@
        + cli
        + " unload)\"\n  fi\n}\nautoload -U add-zsh-hook\nadd-zsh-hook chpwd _denv_hook\n_denv_hook\n"@
}

/// The hook statement of a shell.
pub open spec fn hook_statement(shell: Shell, cli: Seq<char>) -> Seq<char> {
    match shell {
        Shell::Bash => bash_hook(cli),
        Shell::Zsh => zsh_hook(cli),
    }
}

/// The flags of the invocation from position `i` on, joined with single
/// spaces onto `acc`; arguments that carry no leading dash are left out.
pub open spec fn hook_opts(args: Seq<String>, i: int, acc: Option<Seq<char>>) -> Option<Seq<char>>
    decreases args.len() - i,
{
    if i < 0 || i >= args.len() {
        acc
    } else if crate::text::starts_with_dash(args[i]@) {
        match acc {
            None => hook_opts(args, i + 1, Some(args[i]@)),
            Some(c) => hook_opts(args, i + 1, Some(c + " "@ + args[i]@)),
        }
    } else {
        hook_opts(args, i + 1, acc)
    }
}

/// The command line the hook statement re-invokes: the program name followed
/// by the invocation's flags.
pub open spec fn hook_cli(args: Seq<String>) -> Seq<char> {
    args[0]@ + (match hook_opts(args, 1, None) {
        None => Seq::<char>::empty(),
        Some(c) => " "@ + c,
    })
}

/// The runner: the collaborators one invocation works through, and the
/// invocation's arguments and machine.
pub struct Runner<C: ConfigLoader, F: FileSystem, D: Downloader, U: Unarchiver, E: EnvVarReader> {
    /// The process arguments, program name first.
    pub args: Vec<String>,
    pub cfg_loader: C,
    pub env: E,
    pub fs: F,
    pub installer: DefaultArchiveArtifactInstaller<D, U>,
    pub system: SystemInfo,
}

impl<C: ConfigLoader, F: FileSystem, D: Downloader, U: Unarchiver, E: EnvVarReader> Runner<
    C,
    F,
    D,
    U,
    E,
> {
    /// Runs one command; the text to print on standard output, and the
    /// outcome.
    pub fn run(&mut self, cmd: &Command, opts: &Options) -> (r: (String, Result<(), Error>))
        requires
            old(self).args@.len() >= 1,
        ensures
            cmd matches Command::Hook(shell) ==> r.0@ == hook_statement(
                *shell,
                hook_cli(old(self).args@),
            ) && r.1 is Ok,
            cmd is Load ==> ({
                match r.1 {
                    Ok(_) => load_header(
                        old(self).fs.cwd_dir(),
                        chosen_cfg_path(opts),
                        path_backup_of(old(self).env.vars()),
                        env_dir_path(old(self).fs.denv_dir(), old(self).fs.cwd_dir()),
                    ).is_prefix_of(r.0@),
                    Err(Error::Compute(errs)) => errs@.len() >= 1 && load_header(
                        old(self).fs.cwd_dir(),
                        chosen_cfg_path(opts),
                        path_backup_of(old(self).env.vars()),
                        env_dir_path(old(self).fs.denv_dir(), old(self).fs.cwd_dir()),
                    ).is_prefix_of(r.0@),
                    Err(Error::Config(_)) => r.0@ == Seq::<char>::empty() && fs_unchanged(
                        &final(self).fs,
                        &old(self).fs,
                    ) && final(self).installer.requests() == old(self).installer.requests(),
                    Err(Error::EnvNotLoaded) => false,
                    Err(Error::Install(errs)) => r.0@ == Seq::<char>::empty() && errs@.len() >= 1,
                    Err(Error::Io(_)) => r.0@ == Seq::<char>::empty() && fs_unchanged(
                        &final(self).fs,
                        &old(self).fs,
                    ) && final(self).installer.requests() == old(self).installer.requests(),
                }
            }),
            cmd is Unload && !old(self).env.vars().contains_key("DENV_CONFIG_FILE"@) ==> r.0@
                == Seq::<char>::empty() && r.1 matches Err(Error::EnvNotLoaded),
            cmd is Unload && old(self).env.vars().contains_key("DENV_CONFIG_FILE"@) ==> !(
            r.1 matches Err(Error::EnvNotLoaded)),
            cmd is Unload && r.1 is Ok ==> unload_header().is_prefix_of(r.0@),
            cmd is Unload && (r.1 matches Err(Error::Io(_))) ==> r.0@ == Seq::<char>::empty()
                || unload_header().is_prefix_of(r.0@),
            cmd is Unload && r.1 is Ok ==> forall|d: Seq<char>| #[trigger]
                final(self).fs.links().contains_key(d) ==> !has_prefix(
                    d,
                    env_dir_path(old(self).fs.denv_dir(), old(self).fs.cwd_dir()) + "/"@,
                ),
    {
        match cmd {
            Command::Hook(shell) => self.run_hook(*shell),
            Command::Load => self.run_load(opts),
            Command::Unload => self.run_unload(),
        }
    }

    /// The hook statement for `shell`, rebuilt around this invocation's
    /// program name and flags.
    fn run_hook(&self, shell: Shell) -> (r: (String, Result<(), Error>))
        requires
            self.args@.len() >= 1,
        ensures
            r.0@ == hook_statement(shell, hook_cli(self.args@)),
            r.1 is Ok,
    {
        let mut opts: Option<String> = None;
        let mut i: usize = 1;
        while i < self.args.len()
            invariant
                1 <= i <= self.args@.len(),
                self.args@.len() >= 1,
                hook_opts(
                    self.args@,
                    i as int,
                    match opts {
                        None => None,
                        Some(c) => Some(c@),
                    },
                ) == hook_opts(self.args@, 1, None),
            decreases self.args@.len() - i,
        {
            if str_starts_with_dash(self.args[i].as_str()) {
                match opts {
                    None => {
                        opts = Some(self.args[i].clone());
                    },
                    Some(c) => {
                        let ghost c_snap = c@;
                        let mut next = c;
                        next.append(" ");
                        next.append(self.args[i].as_str());
                        proof {
                            assert(next@ =~= c_snap + " "@ + self.args@[i as int]@);
                        }
                        opts = Some(next);
                    },
                }
            }
            i += 1;
        }
        let mut cli = self.args[0].clone();
        if let Some(c) = opts {
            cli.append(" ");
            cli.append(c.as_str());
            proof {
                assert(cli@ =~= self.args@[0]@ + (" "@ + c@));
            }
        }
        proof {
            assert(cli@ == hook_cli(self.args@));
        }
        let statement = hook_text(shell, cli.as_str());
        (statement, Ok(()))
    }

    /// The load transition: configuration, working directory, environment
    /// directory, every install, then the exports.
    fn run_load(&mut self, opts: &Options) -> (r: (String, Result<(), Error>))
        ensures
            ({
                match r.1 {
                    Ok(_) => load_header(
                        old(self).fs.cwd_dir(),
                        chosen_cfg_path(opts),
                        path_backup_of(old(self).env.vars()),
                        env_dir_path(old(self).fs.denv_dir(), old(self).fs.cwd_dir()),
                    ).is_prefix_of(r.0@),
                    Err(Error::Compute(errs)) => errs@.len() >= 1 && load_header(
                        old(self).fs.cwd_dir(),
                        chosen_cfg_path(opts),
                        path_backup_of(old(self).env.vars()),
                        env_dir_path(old(self).fs.denv_dir(), old(self).fs.cwd_dir()),
                    ).is_prefix_of(r.0@),
                    Err(Error::Config(_)) => r.0@ == Seq::<char>::empty() && fs_unchanged(
                        &final(self).fs,
                        &old(self).fs,
                    ) && final(self).installer.requests() == old(self).installer.requests()
                        && final(self).installer.decode_calls() == old(
                        self,
                    ).installer.decode_calls(),
                    Err(Error::EnvNotLoaded) => false,
                    Err(Error::Install(errs)) => r.0@ == Seq::<char>::empty() && errs@.len() >= 1,
                    Err(Error::Io(_)) => r.0@ == Seq::<char>::empty() && fs_unchanged(
                        &final(self).fs,
                        &old(self).fs,
                    ) && final(self).installer.requests() == old(self).installer.requests()
                        && final(self).installer.decode_calls() == old(
                        self,
                    ).installer.decode_calls(),
                }
            }),
    {
        let cfg_path: String = match &opts.cfg_filepath {
            Some(p) => p.clone(),
            None => "denv.yml".to_owned(),
        };
        let cfg = match self.cfg_loader.load(cfg_path.as_str()) {
            Ok(c) => c,
            Err(e) => { return (String::new(), Err(Error::Config(e))) },
        };
        let cwd = match self.fs.cwd() {
            Ok(c) => c,
            Err(e) => { return (String::new(), Err(Error::Io(e.to_io_error()))) },
        };
        let env_dirpath = match self.fs.ensure_env_dir(cwd.as_str()) {
            Ok(p) => p,
            Err(e) => { return (String::new(), Err(Error::Io(e.to_io_error()))) },
        };
        if let Err(errs) = self.install_softwares(cwd.as_str(), &cfg.soft_defs) {
            return (String::new(), Err(Error::Install(errs)));
        }
        let path_backup = match self.env.var("PATH") {
            Some(v) => v,
            None => String::new(),
        };
        let mut vars: Vec<Literal> = Vec::new();
        let mut i: usize = 0;
        while i < cfg.var_defs.len()
            invariant
                i <= cfg.var_defs@.len(),
                vars@.len() == i,
            decreases cfg.var_defs@.len() - i,
        {
            vars.push(literal_of(&cfg.var_defs[i]));
            i += 1;
        }
        let r = print_export_statements(
            cwd.as_str(),
            env_dirpath.as_str(),
            cfg_path.as_str(),
            path_backup.as_str(),
            &vars,
        );
        proof {
            lemma_failed_count_nonneg(vars@, 0);
            let header = load_header(
                old(self).fs.cwd_dir(),
                chosen_cfg_path(opts),
                path_backup_of(old(self).env.vars()),
                env_dir_path(old(self).fs.denv_dir(), old(self).fs.cwd_dir()),
            );
            assert(header == load_header(cwd@, cfg_path@, path_backup@, env_dirpath@));
            assert((header + var_export_lines(vars@, 0)).subrange(0, header.len() as int)
                =~= header);
            assert(header.is_prefix_of(r.0@));
        }
        r
    }

    /// The unload transition: the loaded configuration, the deactivation
    /// statements, then the environment directory's removal.
    fn run_unload(&mut self) -> (r: (String, Result<(), Error>))
        ensures
            !old(self).env.vars().contains_key("DENV_CONFIG_FILE"@) ==> r.0@
                == Seq::<char>::empty() && r.1 matches Err(Error::EnvNotLoaded),
            old(self).env.vars().contains_key("DENV_CONFIG_FILE"@) ==> !(r.1 matches Err(
                Error::EnvNotLoaded,
            )),
            r.1 matches Err(e) ==> e is EnvNotLoaded || e is Config || e is Io,
            r.1 is Ok ==> unload_header().is_prefix_of(r.0@),
            r.1 matches Err(Error::Io(_)) ==> r.0@ == Seq::<char>::empty()
                || unload_header().is_prefix_of(r.0@),
            r.1 is Ok ==> forall|d: Seq<char>| #[trigger]
                final(self).fs.links().contains_key(d) ==> !has_prefix(
                    d,
                    env_dir_path(old(self).fs.denv_dir(), old(self).fs.cwd_dir()) + "/"@,
                ),
    {
        let cfg_path = match self.env.var("DENV_CONFIG_FILE") {
            Some(p) => p,
            None => { return (String::new(), Err(Error::EnvNotLoaded)) },
        };
        let cfg = match self.cfg_loader.load(cfg_path.as_str()) {
            Ok(c) => c,
            Err(e) => { return (String::new(), Err(Error::Config(e))) },
        };
        let cwd = match self.fs.cwd() {
            Ok(c) => c,
            Err(e) => { return (String::new(), Err(Error::Io(e.to_io_error()))) },
        };
        let out = unload_statements(&cfg.var_defs);
        proof {
            assert((unload_header() + unset_var_lines(cfg.var_defs@, 0)).subrange(
                0,
                unload_header().len() as int,
            ) =~= unload_header());
            assert(unload_header().is_prefix_of(out@));
        }
        match self.fs.delete_env_dir(cwd.as_str()) {
            Ok(()) => (out, Ok(())),
            Err(e) => (out, Err(Error::Io(e.to_io_error()))),
        }
    }

    /// Installs every declared software independently, collecting the
    /// failures; an error names each failing software with its cause.
    #[verifier::loop_isolation(false)]
    fn install_softwares(&mut self, project_dirpath: &str, defs: &Vec<SoftwareDefinition>) -> (r:
        Result<(), Vec<InstallError>>)
        ensures
            same_places(&final(self).fs, &old(self).fs),
            final(self).env == old(self).env,
            final(self).installer.net_calls() <= old(self).installer.net_calls() + defs@.len(),
            r matches Err(errs) ==> errs@.len() >= 1,
            r matches Err(errs) ==> forall|k: int|
                0 <= k < errs@.len() ==> names_a_definition(#[trigger] errs@[k], defs@),
            r is Ok ==> forall|m: int|
                0 <= m < defs@.len() && kind_settled(defs@, m, defs@.len() as int) ==> final(self).fs.links().contains_key(
                    def_env_dest(
                        old(self).fs.denv_dir(),
                        project_dirpath@,
                        (#[trigger] defs@[m]).kind,
                    ),
                ) && final(self).fs.links()[def_env_dest(
                    old(self).fs.denv_dir(),
                    project_dirpath@,
                    defs@[m].kind,
                )] == def_cached_bin(old(self).fs.denv_dir(), defs@[m]),
    {
        let ghost denv0 = old(self).fs.denv_dir();
        let mut errs: Vec<InstallError> = Vec::new();
        let mut i: usize = 0;
        while i < defs.len()
            invariant
                i <= defs@.len(),
                same_places(&self.fs, &old(self).fs),
                self.env == old(self).env,
                self.installer.net_calls() <= old(self).installer.net_calls() + i,
                forall|k: int|
                    0 <= k < errs@.len() ==> names_a_definition(#[trigger] errs@[k], defs@),
                errs@.len() == 0 ==> forall|m: int|
                    0 <= m < i && kind_settled(defs@, m, i as int)
                        ==> self.fs.links().contains_key(
                        def_env_dest(denv0, project_dirpath@, (#[trigger] defs@[m]).kind),
                    ) && self.fs.links()[def_env_dest(denv0, project_dirpath@, defs@[m].kind)]
                        == def_cached_bin(denv0, defs@[m]),
            decreases defs@.len() - i,
        {
            let ghost fs_before = self.fs;
            let soft = software_of(&defs[i]);
            let res = soft.install(
                project_dirpath,
                &mut self.fs,
                &mut self.installer,
                &self.system,
            );
            proof {
                reveal_strlit("ct");
                reveal_strlit("terraform");
                reveal_strlit(".ct/chart_schema.yaml");
                reveal_strlit(".ct/lintconf.yaml");
                if res is Ok && errs@.len() == 0 {
                    assert(soft.env_link_dest(fs_before.denv_dir(), project_dirpath@)
                        == def_env_dest(denv0, project_dirpath@, defs@[i as int].kind));
                    assert(soft.cached_bin_path(fs_before.denv_dir()) == def_cached_bin(
                        denv0,
                        defs@[i as int],
                    ));
                    assert forall|m: int|
                        0 <= m < i as int + 1 && kind_settled(defs@, m, i as int + 1)
                            implies self.fs.links().contains_key(
                            def_env_dest(denv0, project_dirpath@, (#[trigger] defs@[m]).kind),
                        ) && self.fs.links()[def_env_dest(denv0, project_dirpath@, defs@[m].kind)]
                            == def_cached_bin(denv0, defs@[m]) by {
                        if m < i {
                            assert(kind_settled(defs@, m, i as int));
                            assert(defs@[i as int].kind != defs@[m].kind);
                            let d = def_env_dest(denv0, project_dirpath@, defs@[m].kind);
                            assert(!soft.may_touch_link(
                                d,
                                fs_before.denv_dir(),
                                project_dirpath@,
                                fs_before.home_dir(),
                            )) by {
                                lemma_joined_path_ne(
                                    env_dir_path(denv0, project_dirpath@),
                                    "ct"@,
                                    env_dir_path(denv0, project_dirpath@),
                                    "terraform"@,
                                );
                                lemma_joined_path_ne(
                                    env_dir_path(denv0, project_dirpath@),
                                    "terraform"@,
                                    env_dir_path(denv0, project_dirpath@),
                                    "ct"@,
                                );
                                lemma_joined_path_ne(
                                    env_dir_path(denv0, project_dirpath@),
                                    "terraform"@,
                                    fs_before.home_dir(),
                                    ".ct/chart_schema.yaml"@,
                                );
                                lemma_joined_path_ne(
                                    env_dir_path(denv0, project_dirpath@),
                                    "terraform"@,
                                    fs_before.home_dir(),
                                    ".ct/lintconf.yaml"@,
                                );
                            }
                            assert(fs_before.links().contains_key(d) && fs_before.links()[d]
                                == def_cached_bin(denv0, defs@[m]));
                            assert(self.fs.links().contains_key(d) == fs_before.links().contains_key(d));
                            assert(self.fs.links()[d] == fs_before.links()[d]);
                        }
                    }
                }
            }
            if let Err(cause) = res {
                let name = soft.name().to_owned();
                let version = soft.version().to_owned();
                errs.push(InstallError { cause, name, version });
                proof {
                    assert(errs@.last().name@ == kind_name((defs@[i as int]).kind));
                    assert(errs@.last().version@ == defs@[i as int].version@);
                    assert(names_a_definition(errs@.last(), defs@));
                    assert forall|k: int| 0 <= k < errs@.len() implies names_a_definition(
                        #[trigger] errs@[k],
                        defs@,
                    ) by {
                        if k < errs@.len() - 1 {
                            assert(names_a_definition(errs@[k], defs@));
                        } else {
                            assert(errs@[k] == errs@.last());
                        }
                    }
                }
            }
            i += 1;
        }
        if errs.len() == 0 {
            Ok(())
        } else {
            Err(errs)
        }
    }
}

/// The activation statements: the four fixed export lines, then one export
/// per variable that computes, in declaration order. When some variables do
/// not compute, their exports are skipped and the error names exactly those
/// variables, in order.
pub fn print_export_statements<V: Var>(
    cwd: &str,
    env_dirpath: &str,
    cfg_path: &str,
    path_backup: &str,
    vars: &Vec<V>,
) -> (r: (String, Result<(), Error>))
    ensures
        r.0@ == load_header(cwd@, cfg_path@, path_backup@, env_dirpath@) + var_export_lines(
            vars@,
            0,
        ),
        failed_count(vars@, 0) == 0 ==> r.1 is Ok,
        failed_count(vars@, 0) > 0 ==> ({
            match r.1 {
                Err(Error::Compute(errs)) => errs@.len() == failed_count(vars@, 0)
                    && compute_error_names(errs@) == failed_names(vars@, 0),
                _ => false,
            }
        }),
{
    let mut out = String::new();
    push_export_line(&mut out, "DENV_CWD", cwd);
    push_export_line(&mut out, "DENV_CONFIG_FILE", cfg_path);
    push_export_line(&mut out, "DENV_PATH_BACKUP", path_backup);
    push_path_export_line(&mut out, env_dirpath);
    proof {
        assert(out@ =~= load_header(cwd@, cfg_path@, path_backup@, env_dirpath@));
    }
    let ghost header = out@;
    let mut errs: Vec<ComputeError> = Vec::new();
    let mut i: usize = 0;
    while i < vars.len()
        invariant
            i <= vars@.len(),
            out@ + var_export_lines(vars@, i as int) == header + var_export_lines(vars@, 0),
            errs@.len() + failed_count(vars@, i as int) == failed_count(vars@, 0),
            compute_error_names(errs@) + failed_names(vars@, i as int) == failed_names(vars@, 0),
        decreases vars@.len() - i,
    {
        let ghost out_before = out@;
        let ghost errs_before = errs@;
        let var = &vars[i];
        let var_name = var.name().to_owned();
        match var.compute_value() {
            Ok(value) => {
                push_export_line(&mut out, var_name.as_str(), value.as_str());
            },
            Err(cause) => {
                errs.push(ComputeError { cause, var_name });
            },
        }
        proof {
            assert(var_export_lines(vars@, i as int) == (match vars@[i as int].spec_value() {
                Some(v) => export_line(vars@[i as int].spec_name(), v),
                None => Seq::<char>::empty(),
            }) + var_export_lines(vars@, i as int + 1));
            let line = match vars@[i as int].spec_value() {
                Some(v) => export_line(vars@[i as int].spec_name(), v),
                None => Seq::<char>::empty(),
            };
            assert(out@ =~= out_before + line);
            assert((out_before + line) + var_export_lines(vars@, i as int + 1) =~= out_before + (
            line + var_export_lines(vars@, i as int + 1)));
            assert(failed_names(vars@, i as int) == (if vars@[i as int].spec_value() is None {
                seq![vars@[i as int].spec_name()]
            } else {
                Seq::<Seq<char>>::empty()
            }) + failed_names(vars@, i as int + 1));
            let fname = if vars@[i as int].spec_value() is None {
                seq![vars@[i as int].spec_name()]
            } else {
                Seq::<Seq<char>>::empty()
            };
            assert(compute_error_names(errs@) =~= compute_error_names(errs_before) + fname);
            assert((compute_error_names(errs_before) + fname) + failed_names(vars@, i as int + 1)
                =~= compute_error_names(errs_before) + (fname + failed_names(vars@, i as int + 1)));
        }
        i += 1;
    }
    if errs.len() == 0 {
        proof {
            assert(failed_count(vars@, 0) == 0);
        }
        (out, Ok(()))
    } else {
        (out, Err(Error::Compute(errs)))
    }
}

/// `hook_statement`, executably.
fn hook_text(shell: Shell, cli: &str) -> (r: String)
    ensures
        r@ == hook_statement(shell, cli@),
{
    let mut s = String::new();
    s.append("_denv_hook() {\n  if [[ -f \"denv.yml\" ]]; then\n    eval \"$(");
    s.append(cli);
    s.append(
        " load)\"\n  elif [[ -n \"${DENV_CWD:-}\" && \"$PWD\" != \"$DENV_CWD\" ]]; then\n    eval \"$(",
    );
    s.append(cli);
    match shell {
        Shell::Bash => {
            s.append(
                " unload)\"\n  fi\n}\nif [[ ! \"${PROMPT_COMMAND:-}\" =~ _denv_hook ]]; then\n  PROMPT_COMMAND=\"_denv_hook${PROMPT_COMMAND:+;$PROMPT_COMMAND}\"\nfi\n",
            );
            proof {
                assert(s@ =~= bash_hook(cli@));
            }
        },
        Shell::Zsh => {
            s.append(
                " unload)\"\n  fi\n}\nautoload -U add-zsh-hook\nadd-zsh-hook chpwd _denv_hook\n_denv_hook\n",
            );
            proof {
                assert(s@ =~= zsh_hook(cli@));
            }
        },
    }
    s
}

} // verus!
