use denv::cfg::Config;
use denv::cfg::DefaultConfigLoader;
use denv::cfg::Error;
use denv::cfg::SoftwareDefinition;
use denv::cfg::SoftwareDefinitionKind;
use denv::cfg::VarDefinition;
use denv::cfg::VarDefinitionKind;
use denv::soft::Software;
use denv::var::Var;

const V1_YAML: &str = "version: v1\nsoftwares:\n  chart-testing: \"3.7.0\"\n  terraform: \"1.2.3\"\nset:\n  - name: VAR_STR\n    value: value\n  - name: VAR_INT\n    value: 1\n  - name: VAR_NB\n    value: 1.1\n  - name: VAR_BOOL\n    value: true\n";

#[test]
fn should_return_yaml_syntax_err() {
    let loader = DefaultConfigLoader;
    match loader.parse("{").unwrap_err() {
        Error::YamlSyntax(_) => {}
        err => panic!("{}", err.message()),
    }
}

#[test]
fn should_return_version_err_if_missing() {
    let loader = DefaultConfigLoader;
    match loader.parse("softwares: {}").unwrap_err() {
        Error::Version(version) => assert!(version.is_none()),
        err => panic!("{}", err.message()),
    }
}

#[test]
fn should_return_version_err_if_invalid() {
    let loader = DefaultConfigLoader;
    match loader.parse("version: 1").unwrap_err() {
        Error::Version(version) => assert_eq!(version.unwrap(), "1"),
        err => panic!("{}", err.message()),
    }
}

#[test]
fn should_return_version_err_if_unknown() {
    let loader = DefaultConfigLoader;
    match loader.parse("version: v2").unwrap_err() {
        Error::Version(version) => assert_eq!(version.unwrap(), "v2"),
        err => panic!("{}", err.message()),
    }
}

#[test]
fn cfg_should_return_config_err() {
    let loader = DefaultConfigLoader;
    match loader.parse("version: v1\nsoftwares: terraform\n").unwrap_err() {
        Error::Config(errs) => assert!(!errs.is_empty()),
        err => panic!("{}", err.message()),
    }
}

#[test]
fn unknown_software_keys_are_rejected() {
    let loader = DefaultConfigLoader;
    match loader.parse("version: v1\nsoftwares:\n  helm: \"3.0.0\"\n").unwrap_err() {
        Error::Config(errs) => assert!(!errs.is_empty()),
        err => panic!("{}", err.message()),
    }
}

#[test]
fn should_return_ok_if_v1() {
    let loader = DefaultConfigLoader;
    let cfg = Config {
        soft_defs: vec![
            SoftwareDefinition {
                kind: SoftwareDefinitionKind::ChartTesting,
                version: "3.7.0".into(),
            },
            SoftwareDefinition {
                kind: SoftwareDefinitionKind::Terraform,
                version: "1.2.3".into(),
            },
        ],
        var_defs: vec![
            VarDefinition {
                kind: VarDefinitionKind::Literal("value".into()),
                name: "VAR_STR".into(),
            },
            VarDefinition {
                kind: VarDefinitionKind::Literal("1".into()),
                name: "VAR_INT".into(),
            },
            VarDefinition {
                kind: VarDefinitionKind::Literal("1.1".into()),
                name: "VAR_NB".into(),
            },
            VarDefinition {
                kind: VarDefinitionKind::Literal("true".into()),
                name: "VAR_BOOL".into(),
            },
        ],
    };
    assert_eq!(loader.parse(V1_YAML).unwrap(), cfg);
}

#[test]
fn empty_v1_config_declares_nothing() {
    let loader = DefaultConfigLoader;
    let cfg = loader.parse("version: v1\n").unwrap();
    assert!(cfg.soft_defs.is_empty());
    assert!(cfg.var_defs.is_empty());
}

#[test]
fn should_return_chart_testing() {
    let def = SoftwareDefinition {
        kind: SoftwareDefinitionKind::ChartTesting,
        version: "1.2.3".into(),
    };
    let soft = def.into_software();
    assert_eq!(soft.version(), "1.2.3");
    match soft {
        Software::ChartTesting(_) => {}
        _ => panic!(),
    }
}

#[test]
fn should_return_terraform() {
    let def = SoftwareDefinition {
        kind: SoftwareDefinitionKind::Terraform,
        version: "1.2.3".into(),
    };
    let soft = def.into_software();
    assert_eq!(soft.version(), "1.2.3");
    match soft {
        Software::Terraform(_) => {}
        _ => panic!(),
    }
}

#[test]
fn should_return_literal() {
    let def = VarDefinition {
        kind: VarDefinitionKind::Literal("value".into()),
        name: "var".into(),
    };
    let var = def.into_var();
    assert_eq!(var.name(), "var");
    assert_eq!(var.value(), "value");
}
