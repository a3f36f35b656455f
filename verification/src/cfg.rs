//! Configuration: the declared softwares and variables, read from a YAML
//! document, checked against the configuration schema, and turned into plain
//! definitions.
//!
//! The YAML text is parsed and schema-checked by outside crates behind
//! trusted wrappers; everything the library then reads is first converted to
//! the library's own document type, and the walk from document to
//! configuration is verified.

use vstd::prelude::*;
use crate::error::IoError;
use crate::soft::Software;
use crate::soft::k8s::ChartTesting;
use crate::soft::tf::Terraform;
use crate::var::Literal;

verus! {

/// The configuration schema, applied to every document that declares
/// `version: v1`.
pub const CONFIG_SCHEMA: &'static str = "{\n  \"type\": \"object\",\n  \"properties\": {\n    \"version\": {\"type\": \"string\"},\n    \"softwares\": {\n      \"type\": \"object\",\n      \"properties\": {\n        \"chart-testing\": {\"type\": \"string\"},\n        \"terraform\": {\"type\": \"string\"}\n      },\n      \"additionalProperties\": false\n    },\n    \"set\": {\n      \"type\": \"array\",\n      \"items\": {\n        \"type\": \"object\",\n        \"properties\": {\n          \"name\": {\"type\": \"string\"},\n          \"value\": {\"type\": [\"boolean\", \"number\", \"string\"]}\n        },\n        \"required\": [\"name\", \"value\"],\n        \"additionalProperties\": false\n      }\n    }\n  },\n  \"required\": [\"version\"],\n  \"additionalProperties\": false\n}\n";

/// Why a configuration could not be loaded.
#[derive(Clone, Debug, PartialEq, Eq)]
pub enum Error {
    /// The document violates the schema; one rendered message per violation.
    Config(Vec<String>),
    /// The file could not be read.
    Io(IoError),
    /// The version key is missing (`None`) or not an accepted version.
    Version(Option<String>),
    /// The text is not valid YAML.
    YamlSyntax(String),
}

/// What `Error::message` returns for each failure.
pub open spec fn config_error_message(e: Error) -> Seq<char> {
    match e {
        Error::Config(_) => "Invalid configuration"@,
        Error::Io(io) => io.message@,
        Error::Version(v) => match v {
            None => "Missing configuration version"@,
            Some(s) => s@ + " is not a valid configuration version"@,
        },
        Error::YamlSyntax(m) => m@,
    }
}

impl Error {
    /// The rendering used when this failure is reported.
    pub fn message(&self) -> (r: String)
        ensures
            r@ == config_error_message(*self),
    {
        match self {
            Error::Config(_) => "Invalid configuration".to_owned(),
            Error::Io(e) => e.message().to_owned(),
            Error::Version(v) => {
                match v {
                    Some(s) => {
                        let mut m = s.clone();
                        m.append(" is not a valid configuration version");
                        m
                    },
                    None => "Missing configuration version".to_owned(),
                }
            },
            Error::YamlSyntax(m) => m.clone(),
        }
    }
}

/// A parsed document: what the library reads of a YAML or JSON value.
/// Numbers keep the rendering the parser gave them.
#[derive(Debug)]
pub enum DocValue {
    Null,
    Bool(bool),
    Num(String),
    Str(String),
    List(Vec<DocValue>),
    Dict(Vec<(String, DocValue)>),
}

/// The first value stored under `key`, searched front to back.
pub open spec fn dict_lookup(entries: Seq<(String, DocValue)>, key: Seq<char>) -> Option<DocValue>
    decreases entries.len(),
{
    if entries.len() == 0 {
        None
    } else if entries[0].0@ == key {
        Some(entries[0].1)
    } else {
        dict_lookup(entries.drop_first(), key)
    }
}

/// The value stored under `key`, where `doc` is a dictionary holding one.
pub open spec fn doc_get(doc: DocValue, key: Seq<char>) -> Option<DocValue> {
    match doc {
        DocValue::Dict(entries) => dict_lookup(entries@, key),
        _ => None,
    }
}

proof fn lemma_dict_lookup_at(entries: Seq<(String, DocValue)>, key: Seq<char>, i: int)
    requires
        0 <= i < entries.len(),
        entries[i].0@ == key,
        forall|j: int| 0 <= j < i ==> (#[trigger] entries[j]).0@ != key,
    ensures
        dict_lookup(entries, key) == Some(entries[i].1),
    decreases i,
{
    if i > 0 {
        lemma_dict_lookup_at(entries.drop_first(), key, i - 1);
        assert(entries.drop_first()[i - 1] == entries[i]);
        assert(forall|j: int|
            0 <= j < i - 1 ==> (#[trigger] entries.drop_first()[j]) == entries[j + 1]);
    }
}

proof fn lemma_dict_lookup_none(entries: Seq<(String, DocValue)>, key: Seq<char>)
    requires
        forall|j: int| 0 <= j < entries.len() ==> (#[trigger] entries[j]).0@ != key,
    ensures
        dict_lookup(entries, key) is None,
    decreases entries.len(),
{
    if entries.len() > 0 {
        assert(forall|j: int|
            0 <= j < entries.len() - 1 ==> (#[trigger] entries.drop_first()[j]) == entries[j + 1]);
        lemma_dict_lookup_none(entries.drop_first(), key);
    }
}

impl DocValue {
    /// A reference to the value stored under `key`, where this document is a
    /// dictionary holding one.
    #[verifier::loop_isolation(false)]
    pub fn get<'a>(&'a self, key: &str) -> (r: Option<&'a DocValue>)
        ensures
            match doc_get(*self, key@) {
                Some(v) => r matches Some(x) && *x == v,
                None => r is None,
            },
    {
        match *self {
            DocValue::Dict(ref entries) => {
                let mut i: usize = 0;
                while i < entries.len()
                    invariant
                        i <= entries.len(),
                        forall|j: int| 0 <= j < i ==> (#[trigger] entries@[j]).0@ != key@,
                    decreases entries.len() - i,
                {
                    if crate::text::str_eq(entries[i].0.as_str(), key) {
                        proof {
                            lemma_dict_lookup_at(entries@, key@, i as int);
                            assert(*self == DocValue::Dict(*entries));
                            assert(doc_get(*self, key@) == dict_lookup(entries@, key@));
                        }
                        return Some(&entries[i].1);
                    }
                    i += 1;
                }
                proof {
                    lemma_dict_lookup_none(entries@, key@);
                }
                None
            },
            _ => None,
        }
    }
}

/// One declared software: a tool kind and a version to install.
#[derive(Clone, Copy, Debug, PartialEq, Eq, Structural)]
pub enum SoftwareDefinitionKind {
    ChartTesting,
    Terraform,
}

/// The configuration key of a software kind, which is also the installed
/// tool's name.
pub open spec fn kind_name(kind: SoftwareDefinitionKind) -> Seq<char> {
    match kind {
        SoftwareDefinitionKind::ChartTesting => "chart-testing"@,
        SoftwareDefinitionKind::Terraform => "terraform"@,
    }
}

/// One declared variable: how its value comes to be.
#[derive(Clone, Debug, PartialEq, Eq)]
pub enum VarDefinitionKind {
    /// The value is the declared text itself.
    Literal(String),
}

#[derive(Clone, Debug, PartialEq, Eq)]
pub struct SoftwareDefinition {
    pub kind: SoftwareDefinitionKind,
    pub version: String,
}

impl SoftwareDefinition {
    /// The installable form of this declaration.
    pub fn into_software(self) -> (r: Software)
        ensures
            self.kind is ChartTesting ==> r == Software::ChartTesting(
                ChartTesting { version: self.version },
            ),
            self.kind is Terraform ==> r == Software::Terraform(
                Terraform { version: self.version },
            ),
    {
        match self.kind {
            SoftwareDefinitionKind::ChartTesting => Software::ChartTesting(
                ChartTesting::new(self.version),
            ),
            SoftwareDefinitionKind::Terraform => Software::Terraform(Terraform::new(self.version)),
        }
    }
}

#[derive(Clone, Debug, PartialEq, Eq)]
pub struct VarDefinition {
    pub kind: VarDefinitionKind,
    pub name: String,
}

impl VarDefinition {
    /// The computable form of this declaration.
    pub fn into_var(self) -> (r: Literal)
        ensures
            r.name == self.name,
            self.kind matches VarDefinitionKind::Literal(v) ==> r.value == v,
    {
        match self.kind {
            VarDefinitionKind::Literal(value) => Literal::new(self.name, value),
        }
    }
}

/// A loaded configuration: the declared softwares and variables, in
/// declaration order.
#[derive(Clone, Debug, PartialEq, Eq)]
pub struct Config {
    pub soft_defs: Vec<SoftwareDefinition>,
    pub var_defs: Vec<VarDefinition>,
}

/// Loads and validates a configuration file; the path-based half lives with
/// the caller, which hands the file's text to `DefaultConfigLoader::parse`.
pub trait ConfigLoader: Sized {
    /// Loads and validates the configuration at `path`.
    fn load(&self, path: &str) -> Result<Config, Error>;
}

/// The text shown for a version value of the wrong shape; composite values
/// are abbreviated.
pub open spec fn version_text(v: DocValue) -> Seq<char> {
    match v {
        DocValue::Null => "null"@,
        DocValue::Bool(b) => if b {
            "true"@
        } else {
            "false"@
        },
        DocValue::Num(s) => s@,
        DocValue::Str(s) => s@,
        DocValue::List(_) => "[...]"@,
        DocValue::Dict(_) => "{...}"@,
    }
}

/// `version_text`, executably.
fn render_version(v: &DocValue) -> (r: String)
    ensures
        r@ == version_text(*v),
{
    match v {
        DocValue::Null => "null".to_owned(),
        DocValue::Bool(b) => if *b {
            "true".to_owned()
        } else {
            "false".to_owned()
        },
        DocValue::Num(s) => s.clone(),
        DocValue::Str(s) => s.clone(),
        DocValue::List(_) => "[...]".to_owned(),
        DocValue::Dict(_) => "{...}".to_owned(),
    }
}

/// Rejects a document whose `version` key is missing, not a string, or not
/// an accepted version; `v1` is the one accepted version.
pub fn check_version(doc: &DocValue) -> (r: Result<(), Error>)
    ensures
        ({
            match doc_get(*doc, "version"@) {
                None => r == Err::<(), Error>(Error::Version(None)),
                Some(v) => match v {
                    DocValue::Str(s) => if s@ == "v1"@ {
                        r is Ok
                    } else {
                        r matches Err(e) && e matches Error::Version(o) && o matches Some(t) && t@
                            == s@
                    },
                    _ => r matches Err(e) && e matches Error::Version(o) && o matches Some(t) && t@
                        == version_text(v),
                },
            }
        }),
{
    match doc.get("version") {
        None => Err(Error::Version(None)),
        Some(v) => match v {
            DocValue::Str(s) => {
                if crate::text::str_eq(s.as_str(), "v1") {
                    Ok(())
                } else {
                    Err(Error::Version(Some(s.clone())))
                }
            },
            other => Err(Error::Version(Some(render_version(other)))),
        },
    }
}

/// The `(kind, version)` pair a softwares dictionary declares under `key`,
/// empty when the key is absent or not a string.
pub open spec fn soft_entry(
    softs: DocValue,
    key: Seq<char>,
    kind: SoftwareDefinitionKind,
) -> Seq<(SoftwareDefinitionKind, Seq<char>)> {
    match doc_get(softs, key) {
        Some(v) => match v {
            DocValue::Str(version) => seq![(kind, version@)],
            _ => Seq::empty(),
        },
        None => Seq::empty(),
    }
}

/// Every `(kind, version)` pair the document declares, chart-testing first.
pub open spec fn soft_entries(doc: DocValue) -> Seq<(SoftwareDefinitionKind, Seq<char>)> {
    match doc_get(doc, "softwares"@) {
        Some(softs) => soft_entry(softs, "chart-testing"@, SoftwareDefinitionKind::ChartTesting)
            + soft_entry(softs, "terraform"@, SoftwareDefinitionKind::Terraform),
        None => Seq::empty(),
    }
}

/// The `(name, value)` pair one `set` entry declares, with booleans and
/// numbers rendered as text; empty when the entry lacks a usable name or
/// value.
pub open spec fn var_entry(item: DocValue) -> Seq<(Seq<char>, Seq<char>)> {
    match doc_get(item, "name"@) {
        Some(n) => match n {
            DocValue::Str(name) => match doc_get(item, "value"@) {
                Some(v) => match v {
                    DocValue::Bool(b) => seq![
                        (name@, if b {
                            "true"@
                        } else {
                            "false"@
                        }),
                    ],
                    DocValue::Num(s) => seq![(name@, s@)],
                    DocValue::Str(s) => seq![(name@, s@)],
                    _ => Seq::empty(),
                },
                None => Seq::empty(),
            },
            _ => Seq::empty(),
        },
        None => Seq::empty(),
    }
}

/// The `(name, value)` pairs of the `set` entries from position `i` on.
pub open spec fn var_entries_from(items: Seq<DocValue>, i: int) -> Seq<(Seq<char>, Seq<char>)>
    decreases items.len() - i,
{
    if i < 0 || i >= items.len() {
        Seq::empty()
    } else {
        var_entry(items[i]) + var_entries_from(items, i + 1)
    }
}

/// Every `(name, value)` pair the document declares, in declaration order.
pub open spec fn var_entries(doc: DocValue) -> Seq<(Seq<char>, Seq<char>)> {
    match doc_get(doc, "set"@) {
        Some(v) => match v {
            DocValue::List(items) => var_entries_from(items@, 0),
            _ => Seq::empty(),
        },
        None => Seq::empty(),
    }
}

/// The `(kind, version)` pairs a definition list stands for.
pub open spec fn soft_def_entries(defs: Seq<SoftwareDefinition>) -> Seq<
    (SoftwareDefinitionKind, Seq<char>),
> {
    defs.map_values(|d: SoftwareDefinition| (d.kind, d.version@))
}

/// The `(name, value)` pairs a definition list stands for.
pub open spec fn var_def_entries(defs: Seq<VarDefinition>) -> Seq<(Seq<char>, Seq<char>)> {
    defs.map_values(
        |d: VarDefinition|
            (
                d.name@,
                match d.kind {
                    VarDefinitionKind::Literal(v) => v@,
                },
            ),
    )
}

/// Builds the configuration a schema-conforming document declares: the
/// declared softwares (chart-testing before terraform) and the declared
/// variables in order, skipping entries of a shape the schema would have
/// rejected.
#[verifier::loop_isolation(false)]
pub fn build_config(doc: &DocValue) -> (r: Config)
    ensures
        soft_def_entries(r.soft_defs@) == soft_entries(*doc),
        var_def_entries(r.var_defs@) == var_entries(*doc),
{
    let mut soft_defs: Vec<SoftwareDefinition> = Vec::new();
    if let Some(softs) = doc.get("softwares") {
        if let Some(ct) = softs.get("chart-testing") {
            if let DocValue::Str(version) = ct {
                soft_defs.push(
                    SoftwareDefinition {
                        kind: SoftwareDefinitionKind::ChartTesting,
                        version: version.clone(),
                    },
                );
            }
        }
        if let Some(tf) = softs.get("terraform") {
            if let DocValue::Str(version) = tf {
                soft_defs.push(
                    SoftwareDefinition {
                        kind: SoftwareDefinitionKind::Terraform,
                        version: version.clone(),
                    },
                );
            }
        }
    }
    proof {
        assert(soft_def_entries(soft_defs@) =~= soft_entries(*doc));
    }
    let mut var_defs: Vec<VarDefinition> = Vec::new();
    if let Some(set_val) = doc.get("set") {
        if let DocValue::List(items) = set_val {
            let mut i: usize = 0;
            while i < items.len()
                invariant
                    i <= items.len(),
                    var_def_entries(var_defs@) + var_entries_from(items@, i as int)
                        == var_entries_from(items@, 0),
                decreases items.len() - i,
            {
                let ghost defs_before = var_defs@;
                let item = &items[i];
                if let Some(name_v) = item.get("name") {
                    if let DocValue::Str(name) = name_v {
                        if let Some(value_v) = item.get("value") {
                            match value_v {
                                DocValue::Bool(b) => {
                                    let value = if *b {
                                        "true".to_owned()
                                    } else {
                                        "false".to_owned()
                                    };
                                    var_defs.push(
                                        VarDefinition {
                                            kind: VarDefinitionKind::Literal(value),
                                            name: name.clone(),
                                        },
                                    );
                                },
                                DocValue::Num(s) => {
                                    var_defs.push(
                                        VarDefinition {
                                            kind: VarDefinitionKind::Literal(s.clone()),
                                            name: name.clone(),
                                        },
                                    );
                                },
                                DocValue::Str(s) => {
                                    var_defs.push(
                                        VarDefinition {
                                            kind: VarDefinitionKind::Literal(s.clone()),
                                            name: name.clone(),
                                        },
                                    );
                                },
                                _ => {},
                            }
                        }
                    }
                }
                proof {
                    assert(var_entries_from(items@, i as int) == var_entry(items@[i as int])
                        + var_entries_from(items@, i as int + 1));
                    assert(var_def_entries(var_defs@) =~= var_def_entries(defs_before)
                        + var_entry(items@[i as int]));
                    assert((var_def_entries(defs_before) + var_entry(items@[i as int]))
                        + var_entries_from(items@, i as int + 1) =~= var_def_entries(defs_before)
                        + (var_entry(items@[i as int]) + var_entries_from(items@, i as int + 1)));
                }
                i += 1;
            }
        }
    }
    proof {
        assert(var_def_entries(var_defs@) =~= var_entries(*doc));
    }
    Config { soft_defs, var_defs }
}


#[verifier::external_type_specification]
#[verifier::external_body]
pub struct ExValue(serde_json::Value);

/// What parsing a text as YAML yields: the document (as the library's
/// document type), or the syntax error's rendering. A function of the text
/// alone.
pub uninterp spec fn yaml_document(text: Seq<char>) -> Result<DocValue, String>;

/// What validating a text's document against a schema yields: the rendered
/// violations, empty when it conforms, or why the pair could not be checked.
/// A function of the two texts alone.
pub uninterp spec fn violations_of(schema: Seq<char>, text: Seq<char>) -> Result<
    Vec<String>,
    String,
>;

/// Relies on serde_yaml::from_str: parses the text as YAML and hands the
/// parsed value through `doc_of_json`.
#[verifier::external_body]
fn parse_document(text: &str) -> (r: Result<DocValue, String>)
    ensures
        r == yaml_document(text@),
{
    match serde_yaml::from_str::<serde_json::Value>(text) {
        Ok(v) => Ok(doc_of_json(&v)),
        Err(e) => Err(e.to_string()),
    }
}

/// Relies on serde_yaml::from_str, jsonschema::validator_for and
/// jsonschema::Validator::iter_errors: renders every violation of the text's
/// document against the schema, in the validator's order. The schema's
/// references must stay inside its document, as the library's fixed schema's
/// do.
#[verifier::external_body]
fn config_violations(schema: &str, text: &str) -> (r: Result<Vec<String>, String>)
    ensures
        r == violations_of(schema@, text@),
{
    let schema_value: serde_json::Value = serde_yaml::from_str(schema).map_err(|e| e.to_string())?;
    let doc_value: serde_json::Value = serde_yaml::from_str(text).map_err(|e| e.to_string())?;
    let validator = jsonschema::validator_for(&schema_value).map_err(|e| e.to_string())?;
    Ok(validator.iter_errors(&doc_value).map(|e| e.to_string()).collect())
}

/// Relies on serde_json::Value: maps each variant of the parsed value onto
/// the library's document type, one variant for one, rendering numbers as
/// text.
#[verifier::external_body]
fn doc_of_json(v: &serde_json::Value) -> (r: DocValue) {
    match v {
        serde_json::Value::Null => DocValue::Null,
        serde_json::Value::Bool(b) => DocValue::Bool(*b),
        serde_json::Value::Number(n) => DocValue::Num(n.to_string()),
        serde_json::Value::String(s) => DocValue::Str(s.clone()),
        serde_json::Value::Array(a) => DocValue::List(a.iter().map(doc_of_json).collect()),
        serde_json::Value::Object(o) => DocValue::Dict(
            o.iter().map(|(k, inner)| (k.clone(), doc_of_json(inner))).collect(),
        ),
    }
}

/// Validates a text's document against the configuration schema; the
/// rendered violations, empty when it conforms.
fn validate_v1(text: &str) -> (r: Result<(), Vec<String>>)
    ensures
        ({
            match violations_of(CONFIG_SCHEMA@, text@) {
                Ok(viols) => if viols@.len() == 0 {
                    r is Ok
                } else {
                    r == Err::<(), Vec<String>>(viols)
                },
                Err(m) => r matches Err(v) && v@.len() == 1 && v@[0] == m,
            }
        }),
{
    match config_violations(CONFIG_SCHEMA, text) {
        Ok(errs) => {
            if errs.len() == 0 {
                Ok(())
            } else {
                Err(errs)
            }
        },
        Err(e) => Err(vec![e]),
    }
}

/// The text-based configuration loader: YAML syntax, then the version key,
/// then the schema, then the verified walk from document to configuration.
///
/// What comes back from the parser is converted to the library's document
/// type; over that named document the contract says which error comes for
/// which text, and that success builds exactly the document's configuration.
pub struct DefaultConfigLoader;

impl DefaultConfigLoader {
    /// Parses and validates one configuration file's text. Reading the file
    /// is the caller's job, so no I/O failure arises here.
    pub fn parse(&self, text: &str) -> (r: Result<Config, Error>)
        ensures
            ({
                match yaml_document(text@) {
                    Err(m) => r matches Err(e) && e matches Error::YamlSyntax(s) && s == m,
                    Ok(doc) => match doc_get(doc, "version"@) {
                        None => r == Err::<Config, Error>(Error::Version(None)),
                        Some(v) => match v {
                            DocValue::Str(s) => if s@ == "v1"@ {
                                match violations_of(CONFIG_SCHEMA@, text@) {
                                    Ok(viols) => if viols@.len() == 0 {
                                        r matches Ok(cfg) && soft_def_entries(cfg.soft_defs@)
                                            == soft_entries(doc) && var_def_entries(cfg.var_defs@)
                                            == var_entries(doc)
                                    } else {
                                        r == Err::<Config, Error>(Error::Config(viols))
                                    },
                                    Err(m) => r matches Err(e) && e matches Error::Config(v2)
                                        && v2@.len() == 1 && v2@[0] == m,
                                }
                            } else {
                                r matches Err(e) && e matches Error::Version(o) && o matches Some(
                                    t,
                                ) && t@ == s@
                            },
                            _ => r matches Err(e) && e matches Error::Version(o) && o matches Some(
                                t,
                            ) && t@ == version_text(v),
                        },
                    },
                }
            }),
            r matches Err(e) ==> !(e is Io),
    {
        let doc = match parse_document(text) {
            Ok(d) => d,
            Err(m) => { return Err(Error::YamlSyntax(m)) },
        };
        if let Err(e) = check_version(&doc) {
            return Err(e);
        }
        if let Err(errs) = validate_v1(text) {
            return Err(Error::Config(errs));
        }
        Ok(build_config(&doc))
    }
}

} // verus!
