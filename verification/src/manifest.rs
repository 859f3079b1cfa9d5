//! The package manifest: the typed view of a parsed `info.hk` and the rules
//! that a configuration tree must meet to become one.

use vstd::prelude::*;
use indexmap::IndexMap;
use crate::text::{followed_by, str_eq, views};

verus! {

/// `indexmap::IndexMap`: a hash map that remembers the order in which its keys
/// were first inserted.
#[verifier::external_type_specification]
#[verifier::external_body]
#[verifier::reject_recursive_types(K)]
#[verifier::reject_recursive_types(V)]
#[verifier::reject_recursive_types(S)]
pub struct ExIndexMap<K, V, S>(IndexMap<K, V, S>);

/// The key-value pairs of a map of strings, in the map's own order.
pub uninterp spec fn pairs(m: IndexMap<String, String>) -> Seq<(Seq<char>, Seq<char>)>;

/// The position of the first pair with key `k`, if there is one.
pub open spec fn key_position(s: Seq<(Seq<char>, Seq<char>)>, k: Seq<char>) -> Option<int>
    decreases s.len(),
{
    if s.len() == 0 {
        None
    } else if s[0].0 == k {
        Some(0)
    } else {
        match key_position(s.drop_first(), k) {
            Some(i) => Some(i + 1),
            None => None,
        }
    }
}

/// What inserting `k` with `v` makes of an ordered map: an existing key keeps
/// its place and gets the new value, a new key goes last.
pub open spec fn ordered_insert(s: Seq<(Seq<char>, Seq<char>)>, k: Seq<char>, v: Seq<char>) -> Seq<
    (Seq<char>, Seq<char>),
> {
    match key_position(s, k) {
        Some(i) => s.update(i, (k, v)),
        None => s.push((k, v)),
    }
}

/// `IndexMap::new` makes a map without pairs.
#[verifier::external_body]
pub(crate) fn ordered_map_new() -> (m: IndexMap<String, String>)
    ensures
        pairs(m) == Seq::<(Seq<char>, Seq<char>)>::empty(),
{
    IndexMap::new()
}

/// `IndexMap::insert`: a key already present keeps its place in the order and
/// takes the new value; a new key is added last.
#[verifier::external_body]
pub(crate) fn ordered_map_insert(m: &mut IndexMap<String, String>, key: String, value: String)
    ensures
        pairs(*final(m)) == ordered_insert(pairs(*old(m)), key@, value@),
{
    m.insert(key, value);
}

/// `IndexMap::len` counts the pairs.
#[verifier::external_body]
pub(crate) fn ordered_map_len(m: &IndexMap<String, String>) -> (n: usize)
    ensures
        n == pairs(*m).len(),
{
    m.len()
}

/// `IndexMap::get_index` hands out the pair at a position in the map's order.
#[verifier::external_body]
pub(crate) fn ordered_map_pair(m: &IndexMap<String, String>, i: usize) -> (kv: Option<
    (String, String),
>)
    ensures
        i < pairs(*m).len() ==> kv.is_some() && kv.unwrap().0@ == pairs(*m)[i as int].0
            && kv.unwrap().1@ == pairs(*m)[i as int].1,
        i >= pairs(*m).len() ==> kv.is_none(),
{
    match m.get_index(i) {
        Some((k, v)) => Some((k.clone(), v.clone())),
        None => None,
    }
}

/// What a package may reach from inside its sandbox.
#[derive(Clone, Debug, PartialEq, Eq)]
pub struct Sandbox {
    /// Whether the package shares the host's network.
    pub network: bool,
    /// Host paths that are mounted into the sandbox read-write, in order.
    pub filesystem: Vec<String>,
    /// Whether the package may reach the display server.
    pub gui: bool,
    /// Whether the package gets device nodes under `/dev`.
    pub dev: bool,
}

/// The mathematical value of a [`Sandbox`].
pub struct SandboxView {
    pub network: bool,
    pub filesystem: Seq<Seq<char>>,
    pub gui: bool,
    pub dev: bool,
}

impl View for Sandbox {
    type V = SandboxView;

    open spec fn view(&self) -> SandboxView {
        SandboxView {
            network: self.network,
            filesystem: crate::text::views(self.filesystem@),
            gui: self.gui,
            dev: self.dev,
        }
    }
}

/// A package's description of itself.
#[derive(Debug, PartialEq, Eq)]
pub struct Manifest {
    pub name: String,
    pub version: String,
    pub authors: String,
    pub license: String,
    pub summary: String,
    pub long: String,
    /// What the package expects of the system, in the manifest's order.
    pub system_specs: IndexMap<String, String>,
    /// Dependency name to version constraint, in the manifest's order.
    pub deps: IndexMap<String, String>,
    /// Names of the binaries that the package exposes under `/usr/bin`.
    pub bins: Vec<String>,
    pub sandbox: Sandbox,
    /// Shell fragments that are run, in order, when the package is installed.
    pub install_commands: Vec<String>,
}

/// The mathematical value of a [`Manifest`].
pub struct ManifestView {
    pub name: Seq<char>,
    pub version: Seq<char>,
    pub authors: Seq<char>,
    pub license: Seq<char>,
    pub summary: Seq<char>,
    pub long: Seq<char>,
    pub system_specs: Seq<(Seq<char>, Seq<char>)>,
    pub deps: Seq<(Seq<char>, Seq<char>)>,
    pub bins: Seq<Seq<char>>,
    pub sandbox: SandboxView,
    pub install_commands: Seq<Seq<char>>,
}

impl View for Manifest {
    type V = ManifestView;

    open spec fn view(&self) -> ManifestView {
        ManifestView {
            name: self.name@,
            version: self.version@,
            authors: self.authors@,
            license: self.license@,
            summary: self.summary@,
            long: self.long@,
            system_specs: pairs(self.system_specs),
            deps: pairs(self.deps),
            bins: crate::text::views(self.bins@),
            sandbox: self.sandbox@,
            install_commands: crate::text::views(self.install_commands@),
        }
    }
}

/// A node of a parsed configuration file.
#[derive(Debug, PartialEq, Eq)]
pub enum Value {
    /// A string.
    Text(String),
    /// A number, held as the text that the parser renders it to.
    Number(String),
    /// A boolean.
    Flag(bool),
    /// A list of values.
    List(Vec<Value>),
    /// Keys with their values, in the file's order.
    Table(Vec<(String, Value)>),
}

/// What a manifest is made of; names the place of a fault.
#[derive(Clone, Copy, Debug, PartialEq, Eq)]
pub enum Field {
    Metadata,
    Name,
    Version,
    Authors,
    License,
    Description,
    Summary,
    Long,
    Specs,
    SpecValue,
    Dependencies,
    DepValue,
    Bins,
    BinValue,
    Sandbox,
    Network,
    Gui,
    Dev,
    Filesystem,
    FsValue,
    Install,
    Commands,
    CmdValue,
}

/// Why a configuration tree is no manifest.
#[derive(Clone, Copy, Debug, PartialEq, Eq)]
pub enum ManifestError {
    /// A required section or key is absent.
    Missing(Field),
    /// A section or key holds a value of the wrong kind.
    Invalid(Field),
    /// A required string is empty.
    Empty(Field),
    /// An entry of a key set carries a value.
    NonEmptyValue(Field),
}

/// The value under the first occurrence of `key`.
pub open spec fn lookup(entries: Seq<(String, Value)>, key: Seq<char>) -> Option<Value>
    decreases entries.len(),
{
    if entries.len() == 0 {
        None
    } else if entries[0].0@ == key {
        Some(entries[0].1)
    } else {
        lookup(entries.drop_first(), key)
    }
}

/// The string that a scalar stands for: a string itself, a number's text,
/// `true` or `false` for a boolean. Lists and tables stand for none.
pub open spec fn scalar_text(v: Value) -> Option<Seq<char>> {
    match v {
        Value::Text(s) => Some(s@),
        Value::Number(s) => Some(s@),
        Value::Flag(b) => Some(
            if b {
                "true"@
            } else {
                "false"@
            },
        ),
        Value::List(_) => None,
        Value::Table(_) => None,
    }
}

/// The table under `key`, which must be there.
pub open spec fn required_table(entries: Seq<(String, Value)>, key: Seq<char>, field: Field)
    -> Result<Seq<(String, Value)>, ManifestError> {
    match lookup(entries, key) {
        None => Err(ManifestError::Missing(field)),
        Some(Value::Table(t)) => Ok(t@),
        Some(_) => Err(ManifestError::Invalid(field)),
    }
}

/// The table under `key`, or no entries where the key is absent.
pub open spec fn optional_table(entries: Seq<(String, Value)>, key: Seq<char>, field: Field)
    -> Result<Seq<(String, Value)>, ManifestError> {
    match lookup(entries, key) {
        None => Ok(Seq::empty()),
        Some(Value::Table(t)) => Ok(t@),
        Some(_) => Err(ManifestError::Invalid(field)),
    }
}

/// The string under `key`, which must be there and not be empty.
pub open spec fn required_text(entries: Seq<(String, Value)>, key: Seq<char>, field: Field)
    -> Result<Seq<char>, ManifestError> {
    match lookup(entries, key) {
        None => Err(ManifestError::Missing(field)),
        Some(v) => match scalar_text(v) {
            None => Err(ManifestError::Invalid(field)),
            Some(t) => if t.len() == 0 {
                Err(ManifestError::Empty(field))
            } else {
                Ok(t)
            },
        },
    }
}

/// The string under `key`, or the empty string where the key is absent.
pub open spec fn optional_text(entries: Seq<(String, Value)>, key: Seq<char>, field: Field)
    -> Result<Seq<char>, ManifestError> {
    match lookup(entries, key) {
        None => Ok(Seq::empty()),
        Some(v) => match scalar_text(v) {
            None => Err(ManifestError::Invalid(field)),
            Some(t) => Ok(t),
        },
    }
}

/// The boolean under `key`, or `false` where the key is absent.
pub open spec fn optional_flag(entries: Seq<(String, Value)>, key: Seq<char>, field: Field)
    -> Result<bool, ManifestError> {
    match lookup(entries, key) {
        None => Ok(false),
        Some(Value::Flag(b)) => Ok(b),
        Some(_) => Err(ManifestError::Invalid(field)),
    }
}

/// Reads a table as an ordered set of strings: goes through `entries` in
/// order and adds each key to `acc`. A value that is no scalar, or that
/// stands for anything but the empty string, is a fault; the first one met
/// is reported.
pub open spec fn key_set_from(entries: Seq<(String, Value)>, acc: Seq<Seq<char>>, field: Field)
    -> Result<Seq<Seq<char>>, ManifestError>
    decreases entries.len(),
{
    if entries.len() == 0 {
        Ok(acc)
    } else {
        match scalar_text(entries[0].1) {
            None => Err(ManifestError::Invalid(field)),
            Some(t) => if t.len() != 0 {
                Err(ManifestError::NonEmptyValue(field))
            } else {
                key_set_from(entries.drop_first(), acc.push(entries[0].0@), field)
            },
        }
    }
}

/// The keys of a table that is used as an ordered set of strings.
pub open spec fn key_set(entries: Seq<(String, Value)>, field: Field) -> Result<
    Seq<Seq<char>>,
    ManifestError,
> {
    key_set_from(entries, Seq::empty(), field)
}

/// Reads a table as an ordered map of strings: goes through `entries` in
/// order and inserts each key with its string into `acc`, passing over the
/// key `skip`. A value that is no scalar is a fault; the first one met is
/// reported.
pub open spec fn text_map_from(
    entries: Seq<(String, Value)>,
    acc: Seq<(Seq<char>, Seq<char>)>,
    skip: Option<Seq<char>>,
    field: Field,
) -> Result<Seq<(Seq<char>, Seq<char>)>, ManifestError>
    decreases entries.len(),
{
    if entries.len() == 0 {
        Ok(acc)
    } else if skip == Some(entries[0].0@) {
        text_map_from(entries.drop_first(), acc, skip, field)
    } else {
        match scalar_text(entries[0].1) {
            None => Err(ManifestError::Invalid(field)),
            Some(t) => text_map_from(
                entries.drop_first(),
                ordered_insert(acc, entries[0].0@, t),
                skip,
                field,
            ),
        }
    }
}

/// The pairs of a table that is used as an ordered map of strings.
pub open spec fn text_map(entries: Seq<(String, Value)>, skip: Option<Seq<char>>, field: Field)
    -> Result<Seq<(Seq<char>, Seq<char>)>, ManifestError> {
    text_map_from(entries, Seq::empty(), skip, field)
}

/// The value under the first occurrence of `key`.
pub fn find<'a>(entries: &'a Vec<(String, Value)>, key: &str) -> (r: Option<&'a Value>)
    ensures
        match r {
            Some(v) => lookup(entries@, key@) == Some(*v),
            None => lookup(entries@, key@).is_none(),
        },
{
    let mut i: usize = 0;
    assert(entries@.skip(0) =~= entries@);
    while i < entries.len()
        invariant
            i <= entries.len(),
            lookup(entries@, key@) == lookup(entries@.skip(i as int), key@),
        decreases entries.len() - i,
    {
        if str_eq(entries[i].0.as_str(), key) {
            return Some(&entries[i].1);
        }
        assert(entries@.skip(i as int).drop_first() =~= entries@.skip(i + 1));
        i += 1;
    }
    None
}

impl Value {
    /// The string that a scalar stands for; `None` for a list or a table.
    pub fn as_string(&self) -> (r: Option<String>)
        ensures
            match r {
                Some(s) => scalar_text(*self) == Some(s@),
                None => scalar_text(*self).is_none(),
            },
    {
        match self {
            Value::Text(s) => Some(s.clone()),
            Value::Number(s) => Some(s.clone()),
            Value::Flag(b) => if *b {
                Some("true".to_string())
            } else {
                Some("false".to_string())
            },
            Value::List(_) => None,
            Value::Table(_) => None,
        }
    }

    /// The boolean, where the value is one.
    pub fn as_bool(&self) -> (r: Option<bool>)
        ensures
            r == match *self {
                Value::Flag(b) => Some(b),
                _ => None,
            },
    {
        match self {
            Value::Flag(b) => Some(*b),
            _ => None,
        }
    }

    /// The entries, where the value is a table.
    pub fn as_table(&self) -> (r: Option<&Vec<(String, Value)>>)
        ensures
            match r {
                Some(t) => *self == Value::Table(*t),
                None => !(*self is Table),
            },
    {
        match self {
            Value::Table(t) => Some(t),
            _ => None,
        }
    }
}

fn get_required_table<'a>(entries: &'a Vec<(String, Value)>, key: &str, field: Field) -> (r: Result<
    &'a Vec<(String, Value)>,
    ManifestError,
>)
    ensures
        match r {
            Ok(t) => required_table(entries@, key@, field) == Ok::<
                Seq<(String, Value)>,
                ManifestError,
            >(t@),
            Err(e) => required_table(entries@, key@, field) == Err::<
                Seq<(String, Value)>,
                ManifestError,
            >(e),
        },
{
    match find(entries, key) {
        None => Err(ManifestError::Missing(field)),
        Some(v) => match v {
            Value::Table(t) => Ok(t),
            _ => Err(ManifestError::Invalid(field)),
        },
    }
}

fn get_optional_table<'a>(entries: &'a Vec<(String, Value)>, key: &str, field: Field) -> (r: Result<
    Option<&'a Vec<(String, Value)>>,
    ManifestError,
>)
    ensures
        match r {
            Ok(Some(t)) => optional_table(entries@, key@, field) == Ok::<
                Seq<(String, Value)>,
                ManifestError,
            >(t@),
            Ok(None) => optional_table(entries@, key@, field) == Ok::<
                Seq<(String, Value)>,
                ManifestError,
            >(Seq::empty()),
            Err(e) => optional_table(entries@, key@, field) == Err::<
                Seq<(String, Value)>,
                ManifestError,
            >(e),
        },
{
    match find(entries, key) {
        None => Ok(None),
        Some(v) => match v {
            Value::Table(t) => Ok(Some(t)),
            _ => Err(ManifestError::Invalid(field)),
        },
    }
}

fn get_required_text(entries: &Vec<(String, Value)>, key: &str, field: Field) -> (r: Result<
    String,
    ManifestError,
>)
    ensures
        match r {
            Ok(s) => required_text(entries@, key@, field) == Ok::<Seq<char>, ManifestError>(s@),
            Err(e) => required_text(entries@, key@, field) == Err::<Seq<char>, ManifestError>(e),
        },
{
    match find(entries, key) {
        None => Err(ManifestError::Missing(field)),
        Some(v) => match v.as_string() {
            None => Err(ManifestError::Invalid(field)),
            Some(s) => if s.as_str().is_empty() {
                Err(ManifestError::Empty(field))
            } else {
                Ok(s)
            },
        },
    }
}

fn get_optional_text(entries: &Vec<(String, Value)>, key: &str, field: Field) -> (r: Result<
    String,
    ManifestError,
>)
    ensures
        match r {
            Ok(s) => optional_text(entries@, key@, field) == Ok::<Seq<char>, ManifestError>(s@),
            Err(e) => optional_text(entries@, key@, field) == Err::<Seq<char>, ManifestError>(e),
        },
{
    match find(entries, key) {
        None => Ok(String::new()),
        Some(v) => match v.as_string() {
            None => Err(ManifestError::Invalid(field)),
            Some(s) => Ok(s),
        },
    }
}

fn get_optional_flag(entries: &Vec<(String, Value)>, key: &str, field: Field) -> (r: Result<
    bool,
    ManifestError,
>)
    ensures
        r == optional_flag(entries@, key@, field),
{
    match find(entries, key) {
        None => Ok(false),
        Some(v) => match v {
            Value::Flag(b) => Ok(*b),
            _ => Err(ManifestError::Invalid(field)),
        },
    }
}

fn read_key_set(entries: &Vec<(String, Value)>, field: Field) -> (r: Result<
    Vec<String>,
    ManifestError,
>)
    ensures
        match r {
            Ok(keys) => key_set(entries@, field) == Ok::<Seq<Seq<char>>, ManifestError>(
                views(keys@),
            ),
            Err(e) => key_set(entries@, field) == Err::<Seq<Seq<char>>, ManifestError>(e),
        },
{
    let mut keys: Vec<String> = Vec::new();
    let mut i: usize = 0;
    assert(entries@.skip(0) =~= entries@);
    assert(views(keys@) =~= Seq::<Seq<char>>::empty());
    while i < entries.len()
        invariant
            i <= entries.len(),
            key_set(entries@, field) == key_set_from(
                entries@.skip(i as int),
                views(keys@),
                field,
            ),
        decreases entries.len() - i,
    {
        match entries[i].1.as_string() {
            None => {
                return Err(ManifestError::Invalid(field));
            },
            Some(t) => {
                if !t.as_str().is_empty() {
                    return Err(ManifestError::NonEmptyValue(field));
                }
            },
        }
        let ghost before = views(keys@);
        keys.push(entries[i].0.clone());
        assert(views(keys@) =~= before.push(entries@[i as int].0@));
        assert(entries@.skip(i as int).drop_first() =~= entries@.skip(i + 1));
        i += 1;
    }
    Ok(keys)
}

fn read_text_map(entries: &Vec<(String, Value)>, skip: Option<&str>, field: Field) -> (r: Result<
    IndexMap<String, String>,
    ManifestError,
>)
    ensures
        match r {
            Ok(m) => text_map(
                entries@,
                match skip {
                    Some(k) => Some(k@),
                    None => None,
                },
                field,
            ) == Ok::<Seq<(Seq<char>, Seq<char>)>, ManifestError>(pairs(m)),
            Err(e) => text_map(
                entries@,
                match skip {
                    Some(k) => Some(k@),
                    None => None,
                },
                field,
            ) == Err::<Seq<(Seq<char>, Seq<char>)>, ManifestError>(e),
        },
{
    let ghost skipped: Option<Seq<char>> = match skip {
        Some(k) => Some(k@),
        None => None,
    };
    let mut m = ordered_map_new();
    let mut i: usize = 0;
    assert(entries@.skip(0) =~= entries@);
    while i < entries.len()
        invariant
            i <= entries.len(),
            skipped == match skip {
                Some(k) => Some(k@),
                None => None,
            },
            text_map(entries@, skipped, field) == text_map_from(
                entries@.skip(i as int),
                pairs(m),
                skipped,
                field,
            ),
        decreases entries.len() - i,
    {
        assert(entries@.skip(i as int).drop_first() =~= entries@.skip(i + 1));
        let passed_over = match skip {
            Some(k) => str_eq(entries[i].0.as_str(), k),
            None => false,
        };
        if !passed_over {
            match entries[i].1.as_string() {
                None => {
                    return Err(ManifestError::Invalid(field));
                },
                Some(t) => {
                    ordered_map_insert(&mut m, entries[i].0.clone(), t);
                },
            }
        }
        i += 1;
    }
    Ok(m)
}

/// The entries of an optional table: none where the table is absent.
pub open spec fn entries_or_none(t: Option<&Vec<(String, Value)>>) -> Seq<(String, Value)> {
    match t {
        Some(v) => v@,
        None => Seq::empty(),
    }
}

/// The four strings that every manifest must carry, in the order name,
/// version, authors, license. The first one that is missing, of the wrong
/// kind or empty is the fault reported.
pub open spec fn identity_of(metadata: Seq<(String, Value)>) -> Result<
    (Seq<char>, Seq<char>, Seq<char>, Seq<char>),
    ManifestError,
> {
    match required_text(metadata, "name"@, Field::Name) {
        Err(e) => Err(e),
        Ok(name) => match required_text(metadata, "version"@, Field::Version) {
            Err(e) => Err(e),
            Ok(version) => match required_text(metadata, "authors"@, Field::Authors) {
                Err(e) => Err(e),
                Ok(authors) => match required_text(metadata, "license"@, Field::License) {
                    Err(e) => Err(e),
                    Ok(license) => Ok((name, version, authors, license)),
                },
            },
        },
    }
}

/// The summary and the long description; each is empty where it is not given.
pub open spec fn description_of(config: Seq<(String, Value)>) -> Result<
    (Seq<char>, Seq<char>),
    ManifestError,
> {
    match optional_table(config, "description"@, Field::Description) {
        Err(e) => Err(e),
        Ok(d) => match optional_text(d, "summary"@, Field::Summary) {
            Err(e) => Err(e),
            Ok(summary) => match optional_text(d, "long"@, Field::Long) {
                Err(e) => Err(e),
                Ok(long) => Ok((summary, long)),
            },
        },
    }
}

/// The system requirements, which are all keys of `[specs]` but
/// `dependencies`, and the dependencies, which are the table under that key.
pub open spec fn specs_of(config: Seq<(String, Value)>) -> Result<
    (Seq<(Seq<char>, Seq<char>)>, Seq<(Seq<char>, Seq<char>)>),
    ManifestError,
> {
    match optional_table(config, "specs"@, Field::Specs) {
        Err(e) => Err(e),
        Ok(specs) => match text_map(specs, Some("dependencies"@), Field::SpecValue) {
            Err(e) => Err(e),
            Ok(system_specs) => match optional_table(
                specs,
                "dependencies"@,
                Field::Dependencies,
            ) {
                Err(e) => Err(e),
                Ok(d) => match text_map(d, None, Field::DepValue) {
                    Err(e) => Err(e),
                    Ok(deps) => Ok((system_specs, deps)),
                },
            },
        },
    }
}

/// The names of the binaries: the key set under `bins`.
pub open spec fn bins_of(metadata: Seq<(String, Value)>) -> Result<Seq<Seq<char>>, ManifestError> {
    match optional_table(metadata, "bins"@, Field::Bins) {
        Err(e) => Err(e),
        Ok(b) => key_set(b, Field::BinValue),
    }
}

/// The sandbox policy. The section must be there; what it leaves out is denied.
pub open spec fn sandbox_of(config: Seq<(String, Value)>) -> Result<SandboxView, ManifestError> {
    match required_table(config, "sandbox"@, Field::Sandbox) {
        Err(e) => Err(e),
        Ok(sb) => match optional_flag(sb, "network"@, Field::Network) {
            Err(e) => Err(e),
            Ok(network) => match optional_flag(sb, "gui"@, Field::Gui) {
                Err(e) => Err(e),
                Ok(gui) => match optional_flag(sb, "dev"@, Field::Dev) {
                    Err(e) => Err(e),
                    Ok(dev) => match optional_table(sb, "filesystem"@, Field::Filesystem) {
                        Err(e) => Err(e),
                        Ok(f) => match key_set(f, Field::FsValue) {
                            Err(e) => Err(e),
                            Ok(filesystem) => Ok(SandboxView { network, filesystem, gui, dev }),
                        },
                    },
                },
            },
        },
    }
}

/// The install commands: the key set under `commands` in `[install]`.
pub open spec fn commands_of(config: Seq<(String, Value)>) -> Result<
    Seq<Seq<char>>,
    ManifestError,
> {
    match optional_table(config, "install"@, Field::Install) {
        Err(e) => Err(e),
        Ok(install) => match optional_table(install, "commands"@, Field::Commands) {
            Err(e) => Err(e),
            Ok(c) => key_set(c, Field::CmdValue),
        },
    }
}

/// The manifest that a configuration tree describes, or the first fault
/// found in it. The tree is checked in this order: `[metadata]` and its four
/// strings, `[description]`, `[specs]`, the binaries, `[sandbox]`, `[install]`.
pub open spec fn manifest_of(config: Seq<(String, Value)>) -> Result<ManifestView, ManifestError> {
    match required_table(config, "metadata"@, Field::Metadata) {
        Err(e) => Err(e),
        Ok(metadata) => match identity_of(metadata) {
            Err(e) => Err(e),
            Ok(identity) => match description_of(config) {
                Err(e) => Err(e),
                Ok(description) => match specs_of(config) {
                    Err(e) => Err(e),
                    Ok(specs) => match bins_of(metadata) {
                        Err(e) => Err(e),
                        Ok(bins) => match sandbox_of(config) {
                            Err(e) => Err(e),
                            Ok(sandbox) => match commands_of(config) {
                                Err(e) => Err(e),
                                Ok(install_commands) => Ok(
                                    ManifestView {
                                        name: identity.0,
                                        version: identity.1,
                                        authors: identity.2,
                                        license: identity.3,
                                        summary: description.0,
                                        long: description.1,
                                        system_specs: specs.0,
                                        deps: specs.1,
                                        bins,
                                        sandbox,
                                        install_commands,
                                    },
                                ),
                            },
                        },
                    },
                },
            },
        },
    }
}

/// What holds of every manifest: it names its package, version, authors and license.
pub open spec fn well_formed(m: ManifestView) -> bool {
    m.name.len() > 0 && m.version.len() > 0 && m.authors.len() > 0 && m.license.len() > 0
}

/// A tree that describes a manifest describes a well-formed one.
pub proof fn lemma_manifest_of_well_formed(config: Seq<(String, Value)>)
    requires
        manifest_of(config).is_ok(),
    ensures
        well_formed(manifest_of(config).unwrap()),
{
}

fn read_identity(metadata: &Vec<(String, Value)>) -> (r: Result<
    (String, String, String, String),
    ManifestError,
>)
    ensures
        match r {
            Ok(id) => identity_of(metadata@) == Ok::<
                (Seq<char>, Seq<char>, Seq<char>, Seq<char>),
                ManifestError,
            >((id.0@, id.1@, id.2@, id.3@)),
            Err(e) => identity_of(metadata@) == Err::<
                (Seq<char>, Seq<char>, Seq<char>, Seq<char>),
                ManifestError,
            >(e),
        },
{
    let name = match get_required_text(metadata, "name", Field::Name) {
        Ok(s) => s,
        Err(e) => {
            return Err(e);
        },
    };
    let version = match get_required_text(metadata, "version", Field::Version) {
        Ok(s) => s,
        Err(e) => {
            return Err(e);
        },
    };
    let authors = match get_required_text(metadata, "authors", Field::Authors) {
        Ok(s) => s,
        Err(e) => {
            return Err(e);
        },
    };
    let license = match get_required_text(metadata, "license", Field::License) {
        Ok(s) => s,
        Err(e) => {
            return Err(e);
        },
    };
    Ok((name, version, authors, license))
}

fn read_description(config: &Vec<(String, Value)>) -> (r: Result<(String, String), ManifestError>)
    ensures
        match r {
            Ok(d) => description_of(config@) == Ok::<(Seq<char>, Seq<char>), ManifestError>(
                (d.0@, d.1@),
            ),
            Err(e) => description_of(config@) == Err::<(Seq<char>, Seq<char>), ManifestError>(e),
        },
{
    let table = match get_optional_table(config, "description", Field::Description) {
        Ok(t) => t,
        Err(e) => {
            return Err(e);
        },
    };
    match table {
        None => {
            assert(lookup(Seq::<(String, Value)>::empty(), "summary"@).is_none());
            assert(lookup(Seq::<(String, Value)>::empty(), "long"@).is_none());
            Ok((String::new(), String::new()))
        },
        Some(d) => {
            let summary = match get_optional_text(d, "summary", Field::Summary) {
                Ok(s) => s,
                Err(e) => {
                    return Err(e);
                },
            };
            let long = match get_optional_text(d, "long", Field::Long) {
                Ok(s) => s,
                Err(e) => {
                    return Err(e);
                },
            };
            Ok((summary, long))
        },
    }
}

fn read_specs(config: &Vec<(String, Value)>) -> (r: Result<
    (IndexMap<String, String>, IndexMap<String, String>),
    ManifestError,
>)
    ensures
        match r {
            Ok(s) => specs_of(config@) == Ok::<
                (Seq<(Seq<char>, Seq<char>)>, Seq<(Seq<char>, Seq<char>)>),
                ManifestError,
            >((pairs(s.0), pairs(s.1))),
            Err(e) => specs_of(config@) == Err::<
                (Seq<(Seq<char>, Seq<char>)>, Seq<(Seq<char>, Seq<char>)>),
                ManifestError,
            >(e),
        },
{
    let table = match get_optional_table(config, "specs", Field::Specs) {
        Ok(t) => t,
        Err(e) => {
            return Err(e);
        },
    };
    match table {
        None => {
            assert(lookup(Seq::<(String, Value)>::empty(), "dependencies"@).is_none());
            Ok((ordered_map_new(), ordered_map_new()))
        },
        Some(specs) => {
            let system_specs = match read_text_map(specs, Some("dependencies"), Field::SpecValue) {
                Ok(m) => m,
                Err(e) => {
                    return Err(e);
                },
            };
            let dependencies = match get_optional_table(
                specs,
                "dependencies",
                Field::Dependencies,
            ) {
                Ok(t) => t,
                Err(e) => {
                    return Err(e);
                },
            };
            let deps = match dependencies {
                None => ordered_map_new(),
                Some(d) => match read_text_map(d, None, Field::DepValue) {
                    Ok(m) => m,
                    Err(e) => {
                        return Err(e);
                    },
                },
            };
            Ok((system_specs, deps))
        },
    }
}

fn read_optional_key_set(
    entries: &Vec<(String, Value)>,
    key: &str,
    table_field: Field,
    value_field: Field,
) -> (r: Result<Vec<String>, ManifestError>)
    ensures
        match optional_table(entries@, key@, table_field) {
            Err(e) => r == Err::<Vec<String>, ManifestError>(e),
            Ok(t) => match r {
                Ok(keys) => key_set(t, value_field) == Ok::<Seq<Seq<char>>, ManifestError>(
                    views(keys@),
                ),
                Err(e) => key_set(t, value_field) == Err::<Seq<Seq<char>>, ManifestError>(e),
            },
        },
{
    let table = match get_optional_table(entries, key, table_field) {
        Ok(t) => t,
        Err(e) => {
            return Err(e);
        },
    };
    match table {
        None => {
            let keys: Vec<String> = Vec::new();
            assert(views(keys@) =~= Seq::<Seq<char>>::empty());
            Ok(keys)
        },
        Some(t) => read_key_set(t, value_field),
    }
}

fn read_sandbox(config: &Vec<(String, Value)>) -> (r: Result<Sandbox, ManifestError>)
    ensures
        match r {
            Ok(sb) => sandbox_of(config@) == Ok::<SandboxView, ManifestError>(sb@),
            Err(e) => sandbox_of(config@) == Err::<SandboxView, ManifestError>(e),
        },
{
    let section = match get_required_table(config, "sandbox", Field::Sandbox) {
        Ok(t) => t,
        Err(e) => {
            return Err(e);
        },
    };
    let network = match get_optional_flag(section, "network", Field::Network) {
        Ok(b) => b,
        Err(e) => {
            return Err(e);
        },
    };
    let gui = match get_optional_flag(section, "gui", Field::Gui) {
        Ok(b) => b,
        Err(e) => {
            return Err(e);
        },
    };
    let dev = match get_optional_flag(section, "dev", Field::Dev) {
        Ok(b) => b,
        Err(e) => {
            return Err(e);
        },
    };
    let filesystem = match read_optional_key_set(
        section,
        "filesystem",
        Field::Filesystem,
        Field::FsValue,
    ) {
        Ok(keys) => keys,
        Err(e) => {
            return Err(e);
        },
    };
    Ok(Sandbox { network, filesystem, gui, dev })
}

fn read_commands(config: &Vec<(String, Value)>) -> (r: Result<Vec<String>, ManifestError>)
    ensures
        match r {
            Ok(c) => commands_of(config@) == Ok::<Seq<Seq<char>>, ManifestError>(views(c@)),
            Err(e) => commands_of(config@) == Err::<Seq<Seq<char>>, ManifestError>(e),
        },
{
    let install = match get_optional_table(config, "install", Field::Install) {
        Ok(t) => t,
        Err(e) => {
            return Err(e);
        },
    };
    match install {
        None => {
            assert(lookup(Seq::<(String, Value)>::empty(), "commands"@).is_none());
            let keys: Vec<String> = Vec::new();
            assert(views(keys@) =~= Seq::<Seq<char>>::empty());
            Ok(keys)
        },
        Some(section) => read_optional_key_set(
            section,
            "commands",
            Field::Commands,
            Field::CmdValue,
        ),
    }
}

impl Manifest {
    /// Reads a manifest from the tree of a parsed `info.hk`, taken after
    /// its interpolations are resolved.
    ///
    /// Succeeds exactly where [`manifest_of`] describes a manifest, and then
    /// returns that one; otherwise returns the fault that [`manifest_of`] names.
    pub fn load_info(config: &Vec<(String, Value)>) -> (r: Result<Manifest, ManifestError>)
        ensures
            match r {
                Ok(m) => manifest_of(config@) == Ok::<ManifestView, ManifestError>(m@)
                    && well_formed(m@),
                Err(e) => manifest_of(config@) == Err::<ManifestView, ManifestError>(e),
            },
    {
        let metadata = match get_required_table(config, "metadata", Field::Metadata) {
            Ok(t) => t,
            Err(e) => {
                return Err(e);
            },
        };
        let identity = match read_identity(metadata) {
            Ok(id) => id,
            Err(e) => {
                return Err(e);
            },
        };
        let description = match read_description(config) {
            Ok(d) => d,
            Err(e) => {
                return Err(e);
            },
        };
        let specs = match read_specs(config) {
            Ok(s) => s,
            Err(e) => {
                return Err(e);
            },
        };
        let bins = match read_optional_key_set(metadata, "bins", Field::Bins, Field::BinValue) {
            Ok(b) => b,
            Err(e) => {
                return Err(e);
            },
        };
        let sandbox = match read_sandbox(config) {
            Ok(sb) => sb,
            Err(e) => {
                return Err(e);
            },
        };
        let install_commands = match read_commands(config) {
            Ok(c) => c,
            Err(e) => {
                return Err(e);
            },
        };
        Ok(
            Manifest {
                name: identity.0,
                version: identity.1,
                authors: identity.2,
                license: identity.3,
                summary: description.0,
                long: description.1,
                system_specs: specs.0,
                deps: specs.1,
                bins,
                sandbox,
                install_commands,
            },
        )
    }
}

/// How a part of the manifest is called in messages.
pub open spec fn field_label(f: Field) -> Seq<char> {
    match f {
        Field::Metadata => "metadata"@,
        Field::Name => "name"@,
        Field::Version => "version"@,
        Field::Authors => "authors"@,
        Field::License => "license"@,
        Field::Description => "description"@,
        Field::Summary => "summary"@,
        Field::Long => "long"@,
        Field::Specs => "specs"@,
        Field::SpecValue => "spec value"@,
        Field::Dependencies => "dependencies"@,
        Field::DepValue => "dep value"@,
        Field::Bins => "bins"@,
        Field::BinValue => "bin value"@,
        Field::Sandbox => "sandbox"@,
        Field::Network => "network"@,
        Field::Gui => "gui"@,
        Field::Dev => "dev"@,
        Field::Filesystem => "filesystem"@,
        Field::FsValue => "fs value"@,
        Field::Install => "install"@,
        Field::Commands => "commands"@,
        Field::CmdValue => "cmd value"@,
    }
}

/// What a manifest error tells the user.
pub open spec fn manifest_message(e: ManifestError) -> Seq<char> {
    match e {
        ManifestError::Missing(Field::Metadata) => "Missing [metadata] section"@,
        ManifestError::Missing(Field::Sandbox) => "Missing [sandbox] section"@,
        ManifestError::Missing(f) => "Missing "@ + field_label(f),
        ManifestError::Invalid(f) => "Invalid "@ + field_label(f),
        ManifestError::Empty(f) => "Empty "@ + field_label(f),
        ManifestError::NonEmptyValue(f) => "Non-empty "@ + field_label(f),
    }
}

impl Field {
    /// How this part of the manifest is called in messages.
    pub fn label(self) -> (text: &'static str)
        ensures
            text@ == field_label(self),
    {
        match self {
            Field::Metadata => "metadata",
            Field::Name => "name",
            Field::Version => "version",
            Field::Authors => "authors",
            Field::License => "license",
            Field::Description => "description",
            Field::Summary => "summary",
            Field::Long => "long",
            Field::Specs => "specs",
            Field::SpecValue => "spec value",
            Field::Dependencies => "dependencies",
            Field::DepValue => "dep value",
            Field::Bins => "bins",
            Field::BinValue => "bin value",
            Field::Sandbox => "sandbox",
            Field::Network => "network",
            Field::Gui => "gui",
            Field::Dev => "dev",
            Field::Filesystem => "filesystem",
            Field::FsValue => "fs value",
            Field::Install => "install",
            Field::Commands => "commands",
            Field::CmdValue => "cmd value",
        }
    }
}

impl ManifestError {
    /// What this error tells the user.
    pub fn message(self) -> (text: String)
        ensures
            text@ == manifest_message(self),
    {
        match self {
            ManifestError::Missing(Field::Metadata) => "Missing [metadata] section".to_string(),
            ManifestError::Missing(Field::Sandbox) => "Missing [sandbox] section".to_string(),
            ManifestError::Missing(f) => followed_by("Missing ", f.label()),
            ManifestError::Invalid(f) => followed_by("Invalid ", f.label()),
            ManifestError::Empty(f) => followed_by("Empty ", f.label()),
            ManifestError::NonEmptyValue(f) => followed_by("Non-empty ", f.label()),
        }
    }
}

/// The line that reports one dependency.
pub open spec fn dependency_line(dep: (Seq<char>, Seq<char>)) -> Seq<char> {
    "Dependency: "@ + dep.0 + " "@ + dep.1
}

impl Manifest {
    /// The lines that report the package's dependencies, one for each, in
    /// the manifest's order. Dependencies are reported, not resolved.
    pub fn dependency_lines(&self) -> (lines: Vec<String>)
        ensures
            views(lines@) == self@.deps.map_values(|d: (Seq<char>, Seq<char>)| dependency_line(d)),
    {
        let ghost wanted = self@.deps.map_values(|d: (Seq<char>, Seq<char>)| dependency_line(d));
        let mut lines: Vec<String> = Vec::new();
        let n = ordered_map_len(&self.deps);
        let mut i: usize = 0;
        while i < n
            invariant
                i <= n,
                n == pairs(self.deps).len(),
                wanted == self@.deps.map_values(|d: (Seq<char>, Seq<char>)| dependency_line(d)),
                views(lines@) == wanted.take(i as int),
            decreases n - i,
        {
            match ordered_map_pair(&self.deps, i) {
                Some(pair) => {
                    let ghost before = views(lines@);
                    let mut line = followed_by("Dependency: ", pair.0.as_str());
                    line.append(" ");
                    line.append(pair.1.as_str());
                    lines.push(line);
                    assert(views(lines@) =~= before.push(line@));
                    assert(wanted.take(i + 1) =~= wanted.take(i as int).push(wanted[i as int]));
                },
                None => {},
            }
            i += 1;
        }
        assert(wanted.take(n as int) =~= wanted);
        lines
    }
}

} // verus!
