use hpm_backend::manifest::{find, Field, Manifest, ManifestError, Sandbox, Value};
use indexmap::IndexMap;

fn text(s: &str) -> Value {
    Value::Text(s.to_string())
}

fn table(entries: Vec<(&str, Value)>) -> Value {
    Value::Table(entries.into_iter().map(|(k, v)| (k.to_string(), v)).collect())
}

fn key_set(keys: &[&str]) -> Value {
    Value::Table(keys.iter().map(|k| (k.to_string(), text(""))).collect())
}

fn config(entries: Vec<(&str, Value)>) -> Vec<(String, Value)> {
    entries.into_iter().map(|(k, v)| (k.to_string(), v)).collect()
}

fn metadata() -> Value {
    table(vec![
        ("name", text("foo")),
        ("version", text("1.0")),
        ("authors", text("A. Hacker")),
        ("license", text("MIT")),
    ])
}

fn minimal() -> Vec<(String, Value)> {
    config(vec![("metadata", metadata()), ("sandbox", table(vec![]))])
}

fn replace(mut cfg: Vec<(String, Value)>, key: &str, value: Value) -> Vec<(String, Value)> {
    for entry in cfg.iter_mut() {
        if entry.0 == key {
            entry.1 = value;
            return cfg;
        }
    }
    cfg.push((key.to_string(), value));
    cfg
}

fn metadata_with(key: &str, value: Value) -> Vec<(String, Value)> {
    let mut entries = match metadata() {
        Value::Table(t) => t,
        _ => unreachable!(),
    };
    entries.retain(|e| e.0 != key);
    entries.push((key.to_string(), value));
    replace(minimal(), "metadata", Value::Table(entries))
}

fn metadata_without(key: &str) -> Vec<(String, Value)> {
    let mut entries = match metadata() {
        Value::Table(t) => t,
        _ => unreachable!(),
    };
    entries.retain(|e| e.0 != key);
    replace(minimal(), "metadata", Value::Table(entries))
}

#[test]
fn minimal_manifest_takes_defaults() {
    let m = Manifest::load_info(&minimal()).unwrap();
    assert_eq!(m.name, "foo");
    assert_eq!(m.version, "1.0");
    assert_eq!(m.authors, "A. Hacker");
    assert_eq!(m.license, "MIT");
    assert_eq!(m.summary, "");
    assert_eq!(m.long, "");
    assert!(m.system_specs.is_empty());
    assert!(m.deps.is_empty());
    assert!(m.bins.is_empty());
    assert!(!m.sandbox.network);
    assert!(!m.sandbox.gui);
    assert!(!m.sandbox.dev);
    assert!(m.sandbox.filesystem.is_empty());
    assert!(m.install_commands.is_empty());
}

#[test]
fn full_manifest_is_read_in_order() {
    let cfg = config(vec![
        (
            "metadata",
            table(vec![
                ("name", text("foo")),
                ("version", Value::Number("1".to_string())),
                ("authors", text("A")),
                ("license", text("MIT")),
                ("bins", key_set(&["foo", "foo-cli"])),
            ]),
        ),
        ("description", table(vec![("summary", text("short")), ("long", text("very long"))])),
        (
            "specs",
            table(vec![
                ("ram", text("1G")),
                ("dependencies", table(vec![("libz", text(">=1.2")), ("liba", text("*"))])),
                ("arch", text("x86_64")),
                ("cores", Value::Number("4".to_string())),
                ("fast", Value::Flag(true)),
            ]),
        ),
        (
            "sandbox",
            table(vec![
                ("network", Value::Flag(true)),
                ("gui", Value::Flag(false)),
                ("dev", Value::Flag(true)),
                ("filesystem", key_set(&["/home/user/data", "/srv"])),
            ]),
        ),
        ("install", table(vec![("commands", key_set(&["make", "make install"]))])),
    ]);
    let m = Manifest::load_info(&cfg).unwrap();
    assert_eq!(m.version, "1");
    assert_eq!(m.summary, "short");
    assert_eq!(m.long, "very long");
    let mut specs = IndexMap::new();
    specs.insert("ram".to_string(), "1G".to_string());
    specs.insert("arch".to_string(), "x86_64".to_string());
    specs.insert("cores".to_string(), "4".to_string());
    specs.insert("fast".to_string(), "true".to_string());
    assert_eq!(m.system_specs, specs);
    assert_eq!(
        m.system_specs.keys().collect::<Vec<_>>(),
        vec!["ram", "arch", "cores", "fast"]
    );
    assert_eq!(
        m.deps.iter().map(|(k, v)| (k.as_str(), v.as_str())).collect::<Vec<_>>(),
        vec![("libz", ">=1.2"), ("liba", "*")]
    );
    assert_eq!(m.bins, vec!["foo", "foo-cli"]);
    assert_eq!(
        m.sandbox,
        Sandbox {
            network: true,
            filesystem: vec!["/home/user/data".to_string(), "/srv".to_string()],
            gui: false,
            dev: true
        }
    );
    assert_eq!(m.install_commands, vec!["make", "make install"]);
    assert_eq!(m.dependency_lines(), vec!["Dependency: libz >=1.2", "Dependency: liba *"]);
}

#[test]
fn repeated_spec_key_keeps_its_place_and_takes_the_later_value() {
    let cfg = replace(
        minimal(),
        "specs",
        table(vec![("a", text("1")), ("b", text("2")), ("a", text("3"))]),
    );
    let m = Manifest::load_info(&cfg).unwrap();
    assert_eq!(
        m.system_specs.iter().map(|(k, v)| (k.as_str(), v.as_str())).collect::<Vec<_>>(),
        vec![("a", "3"), ("b", "2")]
    );
}

#[test]
fn missing_metadata_section() {
    let cfg = config(vec![("sandbox", table(vec![]))]);
    let e = Manifest::load_info(&cfg).unwrap_err();
    assert_eq!(e, ManifestError::Missing(Field::Metadata));
    assert_eq!(e.message(), "Missing [metadata] section");
}

#[test]
fn metadata_of_the_wrong_kind() {
    let cfg = replace(minimal(), "metadata", text("oops"));
    let e = Manifest::load_info(&cfg).unwrap_err();
    assert_eq!(e, ManifestError::Invalid(Field::Metadata));
    assert_eq!(e.message(), "Invalid metadata");
}

#[test]
fn missing_sandbox_section() {
    let cfg = config(vec![("metadata", metadata())]);
    let e = Manifest::load_info(&cfg).unwrap_err();
    assert_eq!(e, ManifestError::Missing(Field::Sandbox));
    assert_eq!(e.message(), "Missing [sandbox] section");
}

#[test]
fn sandbox_of_the_wrong_kind() {
    let cfg = replace(minimal(), "sandbox", Value::Flag(true));
    assert_eq!(Manifest::load_info(&cfg).unwrap_err(), ManifestError::Invalid(Field::Sandbox));
    assert_eq!(ManifestError::Invalid(Field::Sandbox).message(), "Invalid sandbox");
}

#[test]
fn each_required_string_must_be_there() {
    let table = [
        ("name", Field::Name, "Missing name"),
        ("version", Field::Version, "Missing version"),
        ("authors", Field::Authors, "Missing authors"),
        ("license", Field::License, "Missing license"),
    ];
    for (key, field, message) in table {
        let e = Manifest::load_info(&metadata_without(key)).unwrap_err();
        assert_eq!(e, ManifestError::Missing(field));
        assert_eq!(e.message(), message);
    }
}

#[test]
fn each_required_string_must_be_a_scalar() {
    let table = [
        ("name", Field::Name, "Invalid name"),
        ("version", Field::Version, "Invalid version"),
        ("authors", Field::Authors, "Invalid authors"),
        ("license", Field::License, "Invalid license"),
    ];
    for (key, field, message) in table {
        let e = Manifest::load_info(&metadata_with(key, Value::List(vec![]))).unwrap_err();
        assert_eq!(e, ManifestError::Invalid(field));
        assert_eq!(e.message(), message);
    }
}

#[test]
fn each_required_string_must_not_be_empty() {
    let table = [
        ("name", Field::Name, "Empty name"),
        ("version", Field::Version, "Empty version"),
        ("authors", Field::Authors, "Empty authors"),
        ("license", Field::License, "Empty license"),
    ];
    for (key, field, message) in table {
        let e = Manifest::load_info(&metadata_with(key, text(""))).unwrap_err();
        assert_eq!(e, ManifestError::Empty(field));
        assert_eq!(e.message(), message);
    }
}

#[test]
fn the_first_fault_is_reported() {
    let cfg = config(vec![(
        "metadata",
        table(vec![("version", text("")), ("authors", text("A")), ("license", text("MIT"))]),
    )]);
    assert_eq!(Manifest::load_info(&cfg).unwrap_err(), ManifestError::Missing(Field::Name));
}

#[test]
fn booleans_and_numbers_stand_for_strings() {
    let m = Manifest::load_info(&metadata_with("license", Value::Flag(false))).unwrap();
    assert_eq!(m.license, "false");
    assert_eq!(Value::Flag(true).as_string(), Some("true".to_string()));
    assert_eq!(Value::Number("2.5".to_string()).as_string(), Some("2.5".to_string()));
    assert_eq!(Value::List(vec![]).as_string(), None);
    assert_eq!(table(vec![]).as_string(), None);
    assert_eq!(Value::Flag(true).as_bool(), Some(true));
    assert_eq!(text("true").as_bool(), None);
    assert_eq!(text("x").as_table(), None);
    assert_eq!(table(vec![]).as_table(), Some(&Vec::new()));
}

#[test]
fn key_set_value_must_be_empty() {
    let bins = table(vec![("ok", text("")), ("bad", text("x")), ("worse", Value::List(vec![]))]);
    let e = Manifest::load_info(&metadata_with("bins", bins)).unwrap_err();
    assert_eq!(e, ManifestError::NonEmptyValue(Field::BinValue));
    assert_eq!(e.message(), "Non-empty bin value");
}

#[test]
fn key_set_value_must_be_a_scalar() {
    let bins = table(vec![("bad", table(vec![]))]);
    let e = Manifest::load_info(&metadata_with("bins", bins)).unwrap_err();
    assert_eq!(e, ManifestError::Invalid(Field::BinValue));
    assert_eq!(e.message(), "Invalid bin value");
}

#[test]
fn key_set_value_that_stands_for_text_is_not_empty() {
    let fs = table(vec![("/srv", Value::Flag(true))]);
    let cfg = replace(minimal(), "sandbox", table(vec![("filesystem", fs)]));
    assert_eq!(
        Manifest::load_info(&cfg).unwrap_err(),
        ManifestError::NonEmptyValue(Field::FsValue)
    );
    let cmds = table(vec![("make", Value::Number("1".to_string()))]);
    let cfg = replace(minimal(), "install", table(vec![("commands", cmds)]));
    assert_eq!(
        Manifest::load_info(&cfg).unwrap_err(),
        ManifestError::NonEmptyValue(Field::CmdValue)
    );
}

#[test]
fn optional_parts_of_the_wrong_kind_are_faults() {
    let cases: Vec<(Vec<(String, Value)>, ManifestError, &str)> = vec![
        (
            replace(minimal(), "description", text("x")),
            ManifestError::Invalid(Field::Description),
            "Invalid description",
        ),
        (
            replace(minimal(), "description", table(vec![("summary", table(vec![]))])),
            ManifestError::Invalid(Field::Summary),
            "Invalid summary",
        ),
        (
            replace(minimal(), "description", table(vec![("long", Value::List(vec![]))])),
            ManifestError::Invalid(Field::Long),
            "Invalid long",
        ),
        (replace(minimal(), "specs", text("x")), ManifestError::Invalid(Field::Specs), "Invalid specs"),
        (
            replace(minimal(), "specs", table(vec![("ram", table(vec![]))])),
            ManifestError::Invalid(Field::SpecValue),
            "Invalid spec value",
        ),
        (
            replace(minimal(), "specs", table(vec![("dependencies", text("libz"))])),
            ManifestError::Invalid(Field::Dependencies),
            "Invalid dependencies",
        ),
        (
            replace(
                minimal(),
                "specs",
                table(vec![("dependencies", table(vec![("libz", Value::List(vec![]))]))]),
            ),
            ManifestError::Invalid(Field::DepValue),
            "Invalid dep value",
        ),
        (metadata_with("bins", text("foo")), ManifestError::Invalid(Field::Bins), "Invalid bins"),
        (
            replace(minimal(), "sandbox", table(vec![("network", text("true"))])),
            ManifestError::Invalid(Field::Network),
            "Invalid network",
        ),
        (
            replace(minimal(), "sandbox", table(vec![("gui", Value::Number("1".to_string()))])),
            ManifestError::Invalid(Field::Gui),
            "Invalid gui",
        ),
        (
            replace(minimal(), "sandbox", table(vec![("dev", table(vec![]))])),
            ManifestError::Invalid(Field::Dev),
            "Invalid dev",
        ),
        (
            replace(minimal(), "sandbox", table(vec![("filesystem", text("/srv"))])),
            ManifestError::Invalid(Field::Filesystem),
            "Invalid filesystem",
        ),
        (
            replace(minimal(), "sandbox", table(vec![("filesystem", table(vec![("/srv", Value::List(vec![]))]))])),
            ManifestError::Invalid(Field::FsValue),
            "Invalid fs value",
        ),
        (
            replace(minimal(), "install", text("make")),
            ManifestError::Invalid(Field::Install),
            "Invalid install",
        ),
        (
            replace(minimal(), "install", table(vec![("commands", text("make"))])),
            ManifestError::Invalid(Field::Commands),
            "Invalid commands",
        ),
        (
            replace(minimal(), "install", table(vec![("commands", table(vec![("make", table(vec![]))]))])),
            ManifestError::Invalid(Field::CmdValue),
            "Invalid cmd value",
        ),
    ];
    for (cfg, error, message) in cases {
        let e = Manifest::load_info(&cfg).unwrap_err();
        assert_eq!(e, error);
        assert_eq!(e.message(), message);
    }
}

#[test]
fn install_section_without_commands_has_none() {
    let cfg = replace(minimal(), "install", table(vec![("other", text("x"))]));
    assert!(Manifest::load_info(&cfg).unwrap().install_commands.is_empty());
}

#[test]
fn find_takes_the_first_occurrence() {
    let entries = config(vec![("a", text("1")), ("b", text("2")), ("a", text("3"))]);
    assert_eq!(find(&entries, "a"), Some(&text("1")));
    assert_eq!(find(&entries, "b"), Some(&text("2")));
    assert_eq!(find(&entries, "c"), None);
    assert_eq!(find(&Vec::new(), "a"), None);
}
