use rust_script::input::Input;
use rust_script::comment::CommentError;
use rust_script::manifest::{
    default_manifest, find_embedded_manifest, fix_manifest_paths, merge_manifest, split_input,
    Manifest, ManifestError,
};
use rust_script::table::{parse_table, render_table, Node, Table};

const DEFAULT_N: &str = r#"[[bin]]
name = "n_input_id"
path = "n.rs"

[package]
edition = "2018"
name = "n"
version = "0.1.0"

[profile.release]
strip = true
"#;

fn file(content: &str) -> Input {
    Input::File("n".into(), "p".into(), content.into())
}

fn split(content: &str) -> Option<(String, String)> {
    split_input(&file(content), "input_id", "/cwd").ok()
}

fn table(text: &str) -> Table {
    parse_table(text).unwrap()
}

fn string(s: &str) -> Node {
    Node::String(s.to_string())
}

fn inner<'a>(t: &'a Table, key: &str) -> &'a Table {
    match t.get(key) {
        Some(Node::Table(inner)) => inner,
        other => panic!("{:?}", other),
    }
}

#[test]
fn split_input_of_a_plain_program() {
    assert_eq!(split("fn main() {}"), Some((DEFAULT_N.into(), "fn main() {}".into())));
}

#[test]
fn split_input_ignores_prefix_manifests() {
    assert_eq!(
        split("\n---\nfn main() {}\n"),
        Some((DEFAULT_N.into(), "\n---\nfn main() {}\n".into()))
    );
    assert_eq!(
        split("[dependencies]\ntime=\"0.1.25\"\n---\nfn main() {}\n"),
        Some((
            DEFAULT_N.into(),
            "[dependencies]\ntime=\"0.1.25\"\n---\nfn main() {}\n".into()
        ))
    );
}

#[test]
fn split_input_merges_the_embedded_manifest() {
    let script = r#"/*!
Here is a manifest:

```cargo
[dependencies]
time = "0.1.25"
```
*/
fn main() {}
"#;
    assert_eq!(
        split(script),
        Some((
            r#"[[bin]]
name = "n_input_id"
path = "n.rs"

[dependencies]
time = "0.1.25"

[package]
edition = "2018"
name = "n"
version = "0.1.0"

[profile.release]
strip = true
"#
            .into(),
            script.into()
        ))
    );
}

#[test]
fn split_input_wraps_a_script_without_main() {
    let (manifest, source) = split("println!(\"hi\");\n").unwrap();
    assert_eq!(manifest, DEFAULT_N);
    assert_eq!(
        source,
        "fn main() -> Result<(), Box<dyn std::error::Error+Sync+Send>> {\t{\t    println!(\"hi\");\n    }\n    Ok(())\n}"
    );
    let (_, source) = split("#!/usr/bin/env rust-script\nprintln!(\"hi\");\n").unwrap();
    assert_eq!(
        source,
        "fn main() -> Result<(), Box<dyn std::error::Error+Sync+Send>> {\t{\n    println!(\"hi\");\n    }\n    Ok(())\n}"
    );
}

#[test]
fn split_input_keeps_any_declared_entry_point() {
    for declared in ["fn main(", "pub fn main(", "async fn main(", "pub async fn main("] {
        let script = format!("#!/usr/bin/env rust-script\nuse std::io;\n  \t{}) {{}}\n", declared);
        assert_eq!(split(&script).unwrap().1, script);
    }
    let not_declared = "// fn main() {}\nlet main = 1;\n";
    assert!(split(not_declared).unwrap().1.starts_with("fn main() -> Result<"));
}

#[test]
fn split_input_of_an_expression() {
    let (manifest, source) = split_input(&Input::Expr("1 + 1".into()), "abc", "/cwd").unwrap();
    assert!(manifest.contains("name = \"expr_abc\"\npath = \"expr.rs\"\n"));
    assert!(manifest.contains("[package]\nedition = \"2018\"\nname = \"expr\"\n"));
    assert!(source.contains("    match {1 + 1} {\n"));
    assert!(source.starts_with("\nuse std::any::{Any, TypeId};\n"));
}

#[test]
fn split_input_reports_a_broken_embedded_manifest() {
    let script = "//! ```cargo\n//! [dependencies\n//! ```\nfn main() {}\n";
    match split_input(&file(script), "input_id", "/cwd") {
        Err(ManifestError::EmbeddedManifest(message)) => assert!(!message.is_empty()),
        other => panic!("{:?}", other),
    }
    assert!(matches!(
        Manifest::Toml("a = ").into_toml(),
        Err(ManifestError::EmbeddedManifest(_))
    ));
    // The error says what could not be done; what the parser said lies
    // behind it.
    let error = Manifest::Toml("dependencies = = 1").into_toml().unwrap_err();
    assert_eq!(error.message(), "could not parse embedded manifest");
    let cause = error.cause().unwrap();
    assert!(cause.contains("line 1"), "{}", cause);
    assert_ne!(cause, error.message());
    assert_eq!(Manifest::Toml("").into_toml(), Ok(Table::new()));
    assert_eq!(Manifest::TomlOwned(String::new()).into_toml(), Ok(Table::new()));
    assert_eq!(
        Manifest::TomlOwned("a = 1\n".into()).into_toml().unwrap().get("a"),
        Some(&Node::Integer(1))
    );
}

#[test]
fn split_input_reports_a_broken_default_manifest() {
    let input = Input::File("qu\"ote".into(), "/scripts/qu\"ote.rs".into(), "fn main() {}".into());
    assert!(matches!(
        split_input(&input, "input_id", "/cwd"),
        Err(ManifestError::DefaultManifest(_))
    ));
    assert!(matches!(
        default_manifest(&input, "input_id"),
        Err(ManifestError::DefaultManifest(_))
    ));
}

#[test]
fn split_input_reports_a_merge_conflict() {
    // `bin` is a list of tables in the default manifest, and a table here.
    let script = r#"//! This is merged into a default manifest in order to form the full package manifest:
//!
//! ```cargo
//! [package]
//! name = "TEST-script-merge-manifest"
//! version = "0.1.3"
//! authors = ["mna king", "squeeze@merge.com"]
//! [bin]
//! name="xyz"
//! path="pdq.rs"
//! [dependencies]
//! boolinator = "=0.1.0"
//! tokio = { version = "1", features = ["full"] }
//! ```
use boolinator::Boolinator;

fn main() {}
"#;
    assert_eq!(
        split_input(&file(script), "input_id", "/cwd"),
        Err(ManifestError::MergeConflict)
    );
}

#[test]
fn split_input_needs_a_base_path() {
    let input = Input::File("n".into(), "/".into(), "fn main() {}".into());
    assert_eq!(split_input(&input, "input_id", "/cwd"), Err(ManifestError::NoBasePath));
}

#[test]
fn default_manifest_names_package_program_and_file() {
    let input = Input::File("1Script".into(), "/scripts/1Script.rs".into(), String::new());
    let manifest = default_manifest(&input, "0123").unwrap();
    let package = inner(&manifest, "package");
    assert_eq!(package.get("name"), Some(&string("_1script")));
    assert_eq!(package.get("version"), Some(&string("0.1.0")));
    assert_eq!(package.get("edition"), Some(&string("2018")));
    match manifest.get("bin") {
        Some(Node::Array(bins)) => {
            assert_eq!(bins.len(), 1);
            match &bins[0] {
                Node::Table(bin) => {
                    assert_eq!(bin.get("name"), Some(&string("_1script_0123")));
                    assert_eq!(bin.get("path"), Some(&string("1Script.rs")));
                }
                other => panic!("{:?}", other),
            }
        }
        other => panic!("{:?}", other),
    }
    assert_eq!(
        inner(inner(&manifest, "profile"), "release").get("strip"),
        Some(&Node::Boolean(true))
    );
}

#[test]
fn merge_adds_new_sections_and_keeps_the_default() {
    let default = default_manifest(&file("fn main() {}"), "input_id").unwrap();
    let fragment = table("[dependencies]\ntime = \"0.1.25\"\n");
    let merged = merge_manifest(default.duplicate(), fragment).unwrap();
    assert_eq!(inner(&merged, "dependencies").get("time"), Some(&string("0.1.25")));
    assert_eq!(merged.get("package"), default.get("package"));
    assert_eq!(merged.get("bin"), default.get("bin"));
    assert_eq!(merged.get("profile"), default.get("profile"));
}

#[test]
fn merge_goes_one_level_deep() {
    let default = table("[package]\nname = \"n\"\nversion = \"0.1.0\"\n[profile.release]\nstrip = true\nlto = false\n");
    let fragment = table("[package]\nversion = \"2.0.0\"\nauthors = [\"me\"]\n[profile.release]\nlto = true\n");
    let merged = merge_manifest(default, fragment).unwrap();
    let package = inner(&merged, "package");
    assert_eq!(package.get("name"), Some(&string("n")));
    assert_eq!(package.get("version"), Some(&string("2.0.0")));
    assert_eq!(package.get("authors"), Some(&Node::Array(vec![string("me")])));
    // `release` is replaced outright: `strip` is gone.
    let release = inner(inner(&merged, "profile"), "release");
    assert_eq!(release.get("lto"), Some(&Node::Boolean(true)));
    assert_eq!(release.get("strip"), None);
}

#[test]
fn merge_replaces_a_table_by_a_value_but_not_a_value_by_a_table() {
    let merged = merge_manifest(table("[package]\nname = \"n\"\n"), table("package = 1\n")).unwrap();
    assert_eq!(merged.get("package"), Some(&Node::Integer(1)));
    assert_eq!(
        merge_manifest(table("package = 1\n"), table("[package]\nname = \"n\"\n")),
        Err(ManifestError::MergeConflict)
    );
    let merged = merge_manifest(table("a = 1\n"), table("a = \"x\"\nb = 2\n")).unwrap();
    assert_eq!(merged.get("a"), Some(&string("x")));
    assert_eq!(merged.get("b"), Some(&Node::Integer(2)));
}

#[test]
fn merge_counts_the_last_entry_of_a_key() {
    let mut fragment = Table::new();
    fragment.insert("package".into(), Node::Table(table("name = \"first\"\n")));
    fragment.insert("package".into(), Node::Integer(7));
    let merged = merge_manifest(table("package = 1\n"), fragment).unwrap();
    assert_eq!(merged.get("package"), Some(&Node::Integer(7)));
}

#[test]
fn fix_manifest_paths_rewrites_every_place() {
    let manifest = table(
        r#"
[package]
build = "build.rs"
name = "src/lib.rs"

[dependencies]
a = { path = "a" }
b = { path = "/abs/b" }
c = "1.0"
d = { version = "1", git = "rel/url" }

[build-dependencies]
e = { path = "../e" }

[dev-dependencies]
f = { path = "f/g" }

[target.'cfg(unix)'.dependencies]
g = { path = "g" }

[target.'cfg(unix)'.dev-dependencies]
h = { path = "h" }

[workspace]
path = "elsewhere"
"#,
    );
    let fixed = fix_manifest_paths(manifest, "/base");
    let package = inner(&fixed, "package");
    assert_eq!(package.get("build"), Some(&string("/base/build.rs")));
    assert_eq!(package.get("name"), Some(&string("src/lib.rs")));
    let deps = inner(&fixed, "dependencies");
    assert_eq!(inner(deps, "a").get("path"), Some(&string("/base/a")));
    assert_eq!(inner(deps, "b").get("path"), Some(&string("/abs/b")));
    assert_eq!(deps.get("c"), Some(&string("1.0")));
    assert_eq!(inner(deps, "d").get("git"), Some(&string("rel/url")));
    assert_eq!(
        inner(inner(&fixed, "build-dependencies"), "e").get("path"),
        Some(&string("/base/../e"))
    );
    assert_eq!(
        inner(inner(&fixed, "dev-dependencies"), "f").get("path"),
        Some(&string("/base/f/g"))
    );
    let unix = inner(inner(&fixed, "target"), "cfg(unix)");
    assert_eq!(inner(inner(unix, "dependencies"), "g").get("path"), Some(&string("/base/g")));
    assert_eq!(inner(inner(unix, "dev-dependencies"), "h").get("path"), Some(&string("h")));
    assert_eq!(inner(&fixed, "workspace").get("path"), Some(&string("elsewhere")));
}

#[test]
fn tables_are_read_and_written() {
    let text = "flag = true\nnumber = 42\nratio = 1.5\nwhen = 1979-05-27T07:32:00Z\nwords = [\"a\", \"b\"]\n\n[[item]]\nname = \"x\"\n\n[section]\nkey = \"value\"\n";
    let parsed = table(text);
    assert_eq!(parsed.get("flag"), Some(&Node::Boolean(true)));
    assert_eq!(parsed.get("number"), Some(&Node::Integer(42)));
    assert_eq!(parsed.get("ratio"), Some(&Node::Float("1.5".into())));
    assert_eq!(parsed.get("when"), Some(&Node::Datetime("1979-05-27T07:32:00Z".into())));
    assert_eq!(parsed.get("words"), Some(&Node::Array(vec![string("a"), string("b")])));
    assert_eq!(inner(&parsed, "section").get("key"), Some(&string("value")));
    assert_eq!(parsed.get("missing"), None);
    assert_eq!(render_table(&parsed), Ok(text.to_string()));
    assert_eq!(parsed.duplicate(), parsed);
    assert!(parse_table("not a table").is_err());
}

#[test]
fn a_table_is_written_with_the_last_entry_of_each_key() {
    let mut t = Table::new();
    t.insert("a".into(), Node::Integer(1));
    t.insert("b".into(), string("x"));
    t.insert("a".into(), Node::Integer(2));
    assert_eq!(t.get("a"), Some(&Node::Integer(2)));
    assert_eq!(render_table(&t), Ok("a = 2\nb = \"x\"\n".to_string()));
}


#[test]
fn floating_point_numbers_keep_their_text() {
    let parsed = table("a = nan\nb = -nan\nc = inf\nd = -inf\ne = -0.0\nf = 1e3\ng = 0.1\n");
    assert_eq!(parsed.get("a"), Some(&Node::Float("nan".into())));
    // The sign of what is no number is not kept.
    assert_eq!(parsed.get("b"), Some(&Node::Float("nan".into())));
    assert_eq!(parsed.get("c"), Some(&Node::Float("inf".into())));
    assert_eq!(parsed.get("d"), Some(&Node::Float("-inf".into())));
    assert_eq!(parsed.get("e"), Some(&Node::Float("-0.0".into())));
    assert_eq!(parsed.get("f"), Some(&Node::Float("1000.0".into())));
    assert_eq!(parsed.get("g"), Some(&Node::Float("0.1".into())));
    let written = render_table(&parsed).unwrap();
    assert_eq!(written, "a = nan\nb = nan\nc = inf\nd = -inf\ne = -0.0\nf = 1000.0\ng = 0.1\n");
    // What cannot be read as a number or a date is written as a string.
    let mut odd = Table::new();
    odd.insert("x".into(), Node::Float("one and a half".into()));
    odd.insert("y".into(), Node::Datetime("yesterday".into()));
    assert_eq!(render_table(&odd), Ok("x = \"one and a half\"\ny = \"yesterday\"\n".to_string()));
}

#[test]
fn unreadable_comments_are_reported() {
    let script = "/*!\n```cargo\n\t[dependencies]\n```\n*/\nfn main() {}\n";
    let fault = CommentError::LeadingNotSpaces { count: 1, line: "\t[dependencies]".into() };
    assert_eq!(find_embedded_manifest(script), Err(fault));
    // No package is made for such a script.
    let fault = CommentError::LeadingNotSpaces { count: 1, line: "\t[dependencies]".into() };
    assert_eq!(split_input(&file(script), "input_id", "/cwd"), Err(ManifestError::Comment(fault)));

    let script = "//!\tx\nfn main() {}\n";
    let fault = || CommentError::LeadingNotSpaces { count: 1, line: "\tx".into() };
    assert_eq!(find_embedded_manifest(script), Err(fault()));
    assert_eq!(
        split_input(&file(script), "input_id", "/cwd"),
        Err(ManifestError::Comment(fault()))
    );
    assert_eq!(
        ManifestError::Comment(fault()).message(),
        "error slicing comment: leading 1 chars aren't all spaces: \"\\tx\""
    );
    // The comment is read whether it holds a manifest or not.
    assert!(matches!(
        split_input(&file("//! Words.\n//!\tMore words.\nfn main() {}\n"), "input_id", "/cwd"),
        Err(ManifestError::Comment(_))
    ));

    assert_eq!(find_embedded_manifest("fn main() {}"), Ok(None));
    assert_eq!(find_embedded_manifest("//! Just words.\nfn main() {}"), Ok(None));
    let script = "#!/usr/bin/env rust-script\n//! ```cargo\n//! a = 1\n//! ```\n";
    assert_eq!(
        find_embedded_manifest(script),
        Ok(Some((Manifest::TomlOwned("a = 1\n".to_string()), script)))
    );
    // An expression is not read for a comment.
    assert!(split_input(&Input::Expr("//!\tx".into()), "input_id", "/cwd").is_ok());
}
