use rust_script::action::{after_build, resolve_package_dir, ToolchainFailure};
use rust_script::arguments::{Args, ArgsError, BuildKind, Matches, UnstableFlags};
use rust_script::cache::{
    cleanup_after_failure, gc_cache, should_remove, write_if_changed, CacheEntry, WriteAction,
    MAX_CACHE_AGE,
};
use rust_script::comment::CommentError;
use rust_script::config::default_target_dir;
use rust_script::eval::{choose_target_dir, CliError};
use rust_script::hasher::{content_hash_parts, content_token, hash, truncate, ID_DIGEST_LEN_MAX};
use rust_script::manifest::ManifestError;
use rust_script::input::{find_script, package_identifier, script_candidates, Input};
use rust_script::ops::{run, temp_script, with_verbosity};
use rust_script::paths::{
    binary_cache_path, cache_dir, generated_projects_cache_path, templates_dir, DirError,
};
use rust_script::platform::{force_cargo_color, Platform};
use rust_script::session::{exit_code, gc_after_run, script_environment, startup, Outcome, Startup};
use rust_script::source::{contains_main_method, strip_shebang, wrap_in_main};
use rust_script::templates::{
    builtin_template, expand, expr_source, file_source, get_template, TemplateError,
    EXPR_SCRIPT_AT, EXPR_TEMPLATE,
};
use rust_script::text::{replace_all, split_lines, to_chars};
use rust_script::timing::Timestamp;

#[test]
fn identity_is_stable_and_cut_from_the_digest() {
    // SHA-1 of "hello world" is 2aae6c35c94fcfb415dbe95f408b9ce91ee846ed.
    assert_eq!(hash(b"hello world"), "2aae6c35c94fcfb415dbe95f408b9ce91ee846ed");
    assert_eq!(hash(b""), "da39a3ee5e6b4b0d3255bfef95601890afd80709");
    assert_eq!(ID_DIGEST_LEN_MAX, 24);
    assert_eq!(content_token(b"hello world"), "2aae6c35c94fcfb415dbe95f");
    let input = Input::Expr("hello world".into());
    assert_eq!(input.compute_id(), "2aae6c35c94fcfb415dbe95f");
    assert_eq!(input.compute_id(), input.compute_id());
    // A file is told by its path, not by its name or content.
    let a = Input::File("a".into(), "hello world".into(), "one".into());
    let b = Input::File("b".into(), "hello world".into(), "two".into());
    assert_eq!(a.compute_id(), "2aae6c35c94fcfb415dbe95f");
    assert_eq!(a.compute_id(), b.compute_id());
    let c = Input::File("a".into(), "/elsewhere".into(), "one".into());
    assert_ne!(a.compute_id(), c.compute_id());
    assert_eq!(c.compute_id().len(), 24);
    assert!(c.compute_id().chars().all(|ch| ch.is_ascii_digit() || ('a'..='f').contains(&ch)));
}

#[test]
fn truncate_keeps_a_prefix() {
    assert_eq!(truncate("0123456789", 4), "0123");
    assert_eq!(truncate("0123456789", 10), "0123456789");
    assert_eq!(truncate("0123456789", 99), "0123456789");
    assert_eq!(truncate("0123456789", 0), "");
}

#[test]
fn content_hash_names_three_directories() {
    // BLAKE3 of the empty input.
    let (a, b, c) = content_hash_parts(b"");
    assert_eq!(a, "af");
    assert_eq!(b, "13");
    assert_eq!(c, "49b9f5f9a1a6a0404dea36dcc9499bcb25c9adc112b7cc9a93cae41f3262");
    let temp = temp_script("/t", "shell", "", "stdin");
    assert_eq!(
        temp.dir,
        "/t/shell/af/13/49b9f5f9a1a6a0404dea36dcc9499bcb25c9adc112b7cc9a93cae41f3262"
    );
    assert_eq!(temp.path, format!("{}/stdin.rs", temp.dir));
    assert_eq!(temp.main, "");
    assert_ne!(temp_script("/t", "shell", "fn main() {}", "stdin").dir, temp.dir);
}

#[test]
fn package_identifier_sanitizes() {
    assert_eq!(package_identifier("Script"), "script");
    assert_eq!(package_identifier("1Script"), "_1script");
    assert_eq!(package_identifier(""), "");
    assert_eq!(package_identifier("a-b_c9"), "a-b_c9");
    assert_eq!(package_identifier("has space.and§more"), "has_space_and_more");
    assert_eq!(package_identifier("ÄZaz"), "_zaz");
    assert_eq!(package_identifier("9"), "_9");
    assert_eq!(package_identifier("!?"), "__");
    assert_eq!(package_identifier("x9"), "x9");
    // Sanitizing twice changes nothing more.
    assert_eq!(package_identifier(&package_identifier("1Script")), "_1script");
    assert_eq!(Input::Expr("1".into()).package_name(), "expr");
    assert_eq!(Input::Expr("1".into()).safe_name(), "expr");
}

#[test]
fn inputs_know_their_paths() {
    let file = Input::from_file("scripts/hello.world.rs", "/home/me", "fn main() {}".into());
    assert_eq!(
        file,
        Input::File("hello.world".into(), "/home/me/scripts/hello.world.rs".into(), "fn main() {}".into())
    );
    assert_eq!(file.path(), Some("/home/me/scripts/hello.world.rs"));
    assert_eq!(file.base_path("/cwd"), Some("/home/me/scripts".to_string()));
    assert_eq!(Input::from_file("/abs/x.rs", "/home/me", String::new()).path(), Some("/abs/x.rs"));
    assert_eq!(Input::from_file("..", "/home/me", String::new()).safe_name(), "unknown");
    let expr = Input::Expr("1".into());
    assert_eq!(expr.path(), None);
    assert_eq!(expr.base_path("/cwd"), Some("/cwd".to_string()));
    assert_eq!(Input::File("n".into(), "/".into(), String::new()).base_path("/cwd"), None);
}

#[test]
fn scripts_are_looked_for_with_extensions() {
    assert_eq!(script_candidates("hello"), vec!["hello", "hello.ers", "hello.rs"]);
    assert_eq!(script_candidates("dir.d/hello"), vec!["dir.d/hello", "dir.d/hello.ers", "dir.d/hello.rs"]);
    assert_eq!(script_candidates("hello.rs"), vec!["hello.rs"]);
    assert_eq!(script_candidates("hello.txt"), vec!["hello.txt"]);
}

#[test]
fn the_script_is_the_first_candidate_that_opens() {
    let tried = |opened: [bool; 3]| -> Vec<(String, bool)> {
        script_candidates("hello").into_iter().zip(opened).collect()
    };
    assert_eq!(find_script(&tried([true, true, true])), Some("hello".to_string()));
    assert_eq!(find_script(&tried([false, true, true])), Some("hello.ers".to_string()));
    assert_eq!(find_script(&tried([false, false, true])), Some("hello.rs".to_string()));
    assert_eq!(find_script(&tried([false, false, false])), None);
    assert_eq!(find_script(&vec![]), None);
}

#[test]
fn script_environment_tells_of_the_script() {
    let file = Input::from_file("scripts/1st.rs", "/home/me", String::new());
    let env = script_environment(&file, "/cwd").unwrap();
    assert_eq!(env.path, "/home/me/scripts/1st.rs");
    assert_eq!(env.safe_name, "1st");
    assert_eq!(env.package_name, "_1st");
    assert_eq!(env.base_path, "/home/me/scripts");
    let env = script_environment(&Input::Expr("1".into()), "/cwd").unwrap();
    assert_eq!(env.path, "");
    assert_eq!(env.safe_name, "expr");
    assert_eq!(env.base_path, "/cwd");
    assert_eq!(script_environment(&Input::File("n".into(), "/".into(), String::new()), "/cwd"), None);
}

#[test]
fn directories_of_the_cache() {
    assert_eq!(cache_dir(Some("/chosen".into()), Some("/home/.cache".into())), Ok("/chosen".into()));
    assert_eq!(cache_dir(None, Some("/home/.cache".into())), Ok("/home/.cache/rust-script".into()));
    assert_eq!(cache_dir(None, None), Err(DirError::NoDirectory));
    assert_eq!(generated_projects_cache_path("/c"), "/c/projects");
    assert_eq!(binary_cache_path("/c"), "/c/binaries");
    assert_eq!(templates_dir(true, Some("/t".into()), Some("/data".into())), Ok("/t".into()));
    assert_eq!(
        templates_dir(false, Some("/t".into()), Some("/data".into())),
        Ok("/data/rust-script/templates".into())
    );
    assert_eq!(templates_dir(true, None, Some("/data".into())), Ok("/data/rust-script/templates".into()));
    assert_eq!(templates_dir(true, None, None), Err(DirError::NoDirectory));
    assert_eq!(templates_dir(false, Some("/t".into()), None), Err(DirError::NoDirectory));
    assert_eq!(default_target_dir("/home/.cargo"), "/home/.cargo/shell/target");
    let home = || Some("/home/.cargo".to_string());
    assert_eq!(choose_target_dir(Some("/a".into()), Some("/b".into()), home()), Some("/a".into()));
    assert_eq!(choose_target_dir(None, Some("/b".into()), home()), Some("/b".into()));
    assert_eq!(choose_target_dir(None, Some("/b".into()), None), Some("/b".into()));
    assert_eq!(choose_target_dir(None, None, home()), Some("/home/.cargo/shell/target".into()));
    assert_eq!(choose_target_dir(None, None, None), None);
    assert_eq!(resolve_package_dir("abc", &Some("/mine".into()), "/c/projects"), ("/mine".into(), false));
    assert_eq!(resolve_package_dir("abc", &None, "/c/projects"), ("/c/projects/abc".into(), true));
}

#[test]
fn files_are_written_only_when_they_change() {
    assert_eq!(write_if_changed(None, "content", false), WriteAction::Changed);
    assert_eq!(write_if_changed(Some("content"), "content", false), WriteAction::Unchanged);
    assert_eq!(write_if_changed(Some("content"), "other", false), WriteAction::Changed);
    assert_eq!(write_if_changed(Some(""), "", false), WriteAction::Unchanged);
    assert_eq!(write_if_changed(Some("content"), "content", true), WriteAction::Changed);
    assert_eq!(write_if_changed(None, "content", true), WriteAction::Changed);
}

#[test]
fn failed_packages_are_removed_only_from_the_cache() {
    assert!(cleanup_after_failure(true, true));
    assert!(!cleanup_after_failure(true, false));
    assert!(!cleanup_after_failure(false, true));
    assert!(!cleanup_after_failure(false, false));
}

fn entry(is_dir: bool, modified: Option<(u64, u32)>) -> CacheEntry {
    CacheEntry { is_dir, modified: modified.map(|(seconds, nanos)| Timestamp { seconds, nanos }) }
}

#[test]
fn old_entries_are_cleared_out() {
    assert_eq!(MAX_CACHE_AGE, 604_800);
    let now = Timestamp { seconds: 1_000_000, nanos: 500 };
    // The cutoff lies at 395200 s and 500 ns.
    let entries = vec![
        entry(true, Some((395_199, 999_999_999))), // old
        entry(true, Some((395_200, 500))),         // at the cutoff
        entry(true, Some((395_200, 501))),         // just after it
        entry(true, Some((999_999, 0))),           // new
        entry(true, Some((2_000_000, 0))),         // from the future
        entry(true, None),                         // unreadable
        entry(false, Some((1, 0))),                // an old file
        entry(false, None),                        // an unreadable file
        entry(true, Some((395_199, 999_999_999))), // old, like the first
        entry(true, Some((999_999, 0))),           // new, like the fourth
    ];
    assert_eq!(gc_cache(&entries, now, MAX_CACHE_AGE), vec![0, 1, 5, 8]);
    assert!(should_remove(&entries[0], &now, MAX_CACHE_AGE));
    assert!(should_remove(&entries[1], &now, MAX_CACHE_AGE));
    assert!(!should_remove(&entries[2], &now, MAX_CACHE_AGE));
    assert!(!should_remove(&entries[3], &now, MAX_CACHE_AGE));
    assert!(!should_remove(&entries[6], &now, MAX_CACHE_AGE));
    // Before the cache could be a week old, nothing is.
    let early = Timestamp { seconds: 10, nanos: 0 };
    assert_eq!(gc_cache(&entries, early, MAX_CACHE_AGE), vec![5]);
    assert_eq!(gc_cache(&entries, early, 0), vec![5]);
    assert_eq!(gc_cache(&entries, early, 9), vec![5]);
    assert_eq!(gc_cache(&vec![], now, MAX_CACHE_AGE), Vec::<usize>::new());
}

#[test]
fn timestamps_are_ordered() {
    let a = Timestamp { seconds: 1, nanos: 999_999_999 };
    let b = Timestamp { seconds: 2, nanos: 0 };
    assert!(b.is_at_or_after(&a));
    assert!(!a.is_at_or_after(&b));
    assert!(a.is_at_or_after(&a));
    assert_eq!(a.total_nanos(), 1_999_999_999);
    assert!(a.is_older_than(&b, 0));
    assert!(!a.is_older_than(&b, 1));
    assert!(Timestamp { seconds: 1, nanos: 0 }.is_older_than(&b, 1));
}

#[test]
fn a_run_begins_and_ends() {
    assert_eq!(startup(true, false), Startup::ClearCache);
    assert_eq!(startup(true, true), Startup::ClearCacheAndRun);
    assert_eq!(startup(false, true), Startup::Run);
    assert_eq!(startup(false, false), Startup::Nothing);
    assert!(gc_after_run(false));
    assert!(!gc_after_run(true));
    assert_eq!(exit_code(Outcome::Done), 0);
    assert_eq!(exit_code(Outcome::Ran(Some(0))), 0);
    assert_eq!(exit_code(Outcome::Ran(Some(42))), 42);
    assert_eq!(exit_code(Outcome::Ran(None)), 1);
    assert_eq!(exit_code(Outcome::Failed), 1);
    assert_eq!(after_build(Some(0)), Ok(()));
    assert_eq!(after_build(Some(2)), Err(ToolchainFailure(2)));
    assert_eq!(after_build(None), Err(ToolchainFailure(1)));
}

#[test]
fn the_build_tool_is_told_how_much_to_print() {
    let script_args = vec!["--verbose".to_string(), "x".to_string()];
    let args_of = |level: u32, quiet: bool| {
        let line = with_verbosity(run("/s.rs", &script_args, true), level, quiet);
        assert_eq!(line.program, "cargo");
        assert_eq!(line.current_dir, None);
        line.args
    };
    let tail = ["--manifest-path", "/s.rs", "--release", "--", "--verbose", "x"];
    assert_eq!(args_of(0, false), [&["run"][..], &tail[..]].concat());
    assert_eq!(args_of(0, true), [&["run", "--quiet"][..], &tail[..]].concat());
    assert_eq!(args_of(2, false), [&["run", "--verbose", "--verbose"][..], &tail[..]].concat());
    assert_eq!(args_of(1, true), [&["run", "--quiet", "--verbose"][..], &tail[..]].concat());
    let bare = rust_script::action::CommandLine {
        program: "cargo".into(),
        args: vec![],
        current_dir: Some("/d".into()),
        backtrace: true,
    };
    let line = with_verbosity(bare, 1, true);
    assert_eq!(line.args, vec!["--quiet", "--verbose"]);
    assert_eq!(line.current_dir, Some("/d".to_string()));
    assert!(line.backtrace);
}

#[test]
fn colour_is_forced_on_terminals() {
    assert!(force_cargo_color(Platform::Unix, true));
    assert!(!force_cargo_color(Platform::Unix, false));
    assert!(!force_cargo_color(Platform::Windows, true));
    assert!(!force_cargo_color(Platform::Windows, false));
}

fn subs(pairs: &[(&str, &str)]) -> Vec<(String, String)> {
    pairs.iter().map(|(k, v)| (k.to_string(), v.to_string())).collect()
}

#[test]
fn templates_are_expanded() {
    let s = subs(&[("name", "world"), ("_x9", "!"), ("name", "shadowed")]);
    assert_eq!(expand("Hello, #{name}#{_x9}", &s), Ok("Hello, world!".to_string()));
    assert_eq!(expand("", &s), Ok(String::new()));
    assert_eq!(expand("no placeholders # { } #name {name}", &s), Ok("no placeholders # { } #name {name}".to_string()));
    // What is no placeholder is kept: a digit first, a blank, no closing.
    assert_eq!(expand("#{9x} #{na me} #{name", &s), Ok("#{9x} #{na me} #{name".to_string()));
    assert_eq!(expand("##{name}}", &s), Ok("#world}".to_string()));
    // The text that is put in is not expanded again.
    assert_eq!(expand("#{a}", &subs(&[("a", "#{b}"), ("b", "x")])), Ok("#{b}".to_string()));
    assert_eq!(
        expand("#{name} #{first} #{second}", &s),
        Err(TemplateError::UnknownSubstitution("first".to_string()))
    );
    assert_eq!(expand("#{x}", &vec![]), Err(TemplateError::UnknownSubstitution("x".to_string())));
}

#[test]
fn templates_are_built_in() {
    assert_eq!(get_template("file"), Ok("#{script}"));
    assert!(get_template("expr").unwrap().contains("    match {#{script}} {\n"));
    assert_eq!(get_template("nope"), Err(TemplateError::NoSuchTemplate("nope".to_string())));
    assert_eq!(builtin_template("file"), Some("#{script}"));
    assert_eq!(builtin_template("File"), None);
    assert_eq!(builtin_template(""), None);
}

#[test]
fn templates_are_filled() {
    assert_eq!(file_source("fn main() {}\n#{script}"), "fn main() {}\n#{script}");
    assert_eq!(file_source(""), "");
    assert_eq!(&EXPR_TEMPLATE[EXPR_SCRIPT_AT..EXPR_SCRIPT_AT + 9], "#{script}");
    assert_eq!(expr_source("1 + 1"), EXPR_TEMPLATE.replace("#{script}", "1 + 1"));
    assert_eq!(expr_source("#{script}"), EXPR_TEMPLATE);
}

#[test]
fn shebang_lines_are_taken_off() {
    assert_eq!(strip_shebang("#!/bin/sh\nrest"), ("rest", true));
    assert_eq!(strip_shebang("#!/bin/sh\r\nrest\n"), ("rest\n", true));
    assert_eq!(strip_shebang("#!\nrest"), ("rest", true));
    assert_eq!(strip_shebang("#!/bin/sh\n"), ("", true));
    assert_eq!(strip_shebang("#!/bin/sh"), ("#!/bin/sh", false));
    assert_eq!(strip_shebang("#![feature(x)]\nrest"), ("#![feature(x)]\nrest", false));
    assert_eq!(strip_shebang(" #!/bin/sh\nrest"), (" #!/bin/sh\nrest", false));
    assert_eq!(strip_shebang("#"), ("#", false));
    assert_eq!(strip_shebang(""), ("", false));
    assert_eq!(strip_shebang("#!é\nü"), ("ü", true));
}

#[test]
fn entry_points_are_found() {
    assert!(contains_main_method("fn main() {}"));
    assert!(contains_main_method("use x;\n\t pub async fn main() {\n}\n"));
    assert!(contains_main_method("\u{a0}fn main()"));
    assert!(!contains_main_method("fn  main() {}"));
    assert!(!contains_main_method("// fn main() {}"));
    assert!(!contains_main_method("fn main"));
    assert!(!contains_main_method(""));
    assert_eq!(
        wrap_in_main("x", false),
        "fn main() -> Result<(), Box<dyn std::error::Error+Sync+Send>> {\t{\t    x    }\n    Ok(())\n}"
    );
    assert_eq!(
        wrap_in_main("x", true),
        "fn main() -> Result<(), Box<dyn std::error::Error+Sync+Send>> {\t{\n    x    }\n    Ok(())\n}"
    );
}

#[test]
fn text_is_cut_into_lines_as_std_does() {
    for text in ["", "a", "a\n", "a\n\n", "\n", "a\r\nb\rc\r", "a\r\n\r\n", "\r\n", "\r", "x\n\r\ny"] {
        let ours: Vec<String> = split_lines(&to_chars(text)).iter().map(|l| l.iter().collect()).collect();
        let theirs: Vec<String> = text.lines().map(|l| l.to_string()).collect();
        assert_eq!(ours, theirs, "{:?}", text);
    }
}

#[test]
fn replace_all_goes_from_left_to_right() {
    assert_eq!(replace_all("a#{script}b#{script}", "#{script}", "X"), "aXbX");
    assert_eq!(replace_all("aaa", "aa", "b"), "ba");
    assert_eq!(replace_all("abc", "", "x"), "abc");
    assert_eq!(replace_all("abc", "abcd", "x"), "abc");
    assert_eq!(replace_all("", "a", "x"), "");
    assert_eq!(replace_all("#{script}", "#{script}", "#{script}#{script}"), "#{script}#{script}");
}

fn matches() -> Matches {
    Matches {
        script_and_args: vec!["s.rs".into(), "a".into(), "-b".into()],
        features: vec!["f1".into()],
        expr: false,
        pkg_path: Some("/pkg".into()),
        cargo_output: true,
        clear_cache: false,
        release: true,
        force: false,
        test: false,
        bench: false,
        toolchain_version: None,
        unstable_flags: vec![],
    }
}

#[test]
fn command_lines_are_checked() {
    let args = Args::parse(matches()).unwrap();
    assert_eq!(args.script, Some("s.rs".to_string()));
    assert_eq!(args.script_args, vec!["a", "-b"]);
    assert_eq!(args.features, vec!["f1"]);
    assert_eq!(args.pkg_path, Some("/pkg".to_string()));
    assert!(args.cargo_output);
    assert!(!args.debug);
    assert_eq!(args.build_kind, BuildKind::Normal);

    let none = Args::parse(Matches { script_and_args: vec![], clear_cache: true, ..matches() }).unwrap();
    assert_eq!(none.script, None);
    assert!(none.script_args.is_empty());
    assert!(none.clear_cache);

    let err = |m: Matches| Args::parse(m).err();
    assert_eq!(err(Matches { test: true, bench: true, ..matches() }), Some(ArgsError::TestAndBench));
    assert_eq!(err(Matches { test: true, ..matches() }), Some(ArgsError::TestUnstable));
    assert_eq!(
        err(Matches { bench: true, unstable_flags: vec![UnstableFlags::Test], ..matches() }),
        Some(ArgsError::BenchUnstable)
    );
    assert_eq!(
        err(Matches { toolchain_version: Some("nightly".into()), ..matches() }),
        Some(ArgsError::ToolchainVersionUnstable("nightly".into()))
    );
    assert_eq!(err(Matches { expr: true, ..matches() }), Some(ArgsError::ExprUnstable));
    let all = vec![
        UnstableFlags::Test,
        UnstableFlags::Bench,
        UnstableFlags::ToolchainVersion,
        UnstableFlags::Expr,
    ];
    let ok = Args::parse(Matches {
        test: true,
        expr: true,
        toolchain_version: Some("stage1".into()),
        unstable_flags: all,
        ..matches()
    })
    .unwrap();
    assert_eq!(ok.build_kind, BuildKind::Test);
    assert_eq!(ok.toolchain_version, Some("stage1".to_string()));
    assert_eq!(BuildKind::from_flags(false, true), Some(BuildKind::Bench));
    assert_eq!(BuildKind::from_flags(true, true), None);
    assert_eq!(BuildKind::Normal.exec_command(), "build");
    assert_eq!(BuildKind::Test.exec_command(), "test");
    assert_eq!(BuildKind::Bench.exec_command(), "bench");
}

#[test]
fn errors_are_put_in_words() {
    assert_eq!(
        TemplateError::UnknownSubstitution("x".into()).message(),
        "substitution `x` in template is unknown"
    );
    assert_eq!(TemplateError::NoSuchTemplate("x".into()).message(), "No such template: x");
    assert_eq!(CommentError::NoDocComment.message(), "no doc comment found");
    assert_eq!(
        CommentError::LeadingNotSpaces { count: 4_294_967_295, line: "\u{a0}a\"".into() }.message(),
        "leading 4294967295 chars aren't all spaces: \"\\u{a0}a\\\"\""
    );
    assert_eq!(
        CommentError::LeadingNotSpaces { count: 0, line: String::new() }.message(),
        "leading 0 chars aren't all spaces: \"\""
    );
    assert_eq!(
        ManifestError::EmbeddedManifest("bad".into()).message(),
        "could not parse embedded manifest"
    );
    assert_eq!(ManifestError::EmbeddedManifest("bad".into()).cause(), Some("bad".to_string()));
    assert_eq!(
        ManifestError::DefaultManifest("bad".into()).message(),
        "could not parse default manifest"
    );
    assert_eq!(ManifestError::DefaultManifest("bad".into()).cause(), Some("bad".to_string()));
    assert_eq!(ManifestError::MergeConflict.cause(), None);
    assert_eq!(ManifestError::NoBasePath.cause(), None);
    assert_eq!(ManifestError::Comment(CommentError::NoDocComment).cause(), None);
    assert_eq!(
        ManifestError::MergeConflict.message(),
        "cannot merge manifests: cannot merge table and non-table values"
    );
    assert_eq!(
        ManifestError::NoBasePath.message(),
        "couldn't get parent directory for file input base path"
    );
    assert_eq!(ManifestError::Render("bad".into()).message(), "could not write manifest");
    assert_eq!(ManifestError::Render("bad".into()).cause(), Some("bad".to_string()));
    assert_eq!(DirError::NoDirectory.message(), "Cannot get cache directory");
    assert_eq!(ArgsError::TestAndBench.message(), "got both test and bench");
    assert_eq!(
        ArgsError::TestUnstable.message(),
        "`--test` is unstable and requires `-Z test` (epage/cargo-script-mvs#29)."
    );
    assert_eq!(
        ArgsError::BenchUnstable.message(),
        "`--bench` is unstable and requires `-Z bench` (epage/cargo-script-mvs#68)."
    );
    assert_eq!(
        ArgsError::ToolchainVersionUnstable("nightly".into()).message(),
        "`--toolchain-version=nightly` is unstable and requires `-Z toolchain-version` (epage/cargo-script-mvs#36)."
    );
    assert_eq!(
        ArgsError::ExprUnstable.message(),
        "`--expr` is unstable and requires `-Z expr` (epage/cargo-script-mvs#72)."
    );
    assert_eq!(CliError::CleanUnstable.message(), "`--clean` is unstable and requires `-Zpolyfill`");
    assert_eq!(CliError::TestUnstable.message(), "`--test` is unstable and requires `-Zpolyfill`");
    assert_eq!(CliError::BenchUnstable.message(), "`--bench` is unstable and requires `-Zpolyfill`");
    assert_eq!(CliError::EvalUnstable.message(), "`--eval` is unstable and requires `-Zeval`");
    assert_eq!(CliError::LoopUnstable.message(), "`--loop` is unstable and requires `-Zloop`");
    assert_eq!(CliError::ScriptRequired.message(), "<PATH_RS> is required");
    assert_eq!(CliError::NoTargetDir.message(), "Cannot get target directory");
}
