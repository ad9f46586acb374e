use rust_script::comment::{extract_comment, CommentError};
use rust_script::input::Input;
use rust_script::manifest::{find_embedded_manifest, Manifest};
use rust_script::markdown::scrape_markdown_manifest;
use rust_script::source::strip_shebang;

#[test]
fn test_package_name() {
    let input = Input::File("Script".into(), "path".into(), "script".into());
    assert_eq!("script", input.package_name());
    let input = Input::File("1Script".into(), "path".into(), "script".into());
    assert_eq!("_1script", input.package_name());
}

#[test]
fn test_strip_shebang() {
    assert_eq!(
        strip_shebang(
            "\
#!/usr/bin/env rust-script
and the rest
\
        "
        )
        .0,
        "\
and the rest
\
        "
    );
    assert_eq!(
        strip_shebang(
            "\
#![thingy]
and the rest
\
        "
        )
        .0,
        "\
#![thingy]
and the rest
\
        "
    );
}

/// The manifest of a script whose comment, if it has one, can be read.
fn fem(s: &str) -> Option<(Manifest<'static>, &str)> {
    find_embedded_manifest(s).unwrap()
}

#[test]
fn test_find_embedded_manifest() {

    assert_eq!(fem("fn main() {}"), None);

    assert_eq!(
        fem("
fn main() {}
"),
        None
    );

    // Ensure removed prefix manifests don't work.
    assert_eq!(
        fem(r#"
---
fn main() {}
"#),
        None
    );

    assert_eq!(
        fem("[dependencies]
time = \"0.1.25\"
---
fn main() {}
"),
        None
    );

    assert_eq!(
        fem("[dependencies]
time = \"0.1.25\"

fn main() {}
"),
        None
    );

    // Make sure we aren't just grabbing the *last* line.
    assert_eq!(
        fem("[dependencies]
time = \"0.1.25\"

fn main() {
    println!(\"Hi!\");
}
"),
        None
    );

    assert_eq!(
        fem(r#"//! ```Cargo
//! [dependencies]
//! time = "0.1.25"
//! ```
fn main() {}
"#),
        Some((
            Manifest::TomlOwned(
                r#"[dependencies]
time = "0.1.25"
"#
                .into()
            ),
            r#"//! ```Cargo
//! [dependencies]
//! time = "0.1.25"
//! ```
fn main() {}
"#
        ))
    );

    assert_eq!(
        fem(r#"/*!
[dependencies]
time = "0.1.25"
*/
fn main() {}
"#),
        None
    );

    assert_eq!(
        fem(r#"/*!
```Cargo
[dependencies]
time = "0.1.25"
```
*/
fn main() {}
"#),
        Some((
            Manifest::TomlOwned(
                r#"[dependencies]
time = "0.1.25"
"#
                .into()
            ),
            r#"/*!
```Cargo
[dependencies]
time = "0.1.25"
```
*/
fn main() {}
"#
        ))
    );

    // The comment has to be the first thing after the shebang line: here a
    // blank line stands between the two, and hides the manifest.
    assert_eq!(
        fem(r#"#!/usr/bin/env rust-script

/*!
```Cargo
[dependencies]
time = "0.1.25"
```
*/
fn main() {}
"#),
        None
    );

    assert_eq!(
        fem(r#"/*!
 * [dependencies]
 * time = "0.1.25"
 */
fn main() {}
"#),
        None
    );

    assert_eq!(
        fem(r#"/*!
 * ```Cargo
 * [dependencies]
 * time = "0.1.25"
 * ```
 */
fn main() {}
"#),
        Some((
            Manifest::TomlOwned(
                r#"[dependencies]
time = "0.1.25"
"#
                .into()
            ),
            r#"/*!
 * ```Cargo
 * [dependencies]
 * time = "0.1.25"
 * ```
 */
fn main() {}
"#
        ))
    );
}

#[test]
fn find_embedded_manifest_directly_after_shebang() {
    let script = r#"#!/usr/bin/env rust-script
/*!
```Cargo
[dependencies]
time = "0.1.25"
```
*/
fn main() {}
"#;
    assert_eq!(
        find_embedded_manifest(script),
        Ok(Some((
            Manifest::TomlOwned("[dependencies]\ntime = \"0.1.25\"\n".into()),
            script
        )))
    );
}

#[test]
fn test_scrape_markdown_manifest() {
    let smm = scrape_markdown_manifest;

    assert_eq!(
        smm(r#"There is no manifest in this comment.
"#),
        None
    );

    assert_eq!(
        smm(r#"There is no manifest in this comment.

```
This is not a manifest.
```

```rust
println!("Nor is this.");
```

    Or this.
"#),
        None
    );

    assert_eq!(
        smm(r#"This is a manifest:

```cargo
dependencies = { time = "*" }
```
"#),
        Some(
            r#"dependencies = { time = "*" }
"#
            .into()
        )
    );

    assert_eq!(
        smm(r#"This is *not* a manifest:

```
He's lying, I'm *totally* a manifest!
```

This *is*:

```cargo
dependencies = { time = "*" }
```
"#),
        Some(
            r#"dependencies = { time = "*" }
"#
            .into()
        )
    );

    assert_eq!(
        smm(r#"This is a manifest:

```cargo
dependencies = { time = "*" }
```

So is this, but it doesn't count:

```cargo
dependencies = { explode = true }
```
"#),
        Some(
            r#"dependencies = { time = "*" }
"#
            .into()
        )
    );
}

fn ec(s: &str) -> Result<String, String> {
    extract_comment(s).map_err(|e| e.message())
}

#[test]
fn test_extract_comment() {
    assert_eq!(ec(r#"fn main () {}"#), Err("no doc comment found".into()));

    assert_eq!(
        ec(r#"/*!
Here is a manifest:

```cargo
[dependencies]
time = "*"
```
*/
fn main() {}
"#),
        Ok(r#"
Here is a manifest:

```cargo
[dependencies]
time = "*"
```

"#
        .into())
    );

    assert_eq!(
        ec(r#"/*!
 * Here is a manifest:
 *
 * ```cargo
 * [dependencies]
 * time = "*"
 * ```
 */
fn main() {}
"#),
        Ok(r#"
Here is a manifest:

```cargo
[dependencies]
time = "*"
```

"#
        .into())
    );

    assert_eq!(
        ec(r#"//! Here is a manifest:
//!
//! ```cargo
//! [dependencies]
//! time = "*"
//! ```
fn main() {}
"#),
        Ok(r#"Here is a manifest:

```cargo
[dependencies]
time = "*"
```
"#
        .into())
    );
}

#[test]
fn extract_comment_rejects_tab_indentation() {
    let r = extract_comment("/*!\n\t[dependencies]\n*/\n");
    assert_eq!(
        r,
        Err(CommentError::LeadingNotSpaces {
            count: 1,
            line: "\t[dependencies]".into()
        })
    );
    assert_eq!(
        r.unwrap_err().message(),
        "leading 1 chars aren't all spaces: \"\\t[dependencies]\""
    );
}

#[test]
fn extract_comment_counts_the_margin_in_characters() {
    // The margin begins with a no-break space, which takes two bytes.
    assert_eq!(ec("/*!\n\u{a0}* abc\n\u{a0}* def\n*/\n"), Ok("\nabc\ndef\n\n".into()));
    assert_eq!(
        extract_comment("//!\u{a0}x\n"),
        Err(CommentError::LeadingNotSpaces { count: 1, line: "\u{a0}x".into() })
    );
    assert_eq!(ec("//!   a\n//!\n//!     c\n"), Ok("a\n\n  c\n".into()));
    // The first indentation counts: a line that has less is a fault.
    assert_eq!(
        extract_comment("//!   a\n//!  b\n"),
        Err(CommentError::LeadingNotSpaces { count: 3, line: "  b".into() })
    );
}

#[test]
fn extract_comment_follows_nested_block_comments() {
    assert_eq!(
        ec("/*!\nouter /* inner */ still outer\n*/\nfn main() {}\n"),
        Ok("\nouter /* inner */ still outer\n\n".into())
    );
}

#[test]
fn extract_comment_stops_at_first_line_without_marker() {
    assert_eq!(ec("/// one\n/// two\n\n/// three\n"), Ok("one\ntwo\n".into()));
}

#[test]
fn manifest_preceded_by_blank_line_is_not_found() {
    let body = "/*!\n```cargo\ndependencies = { time = \"*\" }\n```\n*/\nfn main() {}\n";
    assert_eq!(
        fem(body).map(|p| p.0),
        Some(Manifest::TomlOwned("dependencies = { time = \"*\" }\n".into()))
    );
    let blank = format!("\n{}", body);
    assert_eq!(find_embedded_manifest(&blank), Ok(None));
    let other = body.replace("```cargo", "```toml");
    assert_eq!(find_embedded_manifest(&other), Ok(None));
}
