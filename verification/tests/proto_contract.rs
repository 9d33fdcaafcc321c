//! The structural scanner used to check the frozen proto contract: comment stripping, brace-matched
//! message blocks, and direct (depth-0) field declarations.

/// Strip `// …` line comments and `/* … */` block comments in a single pass, so neither kind can
/// be misread inside the other. Newlines are preserved so line structure holds.
fn strip_comments(src: &str) -> String {
    let b = src.as_bytes();
    let mut out = String::with_capacity(src.len());
    let mut i = 0;
    let mut run_start = 0;
    while i < b.len() {
        if b[i] == b'/' && b.get(i + 1) == Some(&b'/') {
            out.push_str(&src[run_start..i]);
            while i < b.len() && b[i] != b'\n' {
                i += 1;
            }
            run_start = i;
        } else if b[i] == b'/' && b.get(i + 1) == Some(&b'*') {
            out.push_str(&src[run_start..i]);
            i += 2;
            while i + 1 < b.len() && !(b[i] == b'*' && b[i + 1] == b'/') {
                i += 1;
            }
            i = (i + 2).min(b.len());
            run_start = i;
        } else {
            i += 1;
        }
    }
    out.push_str(&src[run_start..]);
    out
}

/// The brace-matched body of `message <name> { … }`, or `None` if absent; a prefix does not match.
fn message_block<'a>(src: &'a str, name: &str) -> Option<&'a str> {
    let needle = format!("message {name}");
    let mut from = 0;
    while let Some(rel) = src[from..].find(&needle) {
        let start = from + rel;
        let after = &src[start + needle.len()..];
        if after.starts_with(|c: char| c.is_whitespace() || c == '{') {
            if let Some(open) = after.find('{') {
                let bytes = after.as_bytes();
                let mut depth = 0i32;
                let mut i = open;
                while i < bytes.len() {
                    match bytes[i] {
                        b'{' => depth += 1,
                        b'}' => {
                            depth -= 1;
                            if depth == 0 {
                                return Some(&after[open + 1..i]);
                            }
                        }
                        _ => {}
                    }
                    i += 1;
                }
                return None;
            }
        }
        from = start + needle.len();
    }
    None
}

/// The portion of a message body at brace-depth 0 (nested blocks removed).
fn top_level_only(body: &str) -> String {
    let mut out = String::with_capacity(body.len());
    let mut depth = 0i32;
    for c in body.chars() {
        match c {
            '{' => depth += 1,
            '}' => depth = (depth - 1).max(0),
            _ if depth == 0 => out.push(c),
            _ => {}
        }
    }
    out
}

/// Whether a message body declares a direct field `name` with a numeric tag.
fn declares_field(body: &str, name: &str) -> bool {
    top_level_only(body).split(';').any(|stmt| {
        let toks: Vec<&str> = stmt
            .split(|c: char| c.is_whitespace() || c == '=')
            .filter(|t| !t.is_empty())
            .collect();
        toks.iter().position(|t| *t == name).is_some_and(|i| {
            i >= 1
                && toks
                    .get(i + 1)
                    .is_some_and(|tag| tag.chars().all(|c| c.is_ascii_digit()))
        })
    })
}

#[test]
fn message_block_scanner_is_exact() {
    let src =
        "message ServerOpenHandshakeExtra { string nope = 1; }\nmessage Other { int32 x = 1; }";
    assert!(message_block(src, "ServerOpenHandshake").is_none());
    assert!(message_block(src, "Other").is_some());
}

#[test]
fn strip_comments_handles_block_marker_inside_line_comment() {
    let src = "// see /api/auth/* here\nmessage M { string f = 1; }\n";
    let stripped = strip_comments(src);
    assert!(stripped.contains("message M"), "stripped = {stripped:?}");
    let body = message_block(&stripped, "M").expect("message M survives stripping");
    assert!(declares_field(body, "f"));
    assert!(!strip_comments("a /* x */ b").contains('x'));
}

#[test]
fn declares_field_ignores_nested_message_fields() {
    let body = " string real = 1;\n message Child { string client_min_version = 1; }\n";
    assert!(declares_field(body, "real"));
    assert!(
        !declares_field(body, "client_min_version"),
        "a field nested in a child message must not count as a direct field"
    );
}
