use margo::commands::init::extract_old_project_name;
use margo::commands::{picked_name, shorten_path, valid_template_name};
use margo::config::{Config, TemplateKind};
use margo::manifest::TemplateManifest;
use margo::repl::completer::extract_after_flag;
use margo::repl::highlighter::MargoHighlighter;
use margo::repl::{parse_input, Input};
use margo::theme::Swatch;

/// Every string made of at most `max` pieces of the alphabet.
fn strings(alphabet: &[&str], max: usize) -> Vec<String> {
    let mut all = vec![String::new()];
    let mut last = vec![String::new()];
    for _ in 0..max {
        let mut next = Vec::new();
        for s in &last {
            for piece in alphabet {
                next.push(format!("{}{}", s, piece));
            }
        }
        all.extend(next.iter().cloned());
        last = next;
    }
    all
}

/// The variables of a template file, read with the standard library's
/// string functions.
fn expected_vars(content: &str) -> Vec<String> {
    let mut vars = Vec::new();
    let mut in_vars = false;
    for line in content.lines() {
        let line = line.trim();
        if line.starts_with("vars") && line.contains('[') {
            in_vars = true;
            if let (Some(start), Some(end)) = (line.find('['), line.find(']')) {
                let items = if start < end { &line[start + 1..end] } else { "" };
                for item in items.split(',') {
                    let var = item.trim().trim_matches('"').trim_matches('\'');
                    if !var.is_empty() {
                        vars.push(var.to_string());
                    }
                }
                in_vars = false;
            }
            continue;
        }
        if in_vars {
            if line.contains(']') {
                in_vars = false;
            }
            let line = line.trim_end_matches(',').trim_end_matches(']');
            let var = line.trim().trim_matches('"').trim_matches('\'');
            if !var.is_empty() && !var.starts_with('#') {
                vars.push(var.to_string());
            }
        }
    }
    vars
}

#[test]
fn variables_are_read_as_the_standard_library_reads_them() {
    let alphabet = ["vars", " = ", "[", "]", "\"a\"", "'b'", ",", "\n", "#", " x"];
    for s in strings(&alphabet, 5) {
        assert_eq!(Config::parse_vars(&s), expected_vars(&s), "{:?}", s);
    }
    for s in strings(&["vars = [", "\"a\",", " 'b c' ", "]", "\r\n", "\n", "# c", ",,", "\"'d'\""], 5) {
        assert_eq!(Config::parse_vars(&s), expected_vars(&s), "{:?}", s);
    }
}

type Fields = (Option<String>, Option<String>, Option<String>, Option<bool>, Option<String>, Option<String>);

/// A configuration file, read with the standard library's string functions.
fn expected_config(content: &str) -> Fields {
    let mut c: Fields = (None, None, None, None, None, None);
    for line in content.lines() {
        let line = line.trim();
        if line.starts_with('#') || line.is_empty() || line.starts_with('[') {
            continue;
        }
        if let Some((key, value)) = line.split_once('=') {
            let key = key.trim();
            let value = value.trim().trim_matches('"');
            match key {
                "pull_data" => c.0 = Some(value.to_string()),
                "push_mods" => c.1 = Some(value.to_string()),
                "baselines" => c.2 = Some(value.to_string()),
                "use_rv" | "use_renv" => c.3 = Some(value == "true"),
                "editor" | "command" => c.4 = Some(value.to_string()),
                "theme" => c.5 = Some(value.to_string()),
                _ => {}
            }
        }
    }
    c
}

#[test]
fn configuration_is_read_as_the_standard_library_reads_it() {
    let alphabet = ["pull_data", "use_rv", "theme", "=", " ", "\"", "true", "\n", "#", "[x]", "/p"];
    for s in strings(&alphabet, 5) {
        let c = Config::parse(&s);
        let got: Fields = (c.pull_data, c.push_mods, c.baselines, c.use_rv, c.editor, c.theme);
        assert_eq!(got, expected_config(&s), "{:?}", s);
    }
    let alphabet = ["push_mods = a\n", "baselines=\"b\"\r\n", "use_renv = true \n", "editor = $EDITOR\n", "command=vi\n", " # x\n", "theme = =\n"];
    for s in strings(&alphabet, 4) {
        let c = Config::parse(&s);
        let got: Fields = (c.pull_data, c.push_mods, c.baselines, c.use_rv, c.editor, c.theme);
        assert_eq!(got, expected_config(&s), "{:?}", s);
    }
}

/// A manifest file, read with the standard library's string functions: the
/// last version, and the first entry of each template.
fn expected_manifest(content: &str) -> Option<(String, Vec<(TemplateKind, String, String)>)> {
    let mut version = String::new();
    let mut entries: Vec<(TemplateKind, String, String)> = Vec::new();
    for line in content.lines() {
        let line = line.trim();
        if line.is_empty() || line.starts_with('#') {
            continue;
        }
        if let Some(rest) = line.strip_prefix("version=") {
            version = rest.to_string();
            continue;
        }
        let mut parts = line.splitn(3, ':');
        let (kind, name, hash) = match (parts.next(), parts.next(), parts.next()) {
            (Some(k), Some(n), Some(h)) => (k, n, h),
            _ => continue,
        };
        let kind = match kind {
            "baselines" => TemplateKind::Baselines,
            "outcomes" => TemplateKind::Outcomes,
            _ => continue,
        };
        if entries.iter().any(|e| e.0 == kind && e.1 == name) {
            continue;
        }
        entries.push((kind, name.to_string(), hash.to_string()));
    }
    if version.is_empty() {
        None
    } else {
        Some((version, entries))
    }
}

#[test]
fn manifests_are_read_as_the_standard_library_reads_them() {
    let alphabet = ["version=", "1", "baselines", "outcomes", ":", "a", "\n", " ", "#", "other"];
    for s in strings(&alphabet, 5) {
        let got = TemplateManifest::parse(&s)
            .map(|m| (m.version, m.entries.into_iter().map(|e| (e.kind, e.name, e.hash)).collect::<Vec<_>>()));
        assert_eq!(got, expected_manifest(&s), "{:?}", s);
    }
    let alphabet = ["version=1\n", "version=2\r\n", "baselines:a:1\n", "baselines:a:2\n", "outcomes:a:3:4\n", "x:y:z\n", "baselines:b\n", "\n"];
    for s in strings(&alphabet, 4) {
        let got = TemplateManifest::parse(&s)
            .map(|m| (m.version, m.entries.into_iter().map(|e| (e.kind, e.name, e.hash)).collect::<Vec<_>>()));
        assert_eq!(got, expected_manifest(&s), "{:?}", s);
    }
}

/// The value after a flag, found with the standard library's string
/// functions.
fn expected_after_flag<'a>(line: &'a str, flags: &[&str]) -> Option<&'a str> {
    for flag in flags {
        if let Some(pos) = line.rfind(flag) {
            let after_flag = &line[pos + flag.len()..];
            if after_flag.starts_with(' ') {
                let value = after_flag.trim_start();
                if !value.contains(' ') {
                    return Some(value);
                }
            }
        }
    }
    None
}

#[test]
fn flag_values_are_found_as_the_standard_library_finds_them() {
    let flags = ["-t", "--templates"];
    for s in strings(&["-t", "--templates", " ", "a", "-", "\t", "tb"], 6) {
        assert_eq!(
            extract_after_flag(&s, &flags),
            expected_after_flag(&s, &flags).map(|v| v.to_string()),
            "{:?}",
            s
        );
    }
}

fn expected_input(line: &str) -> (u8, String) {
    let line = line.trim();
    if line.starts_with('/') {
        let cmd = line.strip_prefix('/').unwrap_or(line);
        if cmd == "q" || cmd == "quit" || cmd == "exit" {
            return (0, String::new());
        }
        return (1, cmd.to_string());
    }
    if line.starts_with("init ") || line == "init" {
        return (2, line.to_string());
    }
    if line == "quit" || line == "exit" || line == "q" || line == ":q" || line == ":q!" || line == ":wq" {
        return (0, String::new());
    }
    (3, line.to_string())
}

#[test]
fn input_is_read_as_the_standard_library_reads_it() {
    for s in strings(&["/", "q", "quit", "exit", "init", " ", ":", "!", "w", "x"], 4) {
        let got = match parse_input(&s) {
            Input::Quit => (0, String::new()),
            Input::Slash(c) => (1, c),
            Input::Init(c) => (2, c),
            Input::Unknown(c) => (3, c),
        };
        assert_eq!(got, expected_input(&s), "{:?}", s);
    }
}

/// The coloured pieces of a line, found with the standard library's string
/// functions.
fn expected_highlight(line: &str) -> Vec<(Swatch, String)> {
    let mut styled = Vec::new();
    if line.is_empty() {
        return styled;
    }
    if line.starts_with('/') {
        let parts: Vec<&str> = line.splitn(2, ' ').collect();
        let rest = parts.get(1).copied().unwrap_or("");
        styled.push((Swatch::Sapphire, parts[0].to_string()));
        if !rest.is_empty() {
            styled.push((Swatch::Text, " ".to_string()));
            styled.push((Swatch::Teal, rest.to_string()));
        }
        return styled;
    }
    if line.starts_with("init ") {
        let mut chars = line.chars().peekable();
        let mut in_flag = false;
        let mut after_flag = false;
        styled.push((Swatch::Mauve, "init".to_string()));
        for _ in 0..4 {
            chars.next();
        }
        if chars.peek() == Some(&' ') {
            styled.push((Swatch::Text, " ".to_string()));
            chars.next();
        }
        let rest: String = chars.collect();
        for (i, part) in rest.split_whitespace().enumerate() {
            if i > 0 {
                styled.push((Swatch::Text, " ".to_string()));
            }
            if part.starts_with('-') {
                styled.push((Swatch::Peach, part.to_string()));
                in_flag = true;
                after_flag = false;
            } else if in_flag && !after_flag {
                styled.push((Swatch::Yellow, part.to_string()));
                after_flag = true;
            } else if i == 0 {
                styled.push((Swatch::Mauve, part.to_string()));
                in_flag = false;
                after_flag = false;
            } else {
                styled.push((Swatch::Teal, part.to_string()));
                in_flag = false;
                after_flag = false;
            }
        }
        return styled;
    }
    if line == "quit" || line == "exit" || line == "q" {
        styled.push((Swatch::Sapphire, line.to_string()));
        return styled;
    }
    styled.push((Swatch::Text, line.to_string()));
    styled
}

#[test]
fn lines_are_coloured_as_the_standard_library_splits_them() {
    let h = MargoHighlighter::new();
    for s in strings(&["init ", "init", "/t", " ", "-b", "grf", "x", "quit", "\t"], 5) {
        let got: Vec<(Swatch, String)> = h.highlight(&s).into_iter().map(|p| (p.swatch, p.text)).collect();
        assert_eq!(got, expected_highlight(&s), "{:?}", s);
    }
}

fn expected_project_name(content: &str) -> String {
    if let Some(first_line) = content.lines().next() {
        if first_line.starts_with("# ") && first_line.contains(" - ") {
            if let Some(name) = first_line.strip_prefix("# ") {
                if let Some((name, _)) = name.split_once(" - ") {
                    return name.to_string();
                }
            }
        }
    }
    String::new()
}

#[test]
fn project_names_are_read_as_the_standard_library_reads_them() {
    for s in strings(&["# ", "#", " - ", "-", " ", "a", "\n", "b c"], 6) {
        assert_eq!(extract_old_project_name(&s), expected_project_name(&s), "{:?}", s);
    }
}

fn expected_picked(item: &str) -> Option<String> {
    item.split('/').nth(1).and_then(|name| name.split_whitespace().next()).map(|n| n.to_string())
}

#[test]
fn picked_names_are_read_as_the_standard_library_reads_them() {
    for s in strings(&["outcomes", "/", "a", " ", "(3 vars)", "\t"], 6) {
        assert_eq!(picked_name(&s), expected_picked(&s), "{:?}", s);
    }
}

fn expected_short(path: &str, home: &str) -> String {
    if path.starts_with(home) {
        return format!("~{}", &path[home.len()..]);
    }
    path.to_string()
}

#[test]
fn paths_are_shortened_as_the_standard_library_shortens_them() {
    let all = strings(&["/", "home", "a", "é"], 4);
    for path in &all {
        for home in &all {
            assert_eq!(shorten_path(path, Some(home)), expected_short(path, home), "{:?} {:?}", path, home);
        }
    }
}

#[test]
fn template_names_are_checked_as_the_standard_library_checks_them() {
    for s in strings(&["a", "Z", "9", "_", "-", " ", "é", "٣", "."], 4) {
        let expected = s.chars().all(|c| c.is_alphanumeric() || c == '_');
        assert_eq!(valid_template_name(&s), expected, "{:?}", s);
    }
}
