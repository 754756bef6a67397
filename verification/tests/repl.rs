use margo::config::TemplateKind;
use margo::repl::completer::{
    complete_commands, complete_init_template, complete_slash, complete_templates,
    complete_variables, completion_request, extract_after_flag, CompletionRequest, MargoCompleter,
};
use margo::repl::fuzzy::{rank_matches, score, search_templates, search_variables};
use margo::repl::highlighter::{highlight_init_command, highlight_slash_command, MargoHighlighter, StyledSpan};
use margo::repl::hinter::MargoHinter;
use margo::repl::prompt::{EditMode, MargoPrompt};
use margo::repl::{history_path, parse_input, Input};
use margo::theme::Swatch;

fn names(list: &[&str]) -> Vec<String> {
    list.iter().map(|s| s.to_string()).collect()
}

fn pieces(spans: &[StyledSpan]) -> Vec<(Swatch, &str)> {
    spans.iter().map(|s| (s.swatch, s.text.as_str())).collect()
}

#[test]
fn parse_input_reads_quit_words() {
    for line in ["q", "quit", "exit", ":q", ":q!", ":wq", "/q", "/quit", "/exit", "  quit  ", "\t/q\n"] {
        assert!(matches!(parse_input(line), Input::Quit), "{:?}", line);
    }
}

#[test]
fn parse_input_reads_slash_commands() {
    assert!(matches!(parse_input("/help"), Input::Slash(ref c) if c == "help"));
    assert!(matches!(parse_input("  /templates edit x "), Input::Slash(ref c) if c == "templates edit x"));
    assert!(matches!(parse_input("/"), Input::Slash(ref c) if c.is_empty()));
    assert!(matches!(parse_input("/quit now"), Input::Slash(ref c) if c == "quit now"));
    assert!(matches!(parse_input("/ q"), Input::Slash(ref c) if c == " q"));
}

#[test]
fn parse_input_reads_init_and_unknown() {
    assert!(matches!(parse_input("init"), Input::Init(ref c) if c == "init"));
    assert!(matches!(parse_input(" init grf "), Input::Init(ref c) if c == "init grf"));
    assert!(matches!(parse_input("initial"), Input::Unknown(ref c) if c == "initial"));
    assert!(matches!(parse_input("help"), Input::Unknown(ref c) if c == "help"));
    assert!(matches!(parse_input(""), Input::Unknown(ref c) if c.is_empty()));
    assert!(matches!(parse_input("Quit"), Input::Unknown(ref c) if c == "Quit"));
    assert!(matches!(parse_input(":x"), Input::Unknown(ref c) if c == ":x"));
}

#[test]
fn history_is_kept_beside_the_configuration() {
    assert_eq!(history_path("/h/.config/margo"), "/h/.config/margo/history");
}

#[test]
fn hinter_knows_its_table() {
    let h = MargoHinter::new();
    assert_eq!(h.hints.len(), 41);
    assert_eq!(h.hint("init"), Some(" — guided project setup"));
    assert_eq!(h.hint("init "), Some("grf | grf-event"));
    assert_eq!(h.hint("/templat"), Some("es"));
    assert_eq!(h.hint("/t "), Some("outcomes | baselines | edit <name>"));
    assert_eq!(h.hint("qui"), Some("t"));
    assert_eq!(h.hint("quit"), None);
    assert_eq!(h.hint(""), None);
    assert_eq!(h.hint("/T "), None);
    assert_eq!(h.handle("/v"), "ars");
    assert_eq!(h.handle("nothing"), "");
    assert_eq!(h.complete_hint(), "");
    assert_eq!(h.next_hint_token(), "");
    assert_eq!(MargoHinter::default().hints.len(), 41);
}

#[test]
fn highlight_plain_and_quit() {
    let h = MargoHighlighter::new();
    assert!(h.highlight("").is_empty());
    assert_eq!(pieces(&h.highlight("quit")), vec![(Swatch::Sapphire, "quit")]);
    assert_eq!(pieces(&h.highlight("q")), vec![(Swatch::Sapphire, "q")]);
    assert_eq!(pieces(&h.highlight("exit")), vec![(Swatch::Sapphire, "exit")]);
    assert_eq!(pieces(&h.highlight("hello there")), vec![(Swatch::Text, "hello there")]);
    assert_eq!(pieces(&h.highlight("init")), vec![(Swatch::Text, "init")]);
}

#[test]
fn highlight_slash() {
    let h = MargoHighlighter::default();
    assert_eq!(pieces(&h.highlight("/help")), vec![(Swatch::Sapphire, "/help")]);
    assert_eq!(pieces(&h.highlight("/help ")), vec![(Swatch::Sapphire, "/help")]);
    assert_eq!(
        pieces(&h.highlight("/templates edit  x")),
        vec![(Swatch::Sapphire, "/templates"), (Swatch::Text, " "), (Swatch::Teal, "edit  x")]
    );
    let mut styled = vec![StyledSpan { swatch: Swatch::Red, text: "kept".to_string() }];
    highlight_slash_command("/a b", &mut styled);
    assert_eq!(
        pieces(&styled),
        vec![(Swatch::Red, "kept"), (Swatch::Sapphire, "/a"), (Swatch::Text, " "), (Swatch::Teal, "b")]
    );
}

#[test]
fn highlight_init() {
    let h = MargoHighlighter::new();
    assert_eq!(pieces(&h.highlight("init ")), vec![(Swatch::Mauve, "init"), (Swatch::Text, " ")]);
    assert_eq!(
        pieces(&h.highlight("init grf")),
        vec![(Swatch::Mauve, "init"), (Swatch::Text, " "), (Swatch::Mauve, "grf")]
    );
    assert_eq!(
        pieces(&h.highlight("init grf  age -t  wellbeing health rwa -b x")),
        vec![
            (Swatch::Mauve, "init"),
            (Swatch::Text, " "),
            (Swatch::Mauve, "grf"),
            (Swatch::Text, " "),
            (Swatch::Teal, "age"),
            (Swatch::Text, " "),
            (Swatch::Peach, "-t"),
            (Swatch::Text, " "),
            (Swatch::Yellow, "wellbeing"),
            (Swatch::Text, " "),
            (Swatch::Teal, "health"),
            (Swatch::Text, " "),
            (Swatch::Teal, "rwa"),
            (Swatch::Text, " "),
            (Swatch::Peach, "-b"),
            (Swatch::Text, " "),
            (Swatch::Yellow, "x"),
        ]
    );
    assert_eq!(
        pieces(&h.highlight("init -n a")),
        vec![
            (Swatch::Mauve, "init"),
            (Swatch::Text, " "),
            (Swatch::Peach, "-n"),
            (Swatch::Text, " "),
            (Swatch::Yellow, "a"),
        ]
    );
    let mut styled = Vec::new();
    highlight_init_command("initx y", &mut styled);
    assert_eq!(
        pieces(&styled),
        vec![(Swatch::Mauve, "init"), (Swatch::Mauve, "x"), (Swatch::Text, " "), (Swatch::Teal, "y")]
    );
}

#[test]
fn prompt_follows_the_edit_mode() {
    let mut p = MargoPrompt::new();
    assert!(!p.vi_normal);
    assert_eq!(p.render_prompt_left().text, "margo");
    assert_eq!(p.render_prompt_left().swatch, Swatch::Pink);
    assert_eq!(pieces(&p.render_prompt_right()), vec![
        (Swatch::Overlay0, "/help"),
        (Swatch::Overlay0, "/home"),
        (Swatch::Overlay0, "/q"),
    ]);
    assert_eq!(p.right_prompt_separator(), "  ");
    let mark = p.render_prompt_indicator(EditMode::ViNormal);
    assert_eq!((mark.swatch, mark.text.as_str()), (Swatch::Pink, "●"));
    assert!(p.vi_normal);
    assert_eq!(pieces(&p.render_prompt_right()), vec![
        (Swatch::Overlay0, "NORMAL"),
        (Swatch::Overlay0, "•"),
        (Swatch::Subtext0, "i"),
        (Swatch::Overlay0, "insert"),
    ]);
    assert_eq!(p.right_prompt_separator(), " ");
    for mode in [EditMode::Default, EditMode::Emacs, EditMode::ViInsert] {
        let mut q = MargoPrompt { vi_normal: true };
        let mark = q.render_prompt_indicator(mode);
        assert_eq!((mark.swatch, mark.text.as_str()), (Swatch::Teal, "❯"));
        assert!(!q.vi_normal);
    }
    let mark = p.render_prompt_indicator(EditMode::Custom);
    assert_eq!((mark.swatch, mark.text.as_str()), (Swatch::Peach, "▸"));
    assert!(!p.vi_normal);
    assert_eq!(p.render_prompt_multiline_indicator().text, "...");
    let (a, b) = p.render_prompt_history_search_indicator(true, "grf");
    assert_eq!((a.swatch, a.text.as_str()), (Swatch::Overlay0, "failing "));
    assert_eq!((b.swatch, b.text.as_str()), (Swatch::Sapphire, "grf"));
    let (a, _) = MargoPrompt::default().render_prompt_history_search_indicator(false, "");
    assert_eq!(a.text, "");
}

#[test]
fn flag_values_are_found_while_typed() {
    let t = ["-t", "--templates"];
    assert_eq!(extract_after_flag("init grf x -t wel", &t), Some("wel".to_string()));
    assert_eq!(extract_after_flag("init grf x -t ", &t), Some("".to_string()));
    assert_eq!(extract_after_flag("init grf x -t   wel", &t), Some("wel".to_string()));
    assert_eq!(extract_after_flag("init grf x --templates wel", &t), Some("wel".to_string()));
    assert_eq!(extract_after_flag("init grf x -t wel done", &t), None);
    assert_eq!(extract_after_flag("init grf x -t", &t), None);
    assert_eq!(extract_after_flag("init grf x -twel", &t), None);
    assert_eq!(extract_after_flag("init grf x", &t), None);
    assert_eq!(extract_after_flag("-t a -t b", &t), Some("b".to_string()));
    assert_eq!(extract_after_flag("--templates a -t b c", &t), Some("a -t b c".to_string()).filter(|_| false));
    assert_eq!(extract_after_flag("x", &[]), None);
}

#[test]
fn completion_requests() {
    assert!(matches!(completion_request("/he"), CompletionRequest::Slash(ref p) if p == "/he"));
    assert!(matches!(completion_request("/t -t x"), CompletionRequest::Slash(ref p) if p == "/t -t x"));
    assert!(matches!(
        completion_request("init grf age -t we"),
        CompletionRequest::Templates(TemplateKind::Outcomes, ref p) if p == "we"
    ));
    assert!(matches!(
        completion_request("init grf age --baselines mi"),
        CompletionRequest::Templates(TemplateKind::Baselines, ref p) if p == "mi"
    ));
    assert!(matches!(
        completion_request("init grf -b x -t y"),
        CompletionRequest::Templates(TemplateKind::Outcomes, ref p) if p == "y"
    ));
    assert!(matches!(completion_request("init "), CompletionRequest::InitTemplate(ref p) if p.is_empty()));
    assert!(matches!(completion_request("init gr"), CompletionRequest::InitTemplate(ref p) if p == "gr"));
    assert!(matches!(completion_request("init grf ag"), CompletionRequest::Variables(ref p) if p == "ag"));
    assert!(matches!(completion_request("init grf-event a  b"), CompletionRequest::Variables(ref p) if p == "b"));
    assert!(matches!(completion_request("init grf age "), CompletionRequest::Variables(ref p) if p == "age"));
    assert!(matches!(completion_request("init grf "), CompletionRequest::Variables(ref p) if p == "grf"));
    assert!(matches!(completion_request("init grf x -n"), CompletionRequest::Commands(ref p) if p == "init grf x -n"));
    assert!(matches!(completion_request("init lmtp x"), CompletionRequest::Commands(ref p) if p == "init lmtp x"));
    assert!(matches!(completion_request("qu"), CompletionRequest::Commands(ref p) if p == "qu"));
    assert!(matches!(completion_request(""), CompletionRequest::Commands(ref p) if p.is_empty()));
}

#[test]
fn commands_complete_by_prefix() {
    let c = MargoCompleter::new();
    assert_eq!(c.commands, vec!["init grf", "init grf-event", "init lmtp", "quit", "exit"]);
    assert_eq!(c.slash_commands.len(), 24);
    assert_eq!(c.slash_commands[0], "/help");
    assert_eq!(c.slash_commands[23], "/q");
    let s = complete_commands("init g", &c.commands);
    let values: Vec<&str> = s.iter().map(|x| x.value.as_str()).collect();
    assert_eq!(values, vec!["init grf", "init grf-event"]);
    assert!(s.iter().all(|x| x.span_start == 0 && x.span_end == 6 && x.append_whitespace && x.description.is_none()));
    assert_eq!(complete_commands("", &c.commands).len(), 5);
    assert!(complete_commands("x", &c.commands).is_empty());
    let s = complete_commands("é", &vec!["éa", "e"]);
    assert_eq!(s.len(), 1);
    assert_eq!(s[0].span_end, 2);
}

#[test]
fn init_templates_complete_with_descriptions() {
    let s = complete_init_template("grf");
    assert_eq!(s.len(), 2);
    assert_eq!(s[0].value, "grf");
    assert_eq!(s[0].description.as_deref(), Some("generalised random forests"));
    assert_eq!(s[1].value, "grf-event");
    assert_eq!(s[1].description.as_deref(), Some("grf event study"));
    assert_eq!((s[0].span_start, s[0].span_end), (5, 8));
    let s = complete_init_template("l");
    assert_eq!(s.len(), 1);
    assert_eq!(s[0].description.as_deref(), Some("longitudinal modified treatment policies"));
    assert_eq!(complete_init_template("").len(), 3);
    assert!(complete_init_template("x").is_empty());
}

#[test]
fn fuzzy_score_knows_matches_from_misses() {
    assert!(score("age", "age").is_some());
    assert!(score("ag", "age").is_some());
    assert!(score("AGE", "age").is_some());
    assert!(score("xyz", "age").is_none());
    assert!(score("age", "ag").is_none());
    assert_eq!(score("", "age"), Some(0));
    assert!(score("age", "age").unwrap() > score("ae", "age").unwrap());
}

#[test]
fn search_templates_ranks_matches() {
    let t = names(&["wellbeing", "health", "wealth"]);
    assert_eq!(search_templates("", &t), t);
    assert!(search_templates("zzz", &t).is_empty());
    assert_eq!(search_templates("health", &t), vec!["health"]);
    let found = search_templates("ea", &t);
    assert_eq!(found.len(), 2);
    assert!(found.contains(&"health".to_string()) && found.contains(&"wealth".to_string()));
    let ranked = rank_matches("ea", &t);
    assert!(ranked.windows(2).all(|w| w[0].score > w[1].score || (w[0].score == w[1].score && w[0].name <= w[1].name)));
    let same = names(&["b_x", "a_x", "c_x"]);
    assert_eq!(search_templates("x", &same), vec!["a_x", "b_x", "c_x"]);
}

#[test]
fn search_variables_sorts_when_the_pattern_is_empty() {
    let v = names(&["rwa", "age", "sdo", "age"]);
    assert_eq!(search_variables("", &v), vec!["age", "age", "rwa", "sdo"]);
    assert_eq!(search_variables("sd", &v), vec!["sdo"]);
}

#[test]
fn fuzzy_completions_replace_the_prefix() {
    let c = MargoCompleter::default();
    let s = complete_slash("/quit", &c.slash_commands);
    assert_eq!(s[0].value, "/quit");
    assert!(s.iter().all(|x| x.span_start == 0 && x.span_end == 5));
    let s = complete_templates("hea", &names(&["wellbeing", "health"]));
    assert_eq!(s.len(), 1);
    assert_eq!((s[0].value.as_str(), s[0].span_end), ("health", 3));
    let many: Vec<String> = (0..30).map(|i| format!("var{:02}", i)).collect();
    let s = complete_variables("var", &many);
    assert_eq!(s.len(), 20);
    assert!(s.iter().all(|x| x.span_start == 0 && x.span_end == 0));
    assert_eq!(complete_variables("", &names(&["b", "a"])).iter().map(|x| x.value.clone()).collect::<Vec<_>>(), vec!["a", "b"]);
}

#[test]
fn complete_chooses_by_the_line() {
    let c = MargoCompleter::new();
    let outcomes = names(&["wellbeing", "health"]);
    let baselines = names(&["default", "minimal"]);
    let variables = names(&["age", "male_binary", "agreeableness"]);
    let values = |line: &str| -> Vec<String> {
        c.complete(line, &outcomes, &baselines, &variables).into_iter().map(|s| s.value).collect()
    };
    assert_eq!(values("init grf x -t hea"), vec!["health"]);
    assert_eq!(values("init grf x -b min"), vec!["minimal"]);
    assert_eq!(values("init grf x -b "), vec!["default", "minimal"]);
    assert_eq!(values("init l"), vec!["lmtp"]);
    assert_eq!(values("init grf male"), vec!["male_binary"]);
    assert_eq!(values("ex"), vec!["exit"]);
    assert_eq!(values("/vars"), vec!["/vars"]);
}
