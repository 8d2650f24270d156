use vscodeconfigurator::text::{
    chars_of, join2, join3, same_text, substitute, text_of, trim_end_matches, trim_start_matches,
};

#[test]
fn chars_round_trip() {
    let chars = chars_of("a{b}é🚀");
    assert_eq!(chars, vec!['a', '{', 'b', '}', 'é', '🚀']);
    assert_eq!(text_of(&chars), "a{b}é🚀");
}

#[test]
fn chars_of_empty_string() {
    assert_eq!(chars_of(""), Vec::<char>::new());
    assert_eq!(text_of(&Vec::new()), "");
}

#[test]
fn join_two_and_three() {
    assert_eq!(join2("ab", "cd"), "abcd");
    assert_eq!(join2("", "cd"), "cd");
    assert_eq!(join3("a", "", "c"), "ac");
    assert_eq!(join3("Copying '", "x", "'"), "Copying 'x'");
}

#[test]
fn same_text_compares_characters() {
    assert!(same_text("sln", "sln"));
    assert!(!same_text("sln", "SLN"));
    assert!(!same_text("sln", "sl"));
    assert!(same_text("", ""));
}

#[test]
fn substitute_replaces_the_solution_name_token() {
    let template = "{\"dotnet.defaultSolution\": \"{{solutionName}}\", \"other\": 1}";
    let output = substitute(template, "{{solutionName}}", "Foo.sln");
    assert_eq!(output, "{\"dotnet.defaultSolution\": \"Foo.sln\", \"other\": 1}");
}

#[test]
fn substitute_replaces_every_occurrence_and_nothing_else() {
    let template = "a {{solutionName}} b {{solutionName}}{{solutionName}} {solutionName} c";
    let output = substitute(template, "{{solutionName}}", "Foo.sln");
    assert_eq!(output, "a Foo.sln b Foo.slnFoo.sln {solutionName} c");
    assert_eq!(output, template.replace("{{solutionName}}", "Foo.sln"));
}

#[test]
fn substitute_without_token_keeps_the_text() {
    let template = "nothing to see {here}";
    assert_eq!(substitute(template, "{{basePackageName}}", "pkg"), template);
}

#[test]
fn substitute_takes_occurrences_from_the_left_without_overlap() {
    assert_eq!(substitute("aaa", "aa", "b"), "ba");
    assert_eq!(substitute("aaaa", "aa", "b"), "bb");
    assert_eq!(substitute("abab", "ab", "ba"), "baba");
    assert_eq!(substitute("xaax", "a", ""), "xx");
}

#[test]
fn substitute_agrees_with_str_replace() {
    let cases = [
        ("", "a", "b"),
        ("a", "a", "b"),
        ("abcabc", "bc", "x"),
        ("{{{{t}}}}", "{{t}}", "v"),
        ("héllo wörld", "ö", "oe"),
        ("short", "much longer token", "v"),
        ("abc", "", "-"),
        ("", "", "-"),
        ("é🚀", "", "·"),
    ];
    for (text, token, value) in cases {
        assert_eq!(substitute(text, token, value), text.replace(token, value));
    }
}

#[test]
fn substitute_empty_token_spreads_the_value() {
    assert_eq!(substitute("abc", "", "-"), "-a-b-c-");
    assert_eq!(substitute("", "", "-"), "-");
}

#[test]
fn trim_end_matches_removes_the_run_at_the_end() {
    assert_eq!(trim_end_matches("proj///", '/'), "proj");
    assert_eq!(trim_end_matches("proj", '/'), "proj");
    assert_eq!(trim_end_matches("///", '/'), "");
    assert_eq!(trim_end_matches("", '/'), "");
    assert_eq!(trim_end_matches("a/b/", '/'), "a/b");
    assert_eq!(trim_end_matches("/a/", '/'), "/a");
}

#[test]
fn trim_start_matches_removes_the_run_at_the_start() {
    assert_eq!(trim_start_matches("//proj/", '/'), "proj/");
    assert_eq!(trim_start_matches("proj", '/'), "proj");
    assert_eq!(trim_start_matches("//", '/'), "");
    assert_eq!(trim_start_matches("", '/'), "");
}
