use reconcrab::error::ConfigError;
use reconcrab::mode::{
    effective_modes, plan_probes, prepare_probes, select_modes, FuzzMode, ProbeTarget,
};
use reconcrab::wordlist::{entry_of, filter_wordlist};

fn strings(items: &[&str]) -> Vec<String> {
    items.iter().map(|s| s.to_string()).collect()
}

fn pairs(plan: &[ProbeTarget]) -> Vec<(String, FuzzMode)> {
    plan.iter().map(|t| (t.word.clone(), t.mode)).collect()
}

#[test]
fn slash_word_is_probed_as_directory_only() {
    let requested = vec![FuzzMode::Subdomain];
    assert_eq!(effective_modes("admin/login", &requested), vec![FuzzMode::Directory]);
    let plan = plan_probes(&strings(&["admin/login"]), &requested);
    assert_eq!(pairs(&plan), vec![("admin/login".to_string(), FuzzMode::Directory)]);
    let both = vec![FuzzMode::Directory, FuzzMode::Subdomain];
    assert_eq!(effective_modes("/x", &both), vec![FuzzMode::Directory]);
    assert_eq!(effective_modes("x", &both), both);
    assert_eq!(effective_modes("x", &requested), requested);
}

#[test]
fn scenario_three_probes() {
    let lines = strings(&["admin", "#skip", "", "api/v1"]);
    let modes = select_modes(true, true);
    assert_eq!(modes, vec![FuzzMode::Directory, FuzzMode::Subdomain]);
    let plan = prepare_probes(&lines, &modes).unwrap();
    assert_eq!(plan.len(), 3);
    assert_eq!(
        pairs(&plan),
        vec![
            ("admin".to_string(), FuzzMode::Directory),
            ("admin".to_string(), FuzzMode::Subdomain),
            ("api/v1".to_string(), FuzzMode::Directory),
        ]
    );
}

#[test]
fn empty_wordlist_is_an_error() {
    let modes = select_modes(true, true);
    assert_eq!(filter_wordlist(&Vec::new()), Err(ConfigError::EmptyWordlist));
    assert_eq!(
        filter_wordlist(&strings(&["", "   ", "# comment", "\t#x", "\u{a0}"])),
        Err(ConfigError::EmptyWordlist)
    );
    assert!(matches!(
        prepare_probes(&strings(&["#a", " "]), &modes),
        Err(ConfigError::EmptyWordlist)
    ));
    assert_eq!(plan_probes(&Vec::new(), &modes).len(), 0);
}

#[test]
fn words_are_trimmed_and_kept_in_order() {
    let words = filter_wordlist(&strings(&["  admin \r", "#x", "a#b", " \u{2003}api\u{2003}", ""]));
    assert_eq!(words, Ok(strings(&["admin", "a#b", "api"])));
    assert_eq!(entry_of("  x y  "), Some("x y".to_string()));
    assert_eq!(entry_of("  # x"), None);
    assert_eq!(entry_of(""), None);
}

#[test]
fn directory_is_the_default_mode() {
    assert_eq!(select_modes(false, false), vec![FuzzMode::Directory]);
    assert_eq!(select_modes(true, false), vec![FuzzMode::Directory]);
    assert_eq!(select_modes(false, true), vec![FuzzMode::Subdomain]);
}

#[test]
fn plan_without_modes_holds_only_slash_words() {
    let plan = plan_probes(&strings(&["a", "b/c", "d"]), &Vec::new());
    assert_eq!(pairs(&plan), vec![("b/c".to_string(), FuzzMode::Directory)]);
}
