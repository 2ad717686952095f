use felt::{
    dispatch, get_all_commands, get_command, login_shell_or_default, shell_line, toml_to_feltrc,
    uses_node_modules, ChainWalk, Dispatch, FeltRc, FeltRcCommand, FeltRcCommandSection,
    FeltRcFeltSection, FeltRcToml,
};

fn cmd(name: &str, value: Option<&str>) -> FeltRcCommand {
    FeltRcCommand { name: name.to_string(), value: value.map(|v| v.to_string()) }
}

fn rc(root: Option<bool>, node_modules: Option<bool>, commands: Vec<FeltRcCommand>) -> FeltRc {
    FeltRc {
        felt: FeltRcFeltSection { root, node_modules },
        command: FeltRcCommandSection { commands },
    }
}

fn parsed(text: &str) -> FeltRcToml {
    let table: toml::Table = toml::from_str(text).unwrap();
    let felt = table.get("felt").and_then(|f| f.as_table());
    let flag = |key: &str| felt.and_then(|f| f.get(key)).and_then(|v| v.as_bool());
    FeltRcToml {
        felt: FeltRcFeltSection { root: flag("root"), node_modules: flag("node_modules") },
        command: table.get("command").and_then(|c| c.as_table()).cloned(),
    }
}

fn names(chain: &Vec<FeltRc>) -> Vec<String> {
    get_all_commands(chain).into_iter().map(|c| c.name).collect()
}

#[test]
fn felt_section_is_root_only_when_true() {
    assert!(FeltRcFeltSection { root: Some(true), node_modules: None }.is_root());
    assert!(!FeltRcFeltSection { root: Some(false), node_modules: None }.is_root());
    assert!(!FeltRcFeltSection { root: None, node_modules: Some(true) }.is_root());
    assert!(rc(Some(true), None, vec![]).is_root());
    assert!(!rc(None, None, vec![]).is_root());
}

#[test]
fn section_get_is_exact_and_case_sensitive() {
    let section = FeltRcCommandSection {
        commands: vec![cmd("Build", Some("A")), cmd("build", Some("b")), cmd("build", Some("c"))],
    };
    assert_eq!(section.get("build").unwrap().value.as_deref(), Some("b"));
    assert_eq!(section.get("Build").unwrap().value.as_deref(), Some("A"));
    assert!(section.get("buil").is_none());
    assert!(section.get("").is_none());
}

#[test]
fn toml_to_feltrc_keeps_every_entry() {
    let t = parsed("[felt]\nroot = true\n[command]\nlint = \"eslint .\"\nbuild = \"tsc\"\ntest = false\n");
    let r = toml_to_feltrc(&t);
    assert!(r.is_root());
    assert_eq!(r.felt.node_modules, None);
    let got: Vec<(String, Option<String>)> =
        r.command.commands.iter().map(|c| (c.name.clone(), c.value.clone())).collect();
    assert_eq!(
        got,
        vec![
            ("build".to_string(), Some("tsc".to_string())),
            ("lint".to_string(), Some("eslint .".to_string())),
            ("test".to_string(), None),
        ]
    );
}

#[test]
fn toml_to_feltrc_without_command_table_is_empty() {
    let t = parsed("[felt]\nnode_modules = true\n");
    let r = toml_to_feltrc(&t);
    assert_eq!(r.felt.node_modules, Some(true));
    assert!(r.command.commands.is_empty());
}

#[test]
fn all_commands_nearest_record_first() {
    let chain = vec![
        rc(None, None, vec![cmd("a", Some("1")), cmd("b", None)]),
        rc(None, None, vec![]),
        rc(None, None, vec![cmd("a", Some("2")), cmd("c", Some("3"))]),
    ];
    assert_eq!(names(&chain), vec!["a", "b", "a", "c"]);
    let all = get_all_commands(&chain);
    assert_eq!(all[1].value, None);
    assert_eq!(all[2].value.as_deref(), Some("2"));
    assert!(get_all_commands(&vec![]).is_empty());
}

#[test]
fn nearer_definition_wins() {
    let chain = vec![
        rc(None, None, vec![cmd("build", Some("tsc"))]),
        rc(Some(true), None, vec![cmd("build", Some("make")), cmd("deploy", Some("ship"))]),
    ];
    assert_eq!(get_command(&chain, "build").unwrap().value.as_deref(), Some("tsc"));
    assert_eq!(get_command(&chain, "deploy").unwrap().value.as_deref(), Some("ship"));
    assert!(get_command(&chain, "missing").is_none());
    assert!(get_command(&vec![], "build").is_none());
}

#[test]
fn declaration_without_value_shadows_ancestor() {
    let chain = vec![
        rc(None, None, vec![cmd("test", None)]),
        rc(None, None, vec![cmd("test", Some("pytest"))]),
    ];
    let c = get_command(&chain, "test").unwrap();
    assert_eq!(c.name, "test");
    assert_eq!(c.value, None);
    assert_eq!(dispatch(&chain, "test", true), Dispatch::Usage);
}

#[test]
fn unresolved_declaration_from_parsed_files() {
    let near = toml_to_feltrc(&parsed("[command]\ntest = {}\n"));
    let far = toml_to_feltrc(&parsed("[command]\ntest = \"pytest\"\n"));
    let chain = vec![near, far];
    assert_eq!(get_command(&chain, "test").unwrap().value, None);
}

#[test]
fn node_policy_nearest_explicit_flag() {
    let chain = vec![rc(None, None, vec![]), rc(None, Some(false), vec![]), rc(None, Some(true), vec![])];
    assert!(!uses_node_modules(&chain));
    let chain = vec![rc(None, None, vec![]), rc(None, Some(true), vec![]), rc(None, Some(false), vec![])];
    assert!(uses_node_modules(&chain));
}

#[test]
fn node_policy_unset_records_are_transparent() {
    let with = vec![rc(None, None, vec![]), rc(None, Some(true), vec![])];
    let without = vec![rc(None, Some(true), vec![])];
    assert_eq!(uses_node_modules(&with), uses_node_modules(&without));
    assert!(!uses_node_modules(&vec![rc(None, None, vec![]), rc(None, None, vec![])]));
    assert!(!uses_node_modules(&vec![]));
}

#[test]
fn no_root_keeps_every_level_then_home() {
    let mut walk = ChainWalk::new();
    walk.visit(false, Some(rc(None, None, vec![cmd("a", None)])), true);
    walk.visit(false, None, true);
    walk.visit(false, Some(rc(None, None, vec![cmd("b", None)])), true);
    walk.visit(false, Some(rc(None, None, vec![cmd("c", None)])), false);
    assert!(walk.is_finished());
    assert!(walk.needs_home());
    let chain = walk.finish(Some(rc(None, None, vec![cmd("home", None)])));
    assert_eq!(chain.len(), 4);
    assert_eq!(names(&chain), vec!["a", "b", "c", "home"]);
}

#[test]
fn home_reached_by_walk_is_not_appended_again() {
    let mut walk = ChainWalk::new();
    walk.visit(false, Some(rc(None, None, vec![cmd("a", None)])), true);
    walk.visit(true, Some(rc(None, None, vec![cmd("home", None)])), true);
    walk.visit(false, None, false);
    assert!(!walk.needs_home());
    let chain = walk.finish(Some(rc(None, None, vec![cmd("home", None)])));
    assert_eq!(names(&chain), vec!["a", "home"]);
}

#[test]
fn missing_home_file_adds_nothing() {
    let mut walk = ChainWalk::new();
    walk.visit(false, Some(rc(None, None, vec![cmd("a", None)])), false);
    assert!(walk.needs_home());
    assert_eq!(walk.finish(None).len(), 1);
}

#[test]
fn root_record_stops_walk_and_home_appended() {
    let mut walk = ChainWalk::new();
    walk.visit(false, Some(rc(None, None, vec![cmd("a", None)])), true);
    assert!(!walk.is_finished());
    walk.visit(false, Some(rc(Some(true), None, vec![cmd("b", None)])), true);
    assert!(walk.is_finished());
    assert!(walk.needs_home());
    let chain = walk.finish(Some(rc(None, None, vec![cmd("home", None)])));
    assert_eq!(names(&chain), vec!["a", "b", "home"]);
}

#[test]
fn root_marked_home_file_is_not_appended_twice() {
    let mut walk = ChainWalk::new();
    walk.visit(true, Some(rc(Some(true), None, vec![cmd("home", None)])), true);
    assert!(walk.is_finished());
    assert!(!walk.needs_home());
    assert_eq!(names(&walk.finish(Some(rc(None, None, vec![cmd("other", None)])))), vec!["home"]);
}

#[test]
fn malformed_level_leaves_others() {
    let mut walk = ChainWalk::new();
    walk.visit(false, Some(rc(None, None, vec![cmd("a", None)])), true);
    walk.visit(false, None, true);
    walk.visit(false, Some(rc(None, None, vec![cmd("b", None)])), false);
    assert_eq!(names(&walk.finish(None)), vec!["a", "b"]);
}

#[test]
fn nearest_build_wins_and_root_parent_ends_walk() {
    let cwd = toml_to_feltrc(&parsed("[command]\nbuild = \"tsc\"\n"));
    let parent = toml_to_feltrc(&parsed("[felt]\nroot = true\n[command]\nbuild = \"make\"\n"));
    let mut walk = ChainWalk::new();
    walk.visit(false, Some(cwd), true);
    walk.visit(true, Some(parent), true);
    assert!(walk.is_finished());
    assert!(!walk.needs_home());
    let chain = walk.finish(None);
    assert_eq!(chain.len(), 2);
    assert_eq!(get_command(&chain, "build").unwrap().value.as_deref(), Some("tsc"));
    assert_eq!(dispatch(&chain, "build", false), Dispatch::Run("tsc".to_string()));
}

#[test]
fn home_file_sets_node_policy() {
    let mut walk = ChainWalk::new();
    walk.visit(false, None, true);
    walk.visit(false, None, true);
    walk.visit(false, None, false);
    assert!(walk.needs_home());
    let home = toml_to_feltrc(&parsed("[felt]\nnode_modules = true\n"));
    let chain = walk.finish(Some(home));
    assert_eq!(chain.len(), 1);
    assert!(uses_node_modules(&chain));
    assert_eq!(dispatch(&chain, "jest", true), Dispatch::NodeBin);
    assert_eq!(dispatch(&chain, "jest", false), Dispatch::NotFound);
}

#[test]
fn dispatch_not_found_without_policy() {
    let chain = vec![rc(None, Some(false), vec![cmd("a", Some("x"))])];
    assert_eq!(dispatch(&chain, "b", true), Dispatch::NotFound);
    assert_eq!(dispatch(&chain, "a", true), Dispatch::Run("x".to_string()));
}

#[test]
fn shell_line_joins_with_spaces() {
    let args = vec!["--watch".to_string(), "src".to_string()];
    assert_eq!(shell_line("tsc", &args), "tsc --watch src");
    assert_eq!(shell_line("make", &vec![]), "make ");
    assert_eq!(shell_line("echo", &vec!["a b".to_string()]), "echo a b");
}

#[test]
fn login_shell_defaults_to_sh() {
    assert_eq!(login_shell_or_default(Some("/bin/zsh".to_string())), "/bin/zsh");
    assert_eq!(login_shell_or_default(None), "sh");
}
