use zeroos::massage::{massage_options, massage_script, run, target_flags, MassageArgs};
use zeroos::matrix::{
    entry_targets, feature_combos, feature_list, features_flag, find_command, find_host_line,
    flatten_targets, host_target, is_wanted, plan_steps, progress_line, render_template, select_command,
    select_template, FeatureSpec, MatrixArgs, MatrixConfig, MatrixEntry, MatrixError, Step,
    TargetElem, Targets,
};
use zeroos::sh::{ShOptions, StreamMode};
use zeroos::text::join;

fn s(text: &str) -> String {
    text.to_string()
}

fn list(items: &[&str]) -> Vec<String> {
    items.iter().map(|i| i.to_string()).collect()
}

fn pairs(items: &[(&str, &str)]) -> Vec<(String, String)> {
    items.iter().map(|(k, v)| (k.to_string(), v.to_string())).collect()
}

fn args(command: Option<&str>, packages: &[&str]) -> MatrixArgs {
    MatrixArgs {
        config: None,
        command: command.map(|c| c.to_string()),
        packages: list(packages),
        verbose: false,
    }
}

fn names_and_commands(steps: &[Step]) -> Vec<(String, String)> {
    steps.iter().map(|s| (s.name.clone(), s.cmd.clone())).collect()
}

#[test]
fn default_options_inherit_both_streams() {
    let opts = ShOptions::default();
    assert_eq!(opts.stdout, StreamMode::Inherit);
    assert_eq!(opts.stderr, StreamMode::Inherit);
    assert_eq!(opts.cwd, None);
    assert!(!opts.quiet);
}

#[test]
fn join_puts_the_separator_between() {
    assert_eq!(join(&list(&[]), ","), "");
    assert_eq!(join(&list(&["a"]), ","), "a");
    assert_eq!(join(&list(&["a", "b", "c"]), ", "), "a, b, c");
    assert_eq!(join(&list(&["", ""]), "-"), "-");
}

#[test]
fn target_flags_select_the_workspace_or_packages() {
    assert_eq!(target_flags(true, &list(&["a"])), "--workspace");
    assert_eq!(target_flags(false, &list(&[])), "--workspace");
    assert_eq!(target_flags(false, &list(&["zeroos"])), "-p zeroos");
    assert_eq!(target_flags(false, &list(&["a", "b", "c"])), "-p a -p b -p c");
}

#[test]
fn massage_script_runs_the_five_steps() {
    let expected = r#"
set -e

echo [1/5] Running cargo fix...
cargo fix --allow-dirty --allow-staged --quiet -p a -p b

echo [2/5] Running cargo clippy --fix...
cargo clippy --fix --allow-dirty --allow-staged --quiet -p a -p b

echo [3/5] Running cargo fmt...
cargo fmt --all --quiet

echo [4/5] Running cargo check...
cargo check --quiet -p a -p b

echo [5/5] Running cargo test...
RUST_BACKTRACE=1 cargo nextest run --no-tests pass -p a -p b
"#;
    assert_eq!(massage_script("-p a -p b"), expected);
}

#[test]
fn massage_is_quiet_unless_verbose() {
    assert!(massage_options(false).quiet);
    assert!(!massage_options(true).quiet);
    let (script, opts) =
        run(&MassageArgs { workspace: false, packages: list(&["x"]), verbose: true });
    assert_eq!(script, massage_script("-p x"));
    assert!(!opts.quiet);
    assert_eq!(opts.stdout, StreamMode::Inherit);
    let (script, opts) = run(&MassageArgs { workspace: true, packages: list(&["x"]), verbose: false });
    assert_eq!(script, massage_script("--workspace"));
    assert!(opts.quiet);
}

#[test]
fn find_command_takes_the_first_match() {
    let table = pairs(&[("build", "cargo build"), ("check", "cargo check"), ("build", "other")]);
    assert_eq!(find_command(&table, &s("build")), Some(&s("cargo build")));
    assert_eq!(find_command(&table, &s("check")), Some(&s("cargo check")));
    assert_eq!(find_command(&table, &s("test")), None);
    assert_eq!(find_command(&pairs(&[]), &s("build")), None);
}

#[test]
fn templates_come_from_the_entry_first() {
    let entry = pairs(&[("build", "entry build")]);
    let config = pairs(&[("build", "config build"), ("check", "config check")]);
    assert_eq!(select_template(&entry, &config, &s("build")), "entry build");
    assert_eq!(select_template(&entry, &config, &s("check")), "config check");
    assert_eq!(select_template(&entry, &config, &s("echo {package}")), "echo {package}");
}

#[test]
fn commands_come_from_the_entry_first() {
    assert_eq!(select_command(&Some(s("a")), &Some(s("b"))), Ok(&s("a")));
    assert_eq!(select_command(&None, &Some(s("b"))), Ok(&s("b")));
    assert_eq!(select_command(&Some(s("a")), &None), Ok(&s("a")));
    assert_eq!(select_command(&None, &None), Err(MatrixError::NoCommand));
    assert_eq!(
        MatrixError::NoCommand.message(),
        "no command selected (pass --command <name> or set `command:` per entry)"
    );
}

#[test]
fn packages_filter_the_entries() {
    assert!(is_wanted(&list(&[]), &s("a")));
    assert!(is_wanted(&list(&["a", "b"]), &s("b")));
    assert!(!is_wanted(&list(&["a", "b"]), &s("c")));
}

#[test]
fn features_without_groups_give_one_set() {
    assert_eq!(feature_combos(&vec![]), vec![list(&[])]);
    assert_eq!(
        feature_combos(&vec![FeatureSpec::One(s("a")), FeatureSpec::One(s("b"))]),
        vec![list(&["a", "b"])]
    );
}

#[test]
fn groups_multiply_the_sets() {
    let specs = vec![
        FeatureSpec::One(s("base")),
        FeatureSpec::OneOf(list(&["x", "y"])),
        FeatureSpec::One(s("tail")),
        FeatureSpec::OneOf(list(&["1", "2", "3"])),
    ];
    assert_eq!(
        feature_combos(&specs),
        vec![
            list(&["base", "x", "tail", "1"]),
            list(&["base", "y", "tail", "1"]),
            list(&["base", "x", "tail", "2"]),
            list(&["base", "y", "tail", "2"]),
            list(&["base", "x", "tail", "3"]),
            list(&["base", "y", "tail", "3"]),
        ]
    );
}

#[test]
fn an_empty_group_leaves_no_set() {
    let specs = vec![FeatureSpec::One(s("a")), FeatureSpec::OneOf(list(&[]))];
    assert_eq!(feature_combos(&specs), Vec::<Vec<String>>::new());
    let specs = vec![FeatureSpec::OneOf(list(&[])), FeatureSpec::One(s("a"))];
    assert_eq!(feature_combos(&specs), Vec::<Vec<String>>::new());
}

#[test]
fn nested_targets_flatten_in_order() {
    let nested = TargetElem::Many(vec![
        TargetElem::One(s("a")),
        TargetElem::Many(vec![
            TargetElem::One(s("b")),
            TargetElem::Many(vec![]),
            TargetElem::Many(vec![TargetElem::One(s("c"))]),
        ]),
        TargetElem::One(s("d")),
    ]);
    let mut out = list(&["first"]);
    flatten_targets(&nested, &mut out);
    assert_eq!(out, list(&["first", "a", "b", "c", "d"]));
    assert_eq!(entry_targets(&Targets::One(s("t"))), list(&["t"]));
    assert_eq!(entry_targets(&Targets::Many(vec![nested])), list(&["a", "b", "c", "d"]));
    assert_eq!(entry_targets(&Targets::Many(vec![])), list(&[]));
}

#[test]
fn feature_list_is_sorted_and_unique() {
    assert_eq!(feature_list(list(&[])), "");
    assert_eq!(feature_list(list(&["std"])), "std");
    assert_eq!(feature_list(list(&["vfs", "alloc", "vfs", "memory", "alloc"])), "alloc,memory,vfs");
}

#[test]
fn features_flag_quotes_the_list() {
    assert_eq!(features_flag(""), "");
    assert_eq!(features_flag("a,b"), "--features \"a,b\"");
}

#[test]
fn render_fills_every_placeholder() {
    let cmd = render_template(
        "cd {workspace} && cargo build -p {package} --target {target} {features_flag} # {features} {package}",
        "/ws",
        "zeroos",
        "riscv64gc-unknown-linux-musl",
        "a,b",
        "--features \"a,b\"",
    );
    assert_eq!(
        cmd,
        "cd /ws && cargo build -p zeroos --target riscv64gc-unknown-linux-musl --features \"a,b\" # a,b zeroos"
    );
    assert_eq!(render_template("plain", "w", "p", "t", "f", "ff"), "plain");
    assert_eq!(render_template("{other}", "w", "p", "t", "f", "ff"), "{other}");
}

#[test]
fn render_fills_placeholders_one_after_the_other() {
    // A value that holds a later placeholder is filled in by the later step.
    assert_eq!(
        render_template("{package}", "w", "{target}", "t", "f", "ff"),
        "t"
    );
}

#[test]
fn progress_line_counts_from_one() {
    assert_eq!(progress_line(0, 3, "pre:1"), "[1/3] pre:1");
    assert_eq!(progress_line(11, 120, "x"), "[12/120] x");
}

#[test]
fn host_is_read_from_the_version_report() {
    let report = "rustc 1.80.0 (abc 2024-01-01)\nbinary: rustc\nhost: x86_64-unknown-linux-gnu\nrelease: 1.80.0\n";
    assert_eq!(host_target(report), Some(s("x86_64-unknown-linux-gnu")));
    assert_eq!(host_target("host:a\nhost: b\n"), Some(s("a")));
    assert_eq!(host_target("host:   spaced  \r\n"), Some(s("spaced")));
    assert_eq!(host_target(" host: indented\n"), None);
    assert_eq!(host_target("binary: rustc\n"), None);
    assert_eq!(host_target(""), None);
}

fn sample_config() -> MatrixConfig {
    MatrixConfig {
        pre: list(&["rustup target add riscv64gc-unknown-linux-musl", "echo ready"]),
        commands: pairs(&[
            ("build", "cargo build -p {package} --target {target} {features_flag}"),
            ("check", "cargo check -p {package} --target {target} {features_flag}"),
        ]),
        entries: vec![
            MatrixEntry {
                commands: pairs(&[]),
                command: None,
                package: s("zeroos"),
                target: Targets::Many(vec![
                    TargetElem::One(s("riscv64gc-unknown-linux-musl")),
                    TargetElem::One(s("host")),
                ]),
                features: vec![
                    FeatureSpec::One(s("vfs")),
                    FeatureSpec::OneOf(list(&["bump", "buddy"])),
                ],
            },
            MatrixEntry {
                commands: pairs(&[("build", "cargo spike build -p {package} in {workspace}")]),
                command: Some(s("build")),
                package: s("spike-platform"),
                target: Targets::One(s("riscv64imac-unknown-none-elf")),
                features: vec![],
            },
        ],
    }
}

#[test]
fn plan_lists_pre_steps_then_entries() {
    let steps = plan_steps(&args(Some("check"), &[]), &sample_config(), "/ws", "x86_64-host").unwrap();
    let expected = pairs(&[
        ("pre:1", "rustup target add riscv64gc-unknown-linux-musl"),
        ("pre:2", "echo ready"),
        (
            "zeroos [riscv64gc-unknown-linux-musl] (check) #1/2",
            "cargo check -p zeroos --target riscv64gc-unknown-linux-musl --features \"bump,vfs\"",
        ),
        (
            "zeroos [riscv64gc-unknown-linux-musl] (check) #2/2",
            "cargo check -p zeroos --target riscv64gc-unknown-linux-musl --features \"buddy,vfs\"",
        ),
        (
            "zeroos [x86_64-host] (check) #1/2",
            "cargo check -p zeroos --target x86_64-host --features \"bump,vfs\"",
        ),
        (
            "zeroos [x86_64-host] (check) #2/2",
            "cargo check -p zeroos --target x86_64-host --features \"buddy,vfs\"",
        ),
        (
            "spike-platform [riscv64imac-unknown-none-elf] (build)",
            "cargo spike build -p spike-platform in /ws",
        ),
    ]);
    assert_eq!(names_and_commands(&steps), expected);
}

#[test]
fn plan_keeps_only_the_wanted_packages() {
    let steps =
        plan_steps(&args(None, &["spike-platform"]), &sample_config(), "/ws", "h").unwrap();
    let names: Vec<String> = steps.iter().map(|s| s.name.clone()).collect();
    assert_eq!(
        names,
        list(&["pre:1", "pre:2", "spike-platform [riscv64imac-unknown-none-elf] (build)"])
    );
}

#[test]
fn plan_fails_without_a_command() {
    assert_eq!(
        plan_steps(&args(None, &[]), &sample_config(), "/ws", "h").err(),
        Some(MatrixError::NoCommand)
    );
    assert_eq!(
        plan_steps(&args(None, &["zeroos"]), &sample_config(), "/ws", "h").err(),
        Some(MatrixError::NoCommand)
    );
}

#[test]
fn plan_takes_an_inline_template() {
    let cfg = MatrixConfig {
        pre: vec![],
        commands: vec![],
        entries: vec![MatrixEntry {
            commands: vec![],
            command: None,
            package: s("p"),
            target: Targets::One(s("host")),
            features: vec![FeatureSpec::One(s("b")), FeatureSpec::One(s("a")), FeatureSpec::One(s("b"))],
        }],
    };
    let steps = plan_steps(&args(Some("echo {package} {target} {features}"), &[]), &cfg, "/ws", "h").unwrap();
    assert_eq!(
        names_and_commands(&steps),
        pairs(&[("p [h] (echo {package} {target} {features})", "echo p h a,b")])
    );
}

#[test]
fn plan_of_an_empty_matrix_is_empty() {
    let cfg = MatrixConfig { pre: vec![], commands: vec![], entries: vec![] };
    assert!(plan_steps(&args(None, &[]), &cfg, "/ws", "h").unwrap().is_empty());
}

#[test]
fn the_first_host_line_is_found_among_given_lines() {
    assert_eq!(
        find_host_line(&vec!["binary: rustc", "host: x86_64-unknown-linux-gnu", "host: other"]),
        Some(" x86_64-unknown-linux-gnu")
    );
    assert_eq!(find_host_line(&vec!["host:"]), Some(""));
    assert_eq!(find_host_line(&vec!["host:\ttabbed  "]), Some("\ttabbed  "));
    assert_eq!(find_host_line(&vec!["Host: upper", " host: indented", "hos", "xhost:"]), None);
    assert_eq!(find_host_line(&vec![]), None);
    assert_eq!(find_host_line(&vec!["", "host:a"]), Some("a"));
}
