use cargo_selector::Action;
use cargo_selector::Target;
use cargo_selector::TargetKind;
use cargo_selector::cargo::build_target;
use cargo_selector::cargo::cargo_run_args;
use cargo_selector::cargo::cmd_str;
use cargo_selector::cargo::split_ws;
use cargo_selector::text::fmt_usize;
use cargo_selector::util::digits;

fn strings(v: &[&str]) -> Vec<String> {
    v.iter().map(|s| s.to_string()).collect()
}

#[test]
fn test_cmd_str_simple() {
    let args = strings(&["run", "--bin", "xyz"]);
    assert_eq!(cmd_str("cargo", &args), "cargo run --bin xyz");
}

#[test]
fn test_cmd_str_quotes_whitespace() {
    let args = strings(&["build", "--example", "xyz", "--features", "feature1 feature2", "--release"]);
    assert_eq!(
        cmd_str("cargo", &args),
        "cargo build --example xyz --features \"feature1 feature2\" --release",
    );
}

#[test]
fn test_cmd_str_quotes_additional_args() {
    let args = strings(&["run", "--bin", "xyz", "--", "-p", "Hello World", "-n", "1"]);
    assert_eq!(
        cmd_str("cargo", &args),
        "cargo run --bin xyz -- -p \"Hello World\" -n 1",
    );
}

#[test]
fn test_run_args_plain_bin() {
    let t = Target {
        name: "xyz".to_string(),
        kind: TargetKind::Bin,
        path: "src/main.rs".to_string(),
        required_features: Vec::new(),
    };
    let args = cargo_run_args(&t, Action::Run, None);
    assert_eq!(args, strings(&["run", "--bin", "xyz"]));
}

#[test]
fn test_run_args_example_with_features() {
    let t = Target {
        name: "demo".to_string(),
        kind: TargetKind::Example,
        path: "examples/demo.rs".to_string(),
        required_features: strings(&["f1", "f2"]),
    };
    let args = cargo_run_args(&t, Action::Build, None);
    assert_eq!(args, strings(&["build", "--example", "demo", "--features", "f1 f2"]));
}

#[test]
fn test_run_args_additional_split_on_whitespace() {
    let t = Target {
        name: "xyz".to_string(),
        kind: TargetKind::Bin,
        path: "src/main.rs".to_string(),
        required_features: Vec::new(),
    };
    let args = cargo_run_args(&t, Action::Run, Some("--release  -v".to_string()));
    assert_eq!(args, strings(&["run", "--bin", "xyz", "--release", "-v"]));
}

#[test]
fn test_split_ws_drops_empty_runs() {
    assert_eq!(split_ws("  a  bb\tccc "), strings(&["a", "bb", "ccc"]));
    assert_eq!(split_ws(""), Vec::<String>::new());
    assert_eq!(split_ws(" \t "), Vec::<String>::new());
    assert_eq!(split_ws("one"), strings(&["one"]));
}

#[test]
fn test_build_target_bin_with_path() {
    let t = build_target(
        "xyz".to_string(),
        true,
        Some("src/main.rs".to_string()),
        Vec::new(),
    );
    assert_eq!(t.name, "xyz");
    assert!(matches!(t.kind, TargetKind::Bin));
    assert_eq!(t.path, "src/main.rs");
    assert!(t.required_features.is_empty());
}

#[test]
fn test_build_target_example_without_path() {
    let t = build_target("demo".to_string(), false, None, strings(&["f"]));
    assert!(matches!(t.kind, TargetKind::Example));
    assert_eq!(t.path, "-");
    assert_eq!(t.required_features, strings(&["f"]));
}

#[test]
fn test_digits() {
    assert_eq!(digits(0), 1);
    assert_eq!(digits(9), 1);
    assert_eq!(digits(10), 2);
    assert_eq!(digits(99), 2);
    assert_eq!(digits(100), 3);
    assert_eq!(digits(12345), 5);
}

#[test]
fn test_fmt_usize() {
    assert_eq!(fmt_usize(0), "0");
    assert_eq!(fmt_usize(7), "7");
    assert_eq!(fmt_usize(120), "120");
    assert_eq!(fmt_usize(98765), "98765");
}
