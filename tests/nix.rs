use nilla_nixos::nix::{
    build_args, eval_args, eval_result, fetch_opts, project_query_opts, system_query_opts, exists_in_project_expr, expect_bool, expect_string, get_system_expr, main_program_expr,
    needs_system_query, shell_args, AnswerError, BuildOpts, EvalOpts, EvalResult, GetMainProgramOpts, JsonValue,
    ShellOpts,
};
use nilla_nixos::source::FixedOutputStoreEntry;
use nilla_nixos::store::StoreNameError;

fn entry() -> FixedOutputStoreEntry {
    FixedOutputStoreEntry { path: "/nix/store/abc-src".to_string(), hash: "0h".to_string() }
}

const PRELUDE: &str = "let source = builtins.path { path = \"/nix/store/abc-src\"; sha256 = \"0h\"; name = \"src\"; }; project = import \"${source}/nilla.nix\"; ";

#[test]
fn eval_arguments_follow_options() {
    let all = eval_args("1 + 1", &EvalOpts { json: true, impure: true });
    assert_eq!(all, vec!["eval", "--show-trace", "--json", "--impure", "--expr", "1 + 1"]);
    let none = eval_args("x", &EvalOpts { json: false, impure: false });
    assert_eq!(none, vec!["eval", "--show-trace", "--expr", "x"]);
}

#[test]
fn default_options_are_raw_and_impure() {
    let o = EvalOpts::default();
    assert!(!o.json);
    assert!(o.impure);
}

#[test]
fn dotted_existence_defaults_missing_parent() {
    let e = exists_in_project_expr("nilla.nix", &entry(), "systems.nixos.\"host\"").unwrap();
    assert_eq!(e, format!("{}in (project.systems.nixos or {{}}) ? \"host\"", PRELUDE));
}

#[test]
fn plain_existence_test() {
    let e = exists_in_project_expr("nilla.nix", &entry(), "packages").unwrap();
    assert_eq!(e, format!("{}in project ? packages", PRELUDE));
}

#[test]
fn existence_needs_a_store_name() {
    let bad = FixedOutputStoreEntry { path: "/tmp/x".to_string(), hash: "h".to_string() };
    assert_eq!(exists_in_project_expr("nilla.nix", &bad, "a").unwrap_err(), StoreNameError::NotInStore);
}

#[test]
fn main_program_expression() {
    let e = main_program_expr("nilla.nix", &entry(), "hello", "x86_64-linux").unwrap();
    assert_eq!(
        e,
        format!(
            "{}system = \"x86_64-linux\"; name = \"hello\"; in project.packages.${{name}}.result.${{system}}.meta.mainProgram or name",
            PRELUDE
        )
    );
}

#[test]
fn answers_are_checked_for_type() {
    assert_eq!(expect_string(EvalResult::Json(JsonValue::Str("x86_64-linux".to_string()))), Ok("x86_64-linux".to_string()));
    assert_eq!(expect_string(EvalResult::Json(JsonValue::Null)), Err(AnswerError::WrongType));
    assert_eq!(expect_string(EvalResult::Raw("x".to_string())), Err(AnswerError::RawAnswer));
    assert_eq!(expect_bool(EvalResult::Json(JsonValue::Bool(false))), Ok(false));
    assert_eq!(expect_bool(EvalResult::Json(JsonValue::Number("1".to_string()))), Err(AnswerError::WrongType));
    assert_eq!(expect_bool(EvalResult::Raw("true".to_string())), Err(AnswerError::RawAnswer));
    assert_eq!(get_system_expr(), "builtins.currentSystem");
}

#[test]
fn build_arguments_follow_options() {
    let a = build_args("/p/nilla.nix", "hello", &BuildOpts { link: false, report: true, system: Some("aarch64-linux") });
    assert_eq!(a, vec!["build", "--no-link", "--print-out-paths", "-f", "/p/nilla.nix", "--system", "aarch64-linux", "hello"]);
    let b = build_args("f", "n", &BuildOpts { link: true, report: false, system: None });
    assert_eq!(b, vec!["build", "-f", "f", "n"]);
}

#[test]
fn shell_arguments_follow_options() {
    assert_eq!(shell_args("f", "dev", &ShellOpts { system: "" }), vec!["f", "-A", "dev"]);
    assert_eq!(shell_args("f", "dev", &ShellOpts { system: "x86_64-linux" }), vec!["f", "--system", "x86_64-linux", "-A", "dev"]);
    assert!(needs_system_query(&GetMainProgramOpts { system: "" }));
    assert!(!needs_system_query(&GetMainProgramOpts { system: "x86_64-linux" }));
}

#[test]
fn evaluator_output_is_read_as_json() {
    match eval_result("  {\"a\":[1,true,null],\"b\":\"x\"}\n", true) {
        Some(EvalResult::Json(JsonValue::Object(fields))) => {
            assert_eq!(fields.len(), 2);
            assert_eq!(fields[0].0, "a");
            match &fields[0].1 {
                JsonValue::Array(items) => {
                    assert!(matches!(&items[0], JsonValue::Number(n) if n == "1"));
                    assert!(matches!(&items[1], JsonValue::Bool(true)));
                    assert!(matches!(&items[2], JsonValue::Null));
                }
                other => panic!("{:?}", other),
            }
            assert!(matches!(&fields[1].1, JsonValue::Str(s) if s == "x"));
        }
        other => panic!("{:?}", other),
    }
    assert!(matches!(eval_result("\"x86_64-linux\"\n", true), Some(EvalResult::Json(JsonValue::Str(s))) if s == "x86_64-linux"));
    assert!(eval_result("not json", true).is_none());
    assert!(matches!(eval_result(" /nix/store/a-b \n", false), Some(EvalResult::Raw(s)) if s == "/nix/store/a-b"));
}

#[test]
fn evaluation_options_per_kind() {
    assert_eq!(fetch_opts(), EvalOpts { json: true, impure: true });
    assert_eq!(project_query_opts(), EvalOpts { json: true, impure: false });
    assert_eq!(system_query_opts(), EvalOpts { json: true, impure: true });
}
