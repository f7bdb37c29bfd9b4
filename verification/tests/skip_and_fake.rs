use build_deps::descriptor::{parse_arguments, InvocationError};
use build_deps::executor::{
    classify_origin, plan_task, skip_notice, ExecutionPlan, Origin, PackageIdentity,
};
use build_deps::fingerprint::fingerprint_path;

fn strings(tokens: &[&str]) -> Vec<String> {
    tokens.iter().map(|t| t.to_string()).collect()
}

#[test]
fn scenario_local_package_is_skipped_and_faked() {
    let args = strings(&[
        "--crate-name",
        "foo",
        "--crate-type",
        "lib",
        "extra-filename=-abc123",
        "dependency=/proj/target/debug/deps",
    ]);
    let identity = PackageIdentity { name: "foo".to_string(), origin: Origin::LocalPath };
    match plan_task(&identity, &args) {
        Ok(ExecutionPlan::SkipAndFake { marker_path, notice }) => {
            assert_eq!(
                marker_path,
                "/proj/target/debug/deps/../.fingerprint/foo-abc123/dep-lib-foo-abc123"
            );
            assert_eq!(notice, "Skipping foo");
        }
        other => panic!("expected a skip-and-fake plan, got {:?}", other),
    }
}

#[test]
fn scenario_external_package_runs_real_command() {
    let args = strings(&[
        "--crate-name",
        "foo",
        "--crate-type",
        "lib",
        "extra-filename=-abc123",
        "dependency=/proj/target/debug/deps",
    ]);
    let identity = PackageIdentity { name: "foo".to_string(), origin: Origin::External };
    match plan_task(&identity, &args) {
        Ok(ExecutionPlan::RunReal) => {}
        other => panic!("expected the real command to run, got {:?}", other),
    }
}

#[test]
fn scenario_missing_crate_type_is_fatal() {
    let args = strings(&[
        "--crate-name",
        "foo",
        "extra-filename=-abc123",
        "dependency=/proj/target/debug/deps",
    ]);
    let identity = PackageIdentity { name: "foo".to_string(), origin: Origin::LocalPath };
    assert_eq!(plan_task(&identity, &args).unwrap_err(), InvocationError::MissingCrateType);
}

#[test]
fn scenario_replanning_the_same_task_gives_the_same_plan() {
    let args = strings(&[
        "--crate-name",
        "foo",
        "--crate-type",
        "lib",
        "extra-filename=-abc123",
        "dependency=/proj/target/debug/deps",
    ]);
    let identity = PackageIdentity { name: "foo".to_string(), origin: Origin::LocalPath };
    let first = plan_task(&identity, &args);
    let second = plan_task(&identity, &args);
    match (first, second) {
        (
            Ok(ExecutionPlan::SkipAndFake { marker_path: path1, notice: notice1 }),
            Ok(ExecutionPlan::SkipAndFake { marker_path: path2, notice: notice2 }),
        ) => {
            assert_eq!(path1, path2);
            assert_eq!(notice1, notice2);
        }
        other => panic!("expected two identical skip-and-fake plans, got {:?}", other),
    }
}

#[test]
fn parser_extracts_name_and_type_amid_noise() {
    let args = strings(&[
        "--edition=2021",
        "--crate-name",
        "foo",
        "/src/lib.rs",
        "--crate-type",
        "lib",
        "-C",
        "opt-level=0",
    ]);
    let descriptor = parse_arguments(&args).unwrap();
    assert_eq!(descriptor.crate_name, "foo");
    assert_eq!(descriptor.crate_type, "lib");

    let reordered = strings(&["--crate-type", "lib", "noise", "--crate-name", "foo"]);
    let descriptor = parse_arguments(&reordered).unwrap();
    assert_eq!(descriptor.crate_name, "foo");
    assert_eq!(descriptor.crate_type, "lib");
}

#[test]
fn parser_takes_the_last_occurrence_of_a_flag() {
    let args = strings(&["--crate-name", "first", "--crate-name", "second"]);
    let descriptor = parse_arguments(&args).unwrap();
    assert_eq!(descriptor.crate_name, "second");
}

#[test]
fn parser_defaults_every_field_to_empty() {
    let args = strings(&["--edition=2021", "-C", "debuginfo=2"]);
    let descriptor = parse_arguments(&args).unwrap();
    assert_eq!(descriptor.crate_name, "");
    assert_eq!(descriptor.crate_type, "");
    assert_eq!(descriptor.extra_filename, "");
    assert_eq!(descriptor.dependency_dir, "");
}

#[test]
fn parser_splits_key_value_tokens_on_the_first_equals() {
    let args = strings(&["extra-filename=-a=b", "dependency=/deps=dir"]);
    let descriptor = parse_arguments(&args).unwrap();
    assert_eq!(descriptor.extra_filename, "-a=b");
    assert_eq!(descriptor.dependency_dir, "/deps=dir");
}

#[test]
fn build_script_crate_type_is_forced() {
    let args = strings(&["--crate-name", "build_script_build", "dependency=/deps"]);
    let descriptor = parse_arguments(&args).unwrap();
    assert_eq!(descriptor.crate_type, "build-script");

    let with_explicit_type =
        strings(&["--crate-name", "build_script_build", "--crate-type", "bin"]);
    let descriptor = parse_arguments(&with_explicit_type).unwrap();
    assert_eq!(descriptor.crate_type, "build-script");
}

#[test]
fn dangling_crate_name_flag_is_fatal() {
    let args = strings(&["--crate-name"]);
    assert_eq!(parse_arguments(&args).unwrap_err(), InvocationError::MissingValue);
}

#[test]
fn dangling_crate_type_flag_is_fatal() {
    let args = strings(&["--crate-name", "foo", "--crate-type"]);
    assert_eq!(parse_arguments(&args).unwrap_err(), InvocationError::MissingValue);
}

#[test]
fn key_value_token_without_equals_is_fatal() {
    let args = strings(&["extra-filename"]);
    assert_eq!(parse_arguments(&args).unwrap_err(), InvocationError::MissingSeparator);

    let args = strings(&["dependency-dir-without-separator"]);
    assert_eq!(parse_arguments(&args).unwrap_err(), InvocationError::MissingSeparator);
}

#[test]
fn missing_crate_name_is_fatal_for_a_local_package() {
    let args = strings(&["--crate-type", "lib", "dependency=/deps"]);
    let identity = PackageIdentity { name: "foo".to_string(), origin: Origin::LocalPath };
    assert_eq!(plan_task(&identity, &args).unwrap_err(), InvocationError::MissingCrateName);
}

#[test]
fn malformed_arguments_do_not_matter_for_an_external_package() {
    let args = strings(&["--crate-name"]);
    let identity = PackageIdentity { name: "foo".to_string(), origin: Origin::External };
    match plan_task(&identity, &args) {
        Ok(ExecutionPlan::RunReal) => {}
        other => panic!("expected the real command to run, got {:?}", other),
    }
}

#[test]
fn fingerprint_path_is_deterministic_and_exact() {
    let args = strings(&[
        "--crate-name",
        "serde",
        "--crate-type",
        "lib",
        "extra-filename=-77cb0d4664e24066",
        "dependency=/work/target/debug/deps",
    ]);
    let descriptor = parse_arguments(&args).unwrap();
    let first = fingerprint_path(&descriptor, "serde");
    let second = fingerprint_path(&descriptor, "serde");
    assert_eq!(
        first,
        "/work/target/debug/deps/../.fingerprint/serde-77cb0d4664e24066/dep-lib-serde-77cb0d4664e24066"
    );
    assert_eq!(first, second);
}

#[test]
fn empty_dependency_dir_yields_a_root_relative_path() {
    let args = strings(&["--crate-name", "foo", "--crate-type", "lib"]);
    let identity = PackageIdentity { name: "foo".to_string(), origin: Origin::LocalPath };
    match plan_task(&identity, &args) {
        Ok(ExecutionPlan::SkipAndFake { marker_path, .. }) => {
            assert_eq!(marker_path, "/../.fingerprint/foo/dep-lib-foo");
        }
        other => panic!("expected a skip-and-fake plan, got {:?}", other),
    }
}

#[test]
fn build_script_marker_path_uses_the_forced_type() {
    let args = strings(&[
        "--crate-name",
        "build_script_build",
        "extra-filename=-11aa",
        "dependency=/t/debug/deps",
    ]);
    let identity = PackageIdentity { name: "foo".to_string(), origin: Origin::LocalPath };
    match plan_task(&identity, &args) {
        Ok(ExecutionPlan::SkipAndFake { marker_path, .. }) => {
            assert_eq!(
                marker_path,
                "/t/debug/deps/../.fingerprint/foo-11aa/dep-build-script-build_script_build-11aa"
            );
        }
        other => panic!("expected a skip-and-fake plan, got {:?}", other),
    }
}

#[test]
fn skip_notice_names_the_package() {
    assert_eq!(skip_notice("my-package"), "Skipping my-package");
}

#[test]
fn origin_classification_follows_the_source_kind() {
    assert_eq!(classify_origin(true), Origin::LocalPath);
    assert_eq!(classify_origin(false), Origin::External);
}
