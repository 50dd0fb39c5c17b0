use hyperip::document::{empty_document, update_document};
use hyperip::errors::{Param, RunError};
use hyperip::query::{build_query_script, expand_path, extract_ip, trim_ws};
use hyperip::resolve::{resolve, CliArgs, Config, Plan};
use hyperip::settings::{parse_settings, settings_text};

fn args(out: Option<&str>, field: Option<&str>, vm: Option<&str>, set_default: bool) -> CliArgs {
    CliArgs {
        out: out.map(|s| s.to_string()),
        field: field.map(|s| s.to_string()),
        vm: vm.map(|s| s.to_string()),
        set_default,
    }
}

fn cfg(out: &str, field: &str, vm: &str) -> Config {
    Config { out: out.to_string(), field: field.to_string(), vm: vm.to_string() }
}

#[test]
fn set_default_keeps_the_triple() {
    let r = resolve(args(Some("vm.json"), Some("ip"), Some("MyVM"), true), None);
    match r {
        Ok(Plan::SaveDefaults(c)) => {
            assert_eq!(c.out, "vm.json");
            assert_eq!(c.field, "ip");
            assert_eq!(c.vm, "MyVM");
        }
        _ => panic!("expected SaveDefaults"),
    }
}

#[test]
fn set_default_ignores_stored_defaults() {
    let r = resolve(
        args(Some("a"), Some("b"), Some("c"), true),
        Some(cfg("x", "y", "z")),
    );
    match r {
        Ok(Plan::SaveDefaults(c)) => {
            assert_eq!(c.out, "a");
            assert_eq!(c.field, "b");
            assert_eq!(c.vm, "c");
        }
        _ => panic!("expected SaveDefaults"),
    }
}

#[test]
fn set_default_requires_out() {
    let r = resolve(args(None, Some("ip"), Some("MyVM"), true), Some(cfg("x", "y", "z")));
    assert_eq!(
        r.unwrap_err(),
        RunError::MissingParameter { param: Param::Out, for_default: true }
    );
}

#[test]
fn set_default_requires_field() {
    let r = resolve(args(Some("vm.json"), None, Some("MyVM"), true), None);
    assert_eq!(
        r.unwrap_err(),
        RunError::MissingParameter { param: Param::Field, for_default: true }
    );
}

#[test]
fn set_default_requires_vm() {
    let r = resolve(args(Some("vm.json"), Some("ip"), None, true), None);
    assert_eq!(
        r.unwrap_err(),
        RunError::MissingParameter { param: Param::Vm, for_default: true }
    );
}

#[test]
fn stored_defaults_are_taken_whole() {
    let r = resolve(args(None, None, None, false), Some(cfg("vm.json", "ip", "MyVM")));
    match r {
        Ok(Plan::Run(c)) => {
            assert_eq!(c.out, "vm.json");
            assert_eq!(c.field, "ip");
            assert_eq!(c.vm, "MyVM");
        }
        _ => panic!("expected Run"),
    }
}

#[test]
fn cli_out_beats_default() {
    let r = resolve(args(Some("other.json"), None, None, false), Some(cfg("vm.json", "ip", "MyVM")));
    match r {
        Ok(Plan::Run(c)) => {
            assert_eq!(c.out, "other.json");
            assert_eq!(c.field, "ip");
            assert_eq!(c.vm, "MyVM");
        }
        _ => panic!("expected Run"),
    }
}

#[test]
fn cli_field_beats_default() {
    let r = resolve(args(None, Some("addr"), None, false), Some(cfg("vm.json", "ip", "MyVM")));
    match r {
        Ok(Plan::Run(c)) => {
            assert_eq!(c.out, "vm.json");
            assert_eq!(c.field, "addr");
            assert_eq!(c.vm, "MyVM");
        }
        _ => panic!("expected Run"),
    }
}

#[test]
fn cli_vm_beats_default() {
    let r = resolve(args(None, None, Some("Other"), false), Some(cfg("vm.json", "ip", "MyVM")));
    match r {
        Ok(Plan::Run(c)) => {
            assert_eq!(c.out, "vm.json");
            assert_eq!(c.field, "ip");
            assert_eq!(c.vm, "Other");
        }
        _ => panic!("expected Run"),
    }
}

#[test]
fn missing_out_without_defaults() {
    let r = resolve(args(None, Some("ip"), Some("MyVM"), false), None);
    assert_eq!(
        r.unwrap_err(),
        RunError::MissingParameter { param: Param::Out, for_default: false }
    );
}

#[test]
fn missing_vm_with_partial_cli() {
    let r = resolve(args(Some("vm.json"), Some("ip"), None, false), None);
    assert_eq!(
        r.unwrap_err(),
        RunError::MissingParameter { param: Param::Vm, for_default: false }
    );
}

#[test]
fn error_messages_match() {
    assert_eq!(
        RunError::MissingParameter { param: Param::Out, for_default: true }.message(),
        "--out is required when using --set-default"
    );
    assert_eq!(
        RunError::MissingParameter { param: Param::Field, for_default: true }.message(),
        "--field is required when using --set-default"
    );
    assert_eq!(
        RunError::MissingParameter { param: Param::Vm, for_default: true }.message(),
        "--vm is required when using --set-default"
    );
    assert_eq!(
        RunError::MissingParameter { param: Param::Out, for_default: false }.message(),
        "Output file must be specified or default set"
    );
    assert_eq!(
        RunError::MissingParameter { param: Param::Field, for_default: false }.message(),
        "Field must be specified or default set"
    );
    assert_eq!(
        RunError::MissingParameter { param: Param::Vm, for_default: false }.message(),
        "VM name must be specified or default set"
    );
    assert_eq!(RunError::InvalidSettings.message(), "Default config is invalid JSON");
    assert_eq!(
        RunError::PathExpansionFailure.message(),
        "Failed to expand a variable in the output path"
    );
    assert_eq!(
        RunError::InvalidTargetJson.message(),
        "Target JSON must be an object at the root"
    );
    assert_eq!(RunError::IoFailure.message(), "File operation failed");
    assert_eq!(RunError::ExternalCommandFailure.message(), "PowerShell query failed");
}

#[test]
fn update_sets_the_field_in_an_empty_object() {
    let out = update_document("{}", "ip", "10.0.0.5").unwrap();
    assert_eq!(out, "{\n  \"ip\": \"10.0.0.5\"\n}");
}

#[test]
fn update_preserves_sibling_entries() {
    let raw = "{\"name\": \"box\", \"count\": 3, \"nested\": {\"a\": [1, 2]}}";
    let out = update_document(raw, "ip", "192.168.1.9").unwrap();
    let got: serde_json::Value = serde_json::from_str(&out).unwrap();
    let want: serde_json::Value = serde_json::from_str(
        "{\"name\": \"box\", \"count\": 3, \"nested\": {\"a\": [1, 2]}, \"ip\": \"192.168.1.9\"}",
    )
    .unwrap();
    assert_eq!(got, want);
}

#[test]
fn update_overwrites_an_existing_field() {
    let raw = "{\"ip\": \"10.0.0.1\", \"name\": \"box\"}";
    let out = update_document(raw, "ip", "10.0.0.2").unwrap();
    let got: serde_json::Value = serde_json::from_str(&out).unwrap();
    let want: serde_json::Value =
        serde_json::from_str("{\"ip\": \"10.0.0.2\", \"name\": \"box\"}").unwrap();
    assert_eq!(got, want);
}

#[test]
fn update_twice_is_idempotent() {
    let raw = "{\"name\": \"box\"}";
    let once = update_document(raw, "ip", "10.0.0.5").unwrap();
    let twice = update_document(&once, "ip", "10.0.0.5").unwrap();
    assert_eq!(once, twice);
}

#[test]
fn update_rejects_an_array_root() {
    let r = update_document("[1, 2, 3]", "ip", "10.0.0.5");
    assert_eq!(r.unwrap_err(), RunError::InvalidTargetJson);
}

#[test]
fn update_rejects_a_scalar_root() {
    let r = update_document("\"just a string\"", "ip", "10.0.0.5");
    assert_eq!(r.unwrap_err(), RunError::InvalidTargetJson);
    let r = update_document("42", "ip", "10.0.0.5");
    assert_eq!(r.unwrap_err(), RunError::InvalidTargetJson);
}

#[test]
fn update_rejects_invalid_json() {
    let r = update_document("{\"name\": ", "ip", "10.0.0.5");
    assert_eq!(r.unwrap_err(), RunError::InvalidTargetJson);
}

#[test]
fn update_writes_the_empty_ip_when_asked() {
    let out = update_document("{}", "ip", "").unwrap();
    assert_eq!(out, "{\n  \"ip\": \"\"\n}");
}

#[test]
fn empty_document_is_the_empty_object() {
    assert_eq!(empty_document(), "{}");
}

#[test]
fn settings_round_trip() {
    let c = cfg("vm.json", "ip", "MyVM");
    let text = settings_text(&c);
    let back = parse_settings(&text).unwrap();
    assert_eq!(back.out, "vm.json");
    assert_eq!(back.field, "ip");
    assert_eq!(back.vm, "MyVM");
}

#[test]
fn settings_text_is_the_exact_triple() {
    let text = settings_text(&cfg("vm.json", "ip", "MyVM"));
    let got: serde_json::Value = serde_json::from_str(&text).unwrap();
    let want: serde_json::Value =
        serde_json::from_str("{\"out\": \"vm.json\", \"field\": \"ip\", \"vm\": \"MyVM\"}")
            .unwrap();
    assert_eq!(got, want);
}

#[test]
fn settings_overwrite_is_idempotent() {
    let first = settings_text(&cfg("a.json", "ip", "A"));
    let second = settings_text(&cfg("a.json", "ip", "A"));
    assert_eq!(first, second);
}

#[test]
fn parse_settings_accepts_extra_keys() {
    let raw = "{\"out\": \"o\", \"field\": \"f\", \"vm\": \"v\", \"extra\": 1}";
    let c = parse_settings(raw).unwrap();
    assert_eq!(c.out, "o");
    assert_eq!(c.field, "f");
    assert_eq!(c.vm, "v");
}

#[test]
fn parse_settings_rejects_invalid_json() {
    assert_eq!(parse_settings("not json").unwrap_err(), RunError::InvalidSettings);
}

#[test]
fn parse_settings_rejects_a_non_object_root() {
    assert_eq!(parse_settings("[\"out\"]").unwrap_err(), RunError::InvalidSettings);
}

#[test]
fn parse_settings_rejects_a_missing_key() {
    let raw = "{\"out\": \"o\", \"field\": \"f\"}";
    assert_eq!(parse_settings(raw).unwrap_err(), RunError::InvalidSettings);
}

#[test]
fn parse_settings_rejects_a_non_string_value() {
    let raw = "{\"out\": \"o\", \"field\": 7, \"vm\": \"v\"}";
    assert_eq!(parse_settings(raw).unwrap_err(), RunError::InvalidSettings);
}

#[test]
fn query_script_interpolates_the_vm_name() {
    assert_eq!(
        build_query_script("MyVM"),
        "(Get-VM -Name 'MyVM').NetworkAdapters.IPAddresses[0]"
    );
    assert_eq!(
        build_query_script(""),
        "(Get-VM -Name '').NetworkAdapters.IPAddresses[0]"
    );
}

#[test]
fn extract_ip_trims_the_output() {
    assert_eq!(extract_ip(Some("  10.0.0.5\r\n".to_string())), "10.0.0.5");
    assert_eq!(extract_ip(Some("10.0.0.5".to_string())), "10.0.0.5");
    assert_eq!(extract_ip(Some(" \t \n".to_string())), "");
    assert_eq!(extract_ip(None), "");
}

#[test]
fn extract_ip_trims_unicode_whitespace() {
    assert_eq!(
        extract_ip(Some("\u{00A0}\u{2028}10.0.0.5\u{000C}\u{0085}".to_string())),
        "10.0.0.5"
    );
    assert_eq!(extract_ip(Some("\u{3000}\u{2009}\u{000B}".to_string())), "");
}

#[test]
fn trim_keeps_inner_whitespace() {
    assert_eq!(trim_ws(" a b \n"), "a b");
    assert_eq!(trim_ws("\u{1680}a\u{00A0}b\u{205F}"), "a\u{00A0}b");
    assert_eq!(trim_ws(""), "");
}

#[test]
fn expand_path_keeps_plain_paths() {
    assert_eq!(expand_path("vm.json").unwrap(), "vm.json");
    assert_eq!(expand_path("some/dir/vm.json").unwrap(), "some/dir/vm.json");
    assert_eq!(expand_path("/abs/vm.json").unwrap(), "/abs/vm.json");
}

#[test]
fn expand_path_expands_a_variable_with_a_fallback() {
    // The `${VAR:-default}` form is deterministic when the variable is unset.
    assert_eq!(
        expand_path("${HYPERIP_TEST_UNSET_VARIABLE:-/srv/vms}/vm.json").unwrap(),
        "/srv/vms/vm.json"
    );
}

#[test]
fn expand_path_rejects_an_unset_variable() {
    assert_eq!(
        expand_path("$HYPERIP_TEST_UNSET_VARIABLE/vm.json").unwrap_err(),
        RunError::PathExpansionFailure
    );
    assert_eq!(
        expand_path("out/${HYPERIP_TEST_UNSET_VARIABLE}.json").unwrap_err(),
        RunError::PathExpansionFailure
    );
}
