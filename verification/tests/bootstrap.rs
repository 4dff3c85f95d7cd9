use engine_bootstrap::bridge::{bridge_args, parse_args_from_c, BridgedArgs};
use engine_bootstrap::cache::ArgumentCache;
use engine_bootstrap::dispatch::{dispatch_mode, CapabilityFlags, ModeDecision};
use engine_bootstrap::logging::{logger_plan, BuildTarget, LoggerBackend, Verbosity};
use engine_bootstrap::parser::{parse_args, Args};

fn tokens(words: &[&str]) -> Vec<String> {
    words.iter().map(|w| w.to_string()).collect()
}

#[test]
fn test() {
    // An absent host array is disregarded (the result is None), whatever the
    // declared count says.
    assert_eq!(parse_args_from_c(999, None), None);

    // A valid argument passed in (the result is vec!["hello"]).
    let argv = vec![b"hello".to_vec()];
    assert_eq!(
        parse_args_from_c(argv.len(), Some(argv)),
        Some(vec!["hello".to_owned()])
    );
}

#[test]
fn bridge_preserves_order_and_content() {
    let argv = vec![b"prog".to_vec(), b"--server".to_vec(), b"extra".to_vec()];
    let toks = parse_args_from_c(3, Some(argv)).unwrap();
    assert_eq!(toks, vec!["prog", "--server", "extra"]);
}

#[test]
fn bridge_absent_array() {
    assert_eq!(bridge_args(7, None), BridgedArgs::Absent);
}

#[test]
fn bridge_reports_first_undecodable_slot() {
    // 0xff is never valid in UTF-8 text.
    let argv = vec![b"ok".to_vec(), vec![0xff], vec![0xfe]];
    assert_eq!(bridge_args(3, Some(argv)), BridgedArgs::Invalid(1));
}

#[test]
fn bridge_checked_tokens() {
    let argv = vec![b"prog".to_vec(), b"-v".to_vec()];
    assert_eq!(
        bridge_args(2, Some(argv)),
        BridgedArgs::Tokens(tokens(&["prog", "-v"]))
    );
}

#[test]
fn parser_is_total_over_recognized_flags() {
    assert_eq!(
        parse_args(&tokens(&["prog"])),
        Args { server: false, version: false }
    );
    assert_eq!(
        parse_args(&tokens(&["prog", "-s"])),
        Args { server: true, version: false }
    );
    assert_eq!(
        parse_args(&tokens(&["prog", "--version"])),
        Args { server: false, version: true }
    );
    assert_eq!(
        parse_args(&tokens(&["prog", "-s", "--version"])),
        Args { server: true, version: true }
    );
}

#[test]
fn parser_long_and_short_forms_agree() {
    assert_eq!(
        parse_args(&tokens(&["prog", "--server"])),
        parse_args(&tokens(&["prog", "-s"]))
    );
    assert_eq!(
        parse_args(&tokens(&["prog", "-v"])),
        parse_args(&tokens(&["prog", "--version"]))
    );
}

#[test]
fn parser_ignores_unrecognized_tokens() {
    assert_eq!(
        parse_args(&tokens(&["prog", "--fullscreen", "-x", "-s"])),
        Args { server: true, version: false }
    );
}

#[test]
fn parser_never_reads_the_program_name_as_a_flag() {
    assert_eq!(
        parse_args(&tokens(&["-s"])),
        Args { server: false, version: false }
    );
}

#[test]
fn parser_on_empty_token_list() {
    assert_eq!(
        parse_args(&tokens(&[])),
        Args { server: false, version: false }
    );
}

#[test]
fn cache_reports_absence_before_first_store() {
    let cache = ArgumentCache::new();
    assert_eq!(cache.get_args(), None);
}

#[test]
fn cache_set_is_write_once() {
    let mut cache = ArgumentCache::new();
    cache.set_parsed_args(tokens(&["prog", "-s"]));
    // A second store with different values is silently ignored.
    cache.set_parsed_args(tokens(&["prog", "--version"]));
    assert_eq!(
        cache.get_args(),
        Some(Args { server: true, version: false })
    );
}

#[test]
fn dispatch_scenario_table() {
    let both = CapabilityFlags { client: true, server: true };
    let server_only = CapabilityFlags { client: false, server: true };
    let client_only = CapabilityFlags { client: true, server: false };
    let neither = CapabilityFlags { client: false, server: false };
    let flag_off = Args { server: false, version: false };
    let flag_on = Args { server: true, version: false };

    assert_eq!(dispatch_mode(both, flag_off), ModeDecision::ClientLoop);
    assert_eq!(dispatch_mode(both, flag_on), ModeDecision::ServerLoop);
    assert_eq!(dispatch_mode(server_only, flag_off), ModeDecision::ServerLoop);
    assert_eq!(dispatch_mode(client_only, flag_on), ModeDecision::ClientLoop);
    assert_eq!(dispatch_mode(neither, flag_off), ModeDecision::FatalNoMode);
    assert_eq!(dispatch_mode(neither, flag_on), ModeDecision::FatalNoMode);
}

#[test]
fn logger_selection_is_mutually_exclusive() {
    let mobile = logger_plan(BuildTarget::Mobile).backend;
    let web = logger_plan(BuildTarget::Web).backend;
    let native = logger_plan(BuildTarget::Native).backend;
    assert_eq!(mobile, LoggerBackend::TaggedMobile);
    assert_eq!(web, LoggerBackend::HostConsole);
    assert_eq!(native, LoggerBackend::EnvReadable);
    assert_ne!(mobile, web);
    assert_ne!(web, native);
    assert_ne!(mobile, native);
}

#[test]
fn logger_mobile_plan_is_tagged_and_filtered() {
    let plan = logger_plan(BuildTarget::Mobile);
    assert_eq!(plan.tag.as_deref(), Some("CatgirlEngine"));
    assert_eq!(plan.max_level, Verbosity::Trace);
    assert_eq!(plan.suppressed, vec!["android_activity", "winit"]);
    assert!(plan.install_failure_fatal);
}

#[test]
fn logger_web_failure_is_not_fatal() {
    let plan = logger_plan(BuildTarget::Web);
    assert_eq!(plan.tag, None);
    assert_eq!(plan.max_level, Verbosity::Debug);
    assert!(plan.suppressed.is_empty());
    assert!(!plan.install_failure_fatal);
}

#[test]
fn logger_native_plan_reads_the_environment() {
    let plan = logger_plan(BuildTarget::Native);
    assert_eq!(plan.backend, LoggerBackend::EnvReadable);
    assert_eq!(plan.tag, None);
    assert!(plan.suppressed.is_empty());
    assert!(plan.install_failure_fatal);
}
