use process_runner::collector::ResultCollector;
use process_runner::discovery::{discover_modules, extract_module_names};
use process_runner::orchestrator::{apply_extraction, DriveState, ModuleDriver, DEFAULT_RETRY_BOUND};
use process_runner::partition::partition_plan;
use process_runner::protocol::{
    aggregate_batches, back_command, listing_command, probe_command, response_complete,
    select_command, show_options_command, ListingKind,
};
use process_runner::records::{ModuleRecord, Parameter};
use process_runner::text::{find_pat, split_on, trim_ws};
use process_runner::transport::sanitize_line;

#[test]
fn discovery_keeps_duplicates_in_order() {
    let text = [
        "   0  exploit/windows/smb/ms17_010_eternalblue  2017-03-14  average\n",
        "   some unrelated text\n",
        "   1  exploit/windows/smb/ms17_010_eternalblue  2017-03-14  average\n",
    ]
    .concat();
    let names = extract_module_names(&text);
    assert_eq!(
        names,
        vec![
            "exploit/windows/smb/ms17_010_eternalblue".to_string(),
            "exploit/windows/smb/ms17_010_eternalblue".to_string(),
        ]
    );
}

#[test]
fn discovery_needs_the_prefix_and_a_path() {
    let names = extract_module_names("show exploits lists every exploit/ prefix alone");
    assert!(names.is_empty());
    let names = extract_module_names("use exploit/multi/handler now");
    assert_eq!(names, vec!["exploit/multi/handler".to_string()]);
}

#[test]
fn discovered_records_carry_only_the_name() {
    let records = discover_modules("exploit/a_b/c and exploit/d2/e");
    assert_eq!(records.len(), 2);
    assert_eq!(records[0].name, "exploit/a_b/c");
    assert_eq!(records[1].name, "exploit/d2/e");
    for r in &records {
        assert_eq!(r.payload, "");
        assert!(r.options.is_none());
        assert!(r.payload_options.is_none());
        assert!(r.target.is_none());
    }
}

#[test]
fn partition_covers_every_index_exactly_once() {
    for (n, p, t) in [(10usize, 2usize, 2usize), (100, 3, 2), (7, 2, 4), (0, 2, 2), (5, 1, 1)] {
        let plan = partition_plan(n, p, t);
        assert_eq!(plan.len(), p * t);
        for i in 0..n {
            let owners = plan.iter().filter(|(s, e)| *s <= i && i < *e).count();
            assert_eq!(owners, 1, "index {} of plan ({}, {}, {})", i, n, p, t);
        }
        assert_eq!(plan[0].0, 0);
        assert_eq!(plan[p * t - 1].1, n);
    }
}

#[test]
fn last_sub_shard_absorbs_the_remainder() {
    let n = 103usize;
    let p = 4usize;
    let t = 2usize;
    let plan = partition_plan(n, p, t);
    let chunk = n / (p * t);
    let remainder = n % (p * t);
    for k in 0..p * t - 1 {
        assert_eq!(plan[k].1 - plan[k].0, chunk);
    }
    let last = plan[p * t - 1];
    assert_eq!(last.1 - last.0, chunk + remainder);
}

#[test]
fn probe_signature_marks_completion() {
    assert!(response_complete("[-] ping: usage error: Destination address required"));
    assert!(!response_complete("[*] Started reverse TCP handler"));
    assert_eq!(probe_command(), "ping");
}

#[test]
fn batches_aggregate_with_space_and_newline() {
    let batches = vec!["first".to_string(), "second".to_string(), "".to_string()];
    assert_eq!(aggregate_batches(&batches), "first \nsecond \n ");
    assert_eq!(aggregate_batches(&Vec::new()), "");
}

#[test]
fn command_lines_are_literal() {
    assert_eq!(select_command("exploit/multi/handler"), "use exploit/multi/handler");
    assert_eq!(show_options_command(), "show options");
    assert_eq!(back_command(), "back");
    assert_eq!(listing_command(ListingKind::Exploits), "show exploits");
    assert_eq!(listing_command(ListingKind::Payloads), "show payloads");
    assert_eq!(listing_command(ListingKind::Auxiliary), "show auxiliary");
}

#[test]
fn five_failures_exhaust_the_default_bound() {
    let mut driver = ModuleDriver::new("exploit/unix/x".to_string(), DEFAULT_RETRY_BOUND);
    let mut record = ModuleRecord::with_name("exploit/unix/x".to_string());
    let cmd = driver.begin_select();
    assert_eq!(cmd, "use exploit/unix/x");
    for round in 0..DEFAULT_RETRY_BOUND {
        assert_eq!(driver.state, DriveState::Selected, "round {}", round);
        let cmd = driver.begin_options();
        assert_eq!(cmd, "show options");
        driver.on_parse_result(false);
    }
    assert_eq!(driver.state, DriveState::Failed);
    assert!(driver.is_terminal());

    let mut collector = ResultCollector::new();
    assert!(collector.insert(record.clone()));
    assert_eq!(collector.len(), 1);
    record = collector.records[0].clone();
    assert_eq!(record.name, "exploit/unix/x");
    assert_eq!(record.payload, "");
    assert!(record.options.is_none());
    assert!(record.payload_options.is_none());
    assert!(record.target.is_none());
}

#[test]
fn a_successful_parse_ends_in_deselection() {
    let mut driver = ModuleDriver::new("exploit/unix/y".to_string(), 3);
    driver.begin_select();
    driver.begin_options();
    driver.on_parse_result(false);
    assert_eq!(driver.state, DriveState::Selected);
    driver.begin_options();
    driver.on_parse_result(true);
    assert_eq!(driver.state, DriveState::Parsed);
    let cmd = driver.finish();
    assert_eq!(cmd, "back");
    assert_eq!(driver.state, DriveState::Deselected);
    assert!(driver.is_terminal());
}

#[test]
fn enrichment_fills_every_field_but_the_name() {
    let mut record = ModuleRecord::with_name("exploit/unix/z".to_string());
    let extraction = process_runner::extract::Extraction {
        payload: "generic/shell".to_string(),
        options: Some(vec![Parameter::new("A".to_string(), None, true, "a".to_string())]),
        payload_options: None,
        targets: vec!["0".to_string()],
    };
    apply_extraction(&mut record, extraction);
    assert_eq!(record.name, "exploit/unix/z");
    assert_eq!(record.payload, "generic/shell");
    assert_eq!(record.options.unwrap().len(), 1);
    assert!(record.payload_options.is_none());
    assert_eq!(record.target, Some(vec!["0".to_string()]));
}

#[test]
fn enrichment_without_targets_leaves_target_absent() {
    let mut record = ModuleRecord::with_name("exploit/unix/w".to_string());
    let extraction = process_runner::extract::Extraction {
        payload: String::new(),
        options: None,
        payload_options: None,
        targets: Vec::new(),
    };
    apply_extraction(&mut record, extraction);
    assert!(record.target.is_none());
}

#[test]
fn collector_refuses_a_name_twice() {
    let mut collector = ResultCollector::new();
    assert!(collector.insert(ModuleRecord::with_name("exploit/a/b".to_string())));
    assert!(collector.insert(ModuleRecord::with_name("exploit/c/d".to_string())));
    assert!(!collector.insert(ModuleRecord::with_name("exploit/a/b".to_string())));
    assert_eq!(collector.len(), 2);
    assert!(collector.contains_name("exploit/c/d"));
    assert!(!collector.contains_name("exploit/e/f"));
}

#[test]
fn sanitize_strips_escape_sequences() {
    assert_eq!(sanitize_line("\x1b[32mfoo\x1b[0m bar"), "foo bar");
    assert_eq!(sanitize_line("plain text"), "plain text");
    assert_eq!(sanitize_line(""), "");
}

#[test]
fn sanitize_strips_each_embedded_fragment_on_its_own() {
    assert_eq!(sanitize_line("a\x1b[31m\nb"), "a\nb");
}

#[test]
fn parameter_new_keeps_its_fields() {
    let p = Parameter::new(
        "LHOST".to_string(),
        Some("0.0.0.0".to_string()),
        false,
        "The listen address".to_string(),
    );
    assert_eq!(p.name, "LHOST");
    assert_eq!(p.default_value, Some("0.0.0.0".to_string()));
    assert!(!p.required);
    assert_eq!(p.description, "The listen address");
}

#[test]
fn text_utilities_behave_like_their_specs() {
    assert_eq!(find_pat("abcabc", "ca"), Some(2));
    assert_eq!(find_pat("abc", "zz"), None);
    assert_eq!(split_on("a  b   c", "  "), vec!["a", "b", " c"]);
    assert_eq!(trim_ws("  padded \n"), "padded");
}
