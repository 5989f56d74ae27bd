use process_runner::extract::{extract_listing, extract_module_info, ParseErrorKind};
use process_runner::records::Parameter;

fn full_blob() -> String {
    [
        "Module options (exploit/windows/wins/ms04_045_wins):\n",
        "\n",
        "   Name    Current Setting  Required  Description\n",
        "   ----    ---------------  --------  -----------\n",
        "   RHOSTS                   yes       The target host(s), see https://docs\n",
        "           example.com/info\n",
        "   RPORT   42               yes       The target port (TCP)\n",
        "\n",
        "Payload options (windows/meterpreter/reverse_tcp):\n",
        "\n",
        "   Name      Current Setting  Required  Description\n",
        "   ----      ---------------  --------  -----------\n",
        "   LPORT     4444             yes       The listen port\n",
        "\n",
        "Exploit target:\n",
        "\n",
        "   Id  Name\n",
        "   --  ----\n",
        "   0   Windows 2000 English\n",
        "\n\n\n\n",
    ]
    .concat()
}

#[test]
fn extracts_full_blob_in_source_order() {
    let blob = full_blob();
    let x = extract_module_info(&blob).expect("well-formed blob must parse");

    assert_eq!(x.payload, "windows/meterpreter/reverse_tcp");

    let options = x.options.expect("module options present");
    assert_eq!(options.len(), 2);
    assert_eq!(
        options[0],
        Parameter::new(
            "RHOSTS".to_string(),
            None,
            true,
            "The target host(s), see https://docsexample.com/info".to_string(),
        )
    );
    assert_eq!(
        options[1],
        Parameter::new(
            "RPORT".to_string(),
            Some("42".to_string()),
            true,
            "The target port (TCP)".to_string(),
        )
    );

    let payload_options = x.payload_options.expect("payload options present");
    assert_eq!(payload_options.len(), 1);
    assert_eq!(
        payload_options[0],
        Parameter::new(
            "LPORT".to_string(),
            Some("4444".to_string()),
            true,
            "The listen port".to_string(),
        )
    );

    assert_eq!(x.targets, vec!["0".to_string(), "Windows 2000 English".to_string()]);
}

#[test]
fn missing_payload_marker_is_not_an_error() {
    let blob = [
        "Module options (exploit/unix/thing):\n",
        "\n",
        "   Name    Current Setting  Required  Description\n",
        "   ----    ---------------  --------  -----------\n",
        "   RHOSTS  10.0.0.1         yes       The target host(s)\n",
        "\n",
        "Exploit target:\n",
        "\n",
        "   Id  Name\n",
        "   --  ----\n",
        "   0   Automatic\n",
        "\n\n\n\n",
    ]
    .concat();
    let x = extract_module_info(&blob).expect("blob without payload options must parse");
    assert_eq!(x.payload, "");
    assert!(x.payload_options.is_none());
    let options = x.options.expect("module options present");
    assert_eq!(options.len(), 1);
    assert_eq!(options[0].default_value, Some("10.0.0.1".to_string()));
    assert_eq!(x.targets, vec!["0".to_string(), "Automatic".to_string()]);
}

#[test]
fn missing_target_end_is_an_error_carrying_the_input() {
    let blob = "no blank runs anywhere in this text\nnot even one\n";
    let err = extract_module_info(blob).expect_err("must be a parse error");
    assert_eq!(err.kind, ParseErrorKind::MissingTargetEnd);
    assert_eq!(err.input, blob);
}

#[test]
fn missing_exploit_target_marker_is_an_error() {
    let blob = "some output\n\n\n\nmore output";
    let err = extract_module_info(blob).expect_err("must be a parse error");
    assert_eq!(err.kind, ParseErrorKind::MissingExploitTarget);
    assert_eq!(err.input, blob);
}

#[test]
fn unclosed_payload_marker_is_an_error() {
    let blob = "Payload options (never closed\n\n\n\nExploit target:\n";
    let err = extract_module_info(blob).expect_err("must be a parse error");
    assert_eq!(err.kind, ParseErrorKind::MissingPayloadEnd);
}

#[test]
fn markers_after_the_blank_run_are_out_of_order() {
    let blob = "text\n\n\n\nExploit target:\n   Id  Name\n   --  ----\n   0   One\n";
    let err = extract_module_info(blob).expect_err("must be a parse error");
    assert_eq!(err.kind, ParseErrorKind::RegionOutOfBounds);
}

#[test]
fn missing_target_separator_is_an_error_carrying_the_region() {
    let blob = [
        "Module options (exploit/unix/thing):\n",
        "\n",
        "   Name  Current Setting  Required  Description\n",
        "   ----  ---------------  --------  -----------\n",
        "   A     1                yes       B\n",
        "\n",
        "Exploit target:\n",
        "\n",
        "   Id  Name\n",
        "\n\n\n\n",
    ]
    .concat();
    let err = extract_module_info(&blob).expect_err("must be a parse error");
    assert_eq!(err.kind, ParseErrorKind::MissingTargetSeparator);
    assert!(err.input.starts_with("Exploit target:"));
    assert_eq!(err.describe(), "no exploit target separator");
}

#[test]
fn payload_region_without_separator_is_an_error() {
    let blob = [
        "Module options (exploit/unix/thing):\n",
        "\n",
        "   Name  Current Setting  Required  Description\n",
        "   ----  ---------------  --------  -----------\n",
        "   A     1                yes       B\n",
        "\n",
        "Payload options (generic/shell):\n",
        "no separator in this region\n",
        "Exploit target:\n",
        "\n",
        "   Id  Name\n",
        "   --  ----\n",
        "   0   T\n",
        "\n\n\n\n",
    ]
    .concat();
    let err = extract_module_info(&blob).expect_err("must be a parse error");
    assert_eq!(err.kind, ParseErrorKind::MissingPayloadSeparator);
    assert!(err.input.starts_with("):"));
}

#[test]
fn tokens_beyond_the_fourth_column_are_dropped() {
    let rows = "   A  B  yes  C  D\n";
    let params = process_runner::table::parse_param_table(rows);
    assert_eq!(params.len(), 1);
    assert_eq!(params[0].name, "A");
    assert_eq!(params[0].default_value, Some("B".to_string()));
    assert_eq!(params[0].description, "C");
}

#[test]
fn module_without_option_table_is_not_an_error() {
    let blob = [
        "This module has no options at all.\n",
        "\n",
        "Exploit target:\n",
        "\n",
        "   Id  Name\n",
        "   --  ----\n",
        "   0   Automatic\n",
        "\n\n\n\n",
    ]
    .concat();
    let x = extract_module_info(&blob).expect("blob without a module table must parse");
    assert!(x.options.is_none());
    assert_eq!(x.targets, vec!["0".to_string(), "Automatic".to_string()]);
}

#[test]
fn three_column_rows_have_no_default_and_four_column_rows_keep_theirs() {
    let rows = [
        "   RHOSTS                   yes       The target host(s)\n",
        "   RPORT   42               yes       The target port (TCP)\n",
    ]
    .concat();
    let params = process_runner::table::parse_param_table(&rows);
    assert_eq!(params.len(), 2);
    assert_eq!(params[0].name, "RHOSTS");
    assert_eq!(params[0].default_value, None);
    assert!(params[0].required);
    assert_eq!(params[0].description, "The target host(s)");
    assert_eq!(params[1].name, "RPORT");
    assert_eq!(params[1].default_value, Some("42".to_string()));
    assert!(params[1].required);
    assert_eq!(params[1].description, "The target port (TCP)");
}

#[test]
fn not_required_rows_parse_to_false() {
    let rows = "   Proxies                   no        A proxy chain\n";
    let params = process_runner::table::parse_param_table(rows);
    assert_eq!(params.len(), 1);
    assert!(!params[0].required);
}

#[test]
fn listing_blob_parses_to_summary_rows() {
    let blob = [
        "Exploits\n",
        "========\n",
        "\n",
        "   #   Name                           Disclosure Date  Rank       Check  Description\n",
        "   -   ----                           ---------------  ----       -----  -----------\n",
        "   0   exploit/aix/local/ibstat_path  2013-09-24       excellent  Yes    ibstat $PATH Privilege Escalation\n",
        "   1   exploit/aix/rpc_cmsd_opcode21  2009-10-07       great      No     AIX Calendar Manager Service\n",
    ]
    .concat();
    let entries = extract_listing(&blob);
    assert_eq!(entries.len(), 2);
    assert_eq!(entries[0].name, "exploit/aix/local/ibstat_path");
    assert_eq!(entries[0].disclosure_date, "2013-09-24");
    assert_eq!(entries[0].rank, "excellent");
    assert!(entries[0].check);
    assert_eq!(entries[0].description, "ibstat $PATH Privilege Escalation");
    assert_eq!(entries[1].name, "exploit/aix/rpc_cmsd_opcode21");
    assert!(!entries[1].check);
}

#[test]
fn listing_blob_without_separator_lists_nothing() {
    let entries = extract_listing("nothing that looks like a table");
    assert!(entries.is_empty());
}

#[test]
fn wrapped_listing_descriptions_are_merged() {
    let blob = [
        "   #   Name                           Disclosure Date  Rank       Check  Description\n",
        "   -   ----                           ---------------  ----       -----  -----------\n",
        "   0   exploit/aix/local/ibstat_path  2013-09-24       excellent  Yes    ibstat $PATH\n",
        "       wrapped tail\n",
    ]
    .concat();
    let entries = extract_listing(&blob);
    assert_eq!(entries.len(), 1);
    assert_eq!(entries[0].description, "ibstat $PATHwrapped tail");
}
