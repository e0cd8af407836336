use freebox_exporter::diagnostics::{DryRunOutput, DryRunner};

#[test]
fn dry_run_output_renders_containers() {
    let mut out = DryRunOutput::new();
    assert_eq!(out.initialize(), "{");
    out.push("lan", "config", "{\"mode\":\"router\"}");
    out.push("lan", "note", "plain");
    out.push("lan", "note", " text");
    out.push("wifi", "aps", "[1]");
    assert_eq!(out.flush("lan", false), "\"lan\": {\"config\": {\"mode\":\"router\"},\"note\": \"plain text\"},");
    assert_eq!(out.flush("lan", false), "\"lan\": {},");
    assert_eq!(out.flush("dhcp", false), "\"dhcp\": {},");
    assert_eq!(out.flush("wifi", true), "\"wifi\": {\"aps\": [1]}");
    assert_eq!(out.finalize(), "}");
    assert!(out.containers.is_empty());
}

#[test]
fn dry_runner_keeps_its_settings() {
    let r = DryRunner::new(vec![1, 2], "out.json".to_string());
    assert_eq!((r.runnables.len(), r.output_path.as_str()), (2, "out.json"));
}
