use march_7th_app_lib::build_identity::safe_ignored_summary;

#[test]
fn unavailable_sample_with_a_known_stage_is_safe() {
    assert!(safe_ignored_summary(
        "ignored-input phase=identity-sample state=unavailable total=unknown groups=unknown overflow=no failureStage=helper"
    ));
    assert!(!safe_ignored_summary(
        "ignored-input phase=identity-sample state=unavailable total=unknown groups=unknown overflow=no failureStage=secret"
    ));
    assert!(!safe_ignored_summary(
        "ignored-input phase=identity-sample state=unavailable total=unknown groups=unknown overflow=no"
    ));
}

#[test]
fn ok_sample_needs_known_totals_and_groups() {
    assert!(safe_ignored_summary(
        "ignored-input phase=identity-sample state=ok total=zero groups=none overflow=no"
    ));
    assert!(!safe_ignored_summary(
        "ignored-input phase=identity-sample state=ok total=few groups=none overflow=no"
    ));
    assert!(safe_ignored_summary(
        "ignored-input  phase=identity-sample\tstate=ok total=few groups=app-rules:build-output:directory:one,root-rules:logs:file:many overflow=yes"
    ));
    assert!(!safe_ignored_summary(
        "ignored-input phase=identity-sample state=ok total=few groups=app-rules:build-output:directory overflow=no"
    ));
    assert!(!safe_ignored_summary(
        "ignored-input phase=identity-sample state=ok total=few groups=app-rules:build-output:directory:one, overflow=no"
    ));
    assert!(!safe_ignored_summary(
        "ignored-input phase=identity-sample state=ok total=few groups= overflow=no"
    ));
}

#[test]
fn at_most_eight_groups_on_one_bounded_line() {
    let group = "nested-rules:other:link:few";
    let eight = vec![group; 8].join(",");
    let nine = vec![group; 9].join(",");
    let line = |groups: &str| {
        format!("ignored-input phase=identity-sample state=ok total=many groups={groups} overflow=no")
    };
    assert!(safe_ignored_summary(&line(&eight)));
    assert!(!safe_ignored_summary(&line(&nine)));
    assert!(!safe_ignored_summary(&format!("{}\n", line(&eight))));
    assert!(!safe_ignored_summary(&format!("{}{}", line(&eight), " ".repeat(1024))));
    assert!(!safe_ignored_summary("ignored-input phase=identity-sample state=ok"));
}
