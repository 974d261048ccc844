use gitp::ranking::{alert_severity_key, ci_sort_key, kind_key, map_code_severity};

#[test]
fn sort_key_order() {
    assert!(ci_sort_key("in_progress", "") < ci_sort_key("queued", ""));
    assert!(ci_sort_key("queued", "") < ci_sort_key("", "failure"));
    assert!(ci_sort_key("", "failure") < ci_sort_key("", "success"));
    assert!(ci_sort_key("", "success") < ci_sort_key("", "unknown"));
}

#[test]
fn severity_sort_order() {
    assert!(alert_severity_key("critical") < alert_severity_key("high"));
    assert!(alert_severity_key("high") < alert_severity_key("medium"));
    assert!(alert_severity_key("medium") < alert_severity_key("low"));
    assert!(alert_severity_key("low") < alert_severity_key("unknown"));
}

#[test]
fn code_severity_mapping() {
    assert_eq!(map_code_severity("error"), "high");
    assert_eq!(map_code_severity("warning"), "medium");
    assert_eq!(map_code_severity("note"), "low");
    assert_eq!(map_code_severity("none"), "low");
}

#[test]
fn ci_sort_key_exact_values() {
    assert_eq!(ci_sort_key("in_progress", "failure"), 0);
    assert_eq!(ci_sort_key("queued", "success"), 1);
    assert_eq!(ci_sort_key("completed", "failure"), 2);
    assert_eq!(ci_sort_key("completed", "success"), 3);
    assert_eq!(ci_sort_key("completed", "cancelled"), 4);
    assert_eq!(ci_sort_key("", ""), 4);
}

#[test]
fn kind_key_order() {
    assert_eq!(kind_key("dep"), 0);
    assert_eq!(kind_key("code"), 1);
    assert_eq!(kind_key("secret"), 2);
    assert_eq!(kind_key("other"), 3);
    assert_eq!(alert_severity_key("Critical"), 4);
}
