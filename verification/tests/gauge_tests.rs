use freebox_exporter::gauge::{make_family, make_int_gauge, GaugeError};

fn creation_name(r: Result<(), GaugeError>) -> Option<String> {
    match r {
        Err(GaugeError::Creation(n)) => Some(n),
        _ => None,
    }
}

#[test]
fn prometheus_refuses_bad_names_help_and_labels() {
    let bad_name = make_family("9lives".to_string(), "help".to_string(), vec!["a".to_string()]).map(|_| ());
    assert_eq!(creation_name(bad_name), Some("9lives".to_string()));
    let no_help = make_int_gauge("gauge_without_help".to_string(), String::new()).map(|_| ());
    assert_eq!(creation_name(no_help), Some("gauge_without_help".to_string()));
    let twice = make_family("family_label_twice".to_string(), "help".to_string(), vec!["a".to_string(), "a".to_string()]).map(|_| ());
    assert_eq!(creation_name(twice), Some("family_label_twice".to_string()));
    let bad_label = make_family("family_bad_label".to_string(), "help".to_string(), vec!["a:b".to_string()]).map(|_| ());
    assert_eq!(creation_name(bad_label), Some("family_bad_label".to_string()));
}

#[test]
fn accepted_names_register_once() {
    assert!(make_family("gauge_test:ok_1".to_string(), "help".to_string(), vec!["_x1".to_string()]).is_ok());
    match make_family("gauge_test:ok_1".to_string(), "help".to_string(), vec!["_x1".to_string()]) {
        Err(GaugeError::Registration(n)) => assert_eq!(n, "gauge_test:ok_1"),
        other => panic!("unexpected: {:?}", other.is_ok()),
    }
}
