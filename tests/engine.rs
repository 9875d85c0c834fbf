use sonar_backend::engine::{activity_query, issues_query, scanner_args, EngineConfig};
use sonar_backend::text::{is_success_status, prefixed, same_text};

#[test]
fn settings_fall_back_to_defaults() {
    let c = EngineConfig::from_settings(None, None);
    assert_eq!(c.base_url, "http://sonarqube:9000");
    assert_eq!(c.token, "admin");
    assert_eq!(c.user, "admin");
    let c = EngineConfig::from_settings(Some("http://e:1".to_string()), Some("t0k".to_string()));
    assert_eq!(c.base_url, "http://e:1");
    assert_eq!(c.token, "t0k");
}

#[test]
fn endpoints_and_queries() {
    let c = EngineConfig::from_settings(Some("http://e:1".to_string()), None);
    assert_eq!(c.activity_url(), "http://e:1/api/ce/activity");
    assert_eq!(c.issues_url(), "http://e:1/api/issues/search");
    assert_eq!(activity_query("job_1"), vec![("component".to_string(), "job_1".to_string())]);
    assert_eq!(
        issues_query("job_1"),
        vec![
            ("componentKeys".to_string(), "job_1".to_string()),
            ("types".to_string(), "VULNERABILITY,SECURITY_HOTSPOT".to_string()),
            ("ps".to_string(), "500".to_string()),
        ]
    );
}

#[test]
fn scanner_arguments() {
    let c = EngineConfig::from_settings(Some("http://e:1".to_string()), Some("tok".to_string()));
    assert_eq!(
        scanner_args("job_ab", &c),
        vec![
            "-Dsonar.projectKey=job_ab".to_string(),
            "-Dsonar.host.url=http://e:1".to_string(),
            "-Dsonar.login=tok".to_string(),
            "-Dsonar.sources=.".to_string(),
        ]
    );
}

#[test]
fn success_statuses() {
    assert!(is_success_status(200));
    assert!(is_success_status(299));
    assert!(!is_success_status(199));
    assert!(!is_success_status(300));
    assert!(!is_success_status(502));
}

#[test]
fn text_helpers() {
    assert!(same_text("abc", "abc"));
    assert!(!same_text("abc", "abd"));
    assert!(!same_text("abc", "ab"));
    assert_eq!(prefixed("a: ", "b"), "a: b");
}
