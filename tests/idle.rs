use motion_minute::idle::extract_first_app;

#[test]
fn test_extract_first_app_with_valid_input() {
    let input = "Some text before display sleep prevented by App1, App2, App3";
    let result = extract_first_app(input);
    assert_eq!(result, Some("App1".to_string()));
}

#[test]
fn test_extract_first_with_single_input() {
    let input = "display sleep prevented by AppA";
    let result = extract_first_app(input);
    assert_eq!(result, Some("AppA".to_string()));
}

#[test]
fn test_extract_first_app_with_no_apps() {
    let input = "display sleep prevented by ";
    let result = extract_first_app(input);
    assert_eq!(result, None);
}

#[test]
fn test_extract_first_app_with_parenthesis() {
    let input = "(display sleep prevented by Steam Helper)\n\r tcpkeepalive         1\n\rlowpowermode         0";
    let result = extract_first_app(input);
    assert_eq!(result, Some("Steam Helper".to_string()));
}

#[test]
fn extract_first_app_without_phrase() {
    assert_eq!(extract_first_app("sleep prevented by App1"), None);
    assert_eq!(extract_first_app(""), None);
}

#[test]
fn extract_first_app_empty_first_entry() {
    assert_eq!(extract_first_app("display sleep prevented by , App2)"), None);
    assert_eq!(extract_first_app("display sleep prevented by\u{a0}Zoom\t, x"), Some("Zoom".to_string()));
}
