use aegis_backend::partitioned_cookies::{add_partitioned_attribute, is_localhost, rewrite_cookie};

#[test]
fn local_referers() {
    assert!(is_localhost(&Some("http://localhost:4173/login".to_string())));
    assert!(is_localhost(&Some("http://127.0.0.1:3000/".to_string())));
    assert!(!is_localhost(&Some("https://aegis.example.com/".to_string())));
    assert!(!is_localhost(&Some(String::new())));
    assert!(!is_localhost(&None));
}

#[test]
fn session_cookie_for_production() {
    assert_eq!(
        rewrite_cookie("aegis_session=abc; HttpOnly; SameSite=Lax; Path=/", false),
        "aegis_session=abc; HttpOnly; Path=/; SameSite=None; Secure; Partitioned"
    );
    assert_eq!(
        rewrite_cookie("aegis_session=abc;Secure;SameSite=None", false),
        "aegis_session=abc; SameSite=None; Secure; Partitioned"
    );
}

#[test]
fn session_cookie_for_a_local_frontend() {
    assert_eq!(
        rewrite_cookie("aegis_session=abc; HttpOnly; SameSite=None; Secure; Path=/", true),
        "aegis_session=abc; HttpOnly; Path=/; SameSite=Lax"
    );
    assert_eq!(rewrite_cookie("aegis_session=abc", true), "aegis_session=abc; SameSite=Lax");
}

#[test]
fn other_cookies_are_left_alone() {
    assert_eq!(rewrite_cookie("theme=dark; Secure; SameSite=Lax", false), "theme=dark; Secure; SameSite=Lax");
    assert_eq!(rewrite_cookie("", true), "");
}

#[test]
fn cookies_keep_their_order() {
    let cookies = vec![
        "theme=dark; Secure".to_string(),
        "aegis_session=abc; SameSite=Lax".to_string(),
    ];
    assert_eq!(
        add_partitioned_attribute(&Some("http://localhost:4173".to_string()), &cookies),
        vec!["theme=dark; Secure".to_string(), "aegis_session=abc; SameSite=Lax".to_string()]
    );
    assert_eq!(
        add_partitioned_attribute(&None, &cookies),
        vec![
            "theme=dark; Secure".to_string(),
            "aegis_session=abc; SameSite=None; Secure; Partitioned".to_string()
        ]
    );
    assert!(add_partitioned_attribute(&None, &vec![]).is_empty());
}
