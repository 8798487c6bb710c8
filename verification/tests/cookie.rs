use r2_gateway::cookie::{cleared_cookie_value, session_cookie_value, session_id_from_cookie};

fn by_std(header: &str) -> Option<&str> {
    header.split(';').find_map(|c| c.trim().strip_prefix("session_id="))
}

#[test]
fn lone_session_cookie() {
    assert_eq!(session_id_from_cookie("session_id=abc"), Some("abc"));
}

#[test]
fn session_cookie_among_others() {
    assert_eq!(session_id_from_cookie("theme=dark; session_id=abc; lang=en"), Some("abc"));
    assert_eq!(session_id_from_cookie("theme=dark;session_id=abc"), Some("abc"));
}

#[test]
fn whitespace_round_a_segment_is_dropped() {
    assert_eq!(session_id_from_cookie("  session_id=abc  "), Some("abc"));
    assert_eq!(session_id_from_cookie("a=b;\t session_id=abc \t;c=d"), Some("abc"));
    assert_eq!(session_id_from_cookie("session_id= abc"), Some(" abc"));
}

#[test]
fn first_session_cookie_wins() {
    assert_eq!(session_id_from_cookie("session_id=first; session_id=second"), Some("first"));
}

#[test]
fn empty_identifier_is_an_identifier() {
    assert_eq!(session_id_from_cookie("session_id="), Some(""));
    assert_eq!(session_id_from_cookie("session_id=; HttpOnly; Path=/; Max-Age=0"), Some(""));
}

#[test]
fn header_without_session_cookie() {
    assert_eq!(session_id_from_cookie(""), None);
    assert_eq!(session_id_from_cookie(";;"), None);
    assert_eq!(session_id_from_cookie("theme=dark"), None);
    assert_eq!(session_id_from_cookie("xsession_id=abc"), None);
    assert_eq!(session_id_from_cookie("SESSION_ID=abc"), None);
    assert_eq!(session_id_from_cookie("session_id =abc"), None);
    assert_eq!(session_id_from_cookie("session_id"), None);
    assert_eq!(session_id_from_cookie("session_i;d=abc"), None);
}

#[test]
fn identifier_may_hold_equals_signs_and_other_text() {
    assert_eq!(session_id_from_cookie("session_id=a=b=c"), Some("a=b=c"));
    assert_eq!(session_id_from_cookie("session_id=session_id=1"), Some("session_id=1"));
    assert_eq!(session_id_from_cookie("session_id=é\u{3000}ü"), Some("é\u{3000}ü"));
}

#[test]
fn cookie_reading_agrees_with_std_splitting() {
    let headers = [
        "",
        ";",
        " ; ;",
        "session_id=abc",
        "a=1; session_id=abc",
        "a=1; session_id=abc; session_id=def",
        "session_id=abc;",
        ";session_id=abc",
        " \u{3000}session_id=x\u{a0}",
        "session_id=x y ; b",
        "b; session_id",
        "session_id=\t",
        "a=session_id=1",
        "é=ü; session_id=日本語",
    ];
    for h in headers {
        assert_eq!(session_id_from_cookie(h), by_std(h), "{:?}", h);
    }
}

#[test]
fn development_cookie_text() {
    assert_eq!(
        session_cookie_value("abc", false),
        "session_id=abc; HttpOnly; Path=/; SameSite=Lax; Max-Age=2592000"
    );
}

#[test]
fn production_cookie_text() {
    assert_eq!(
        session_cookie_value("abc", true),
        "session_id=abc; HttpOnly; Secure; Path=/; Domain=admin.seemsgood.org; SameSite=Lax; Max-Age=2592000"
    );
}

#[test]
fn cookie_lives_thirty_days() {
    let max_age = 60 * 60 * 24 * 30;
    assert_eq!(
        session_cookie_value("id", false),
        format!("session_id={}; HttpOnly; Path=/; SameSite=Lax; Max-Age={}", "id", max_age)
    );
    assert_eq!(
        session_cookie_value("id", true),
        format!(
            "session_id={}; HttpOnly; Secure; Path=/; Domain=admin.seemsgood.org; SameSite=Lax; Max-Age={}",
            "id", max_age
        )
    );
}

#[test]
fn written_cookie_reads_back() {
    for production in [false, true] {
        let value = session_cookie_value("3f2a-77", production);
        assert_eq!(session_id_from_cookie(&value), Some("3f2a-77"));
    }
}

#[test]
fn cleared_cookie_text() {
    assert_eq!(cleared_cookie_value(), "session_id=; HttpOnly; Path=/; Max-Age=0");
}
