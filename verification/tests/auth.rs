use campus_network_assistant::backend::auth::extract_ip;
use campus_network_assistant::backend::auth::field;
use campus_network_assistant::backend::auth::jsonp_payload;
use campus_network_assistant::backend::auth::AuthClient;
use campus_network_assistant::backend::auth::AuthError;
use campus_network_assistant::backend::auth::AuthResponse;
use campus_network_assistant::backend::auth::ISP;
use campus_network_assistant::backend::text::chars_of;
use campus_network_assistant::backend::text::cut;
use campus_network_assistant::backend::text::find_from;
use campus_network_assistant::backend::text::has;
use campus_network_assistant::backend::text::has_suffix;
use campus_network_assistant::backend::text::joined;
use campus_network_assistant::backend::text::matches_at;
use campus_network_assistant::backend::text::trimmed;

#[test]
fn carrier_suffixes() {
    assert_eq!(ISP::Unicom.as_str(), "unicomn");
    assert_eq!(ISP::Mobile.as_str(), "cmccn");
    assert_eq!(ISP::Telecom.as_str(), "telecomn");
    assert_eq!(ISP::Campus.as_str(), "");
}

#[test]
fn ip_is_read_off_the_page() {
    assert_eq!(extract_ip("x v46ip='10.2.3.4' y").as_deref(), Some("10.2.3.4"));
    assert_eq!(extract_ip("v4ip='172.16.0.9';").as_deref(), Some("172.16.0.9"));
    assert_eq!(extract_ip("ss5=\"192.168.1.1\"").as_deref(), Some("192.168.1.1"));
    assert_eq!(extract_ip("nothing here"), None);
    assert_eq!(extract_ip(""), None);
    // The name alone is not enough.
    assert_eq!(extract_ip("v46ip v4ip ss5"), None);
}

#[test]
fn first_kind_of_address_wins() {
    let page = "ss5=\"3.3.3.3\" v4ip='2.2.2.2' v46ip='1.1.1.1'";
    assert_eq!(extract_ip(page).as_deref(), Some("1.1.1.1"));
    assert_eq!(extract_ip("ss5=\"3.3.3.3\" v4ip='2.2.2.2'").as_deref(), Some("2.2.2.2"));
}

#[test]
fn value_ends_at_quote_marker_or_end() {
    assert_eq!(field("a='1' a='2'", "a='", '\'').as_deref(), Some("1"));
    assert_eq!(field("a='12", "a='", '\'').as_deref(), Some("12"));
    assert_eq!(field("a='12a='3'", "a='", '\'').as_deref(), Some("12"));
    assert_eq!(field("a=''", "a='", '\'').as_deref(), Some(""));
    assert_eq!(field("a='", "a='", '\'').as_deref(), Some(""));
    assert_eq!(field("b='1'", "a='", '\''), None);
    assert_eq!(field("v46ip='2001:db8::1'", "v46ip='", '\'').as_deref(), Some("2001:db8::1"));
    assert_eq!(field("k='值'", "k='", '\'').as_deref(), Some("值"));
}

#[test]
fn answer_is_unwrapped() {
    assert_eq!(
        jsonp_payload("dr1004({\"result\":1,\"msg\":\"ok\"});"),
        "{\"result\":1,\"msg\":\"ok\"}"
    );
    assert_eq!(jsonp_payload("{\"result\":0}"), "{\"result\":0}");
    assert_eq!(jsonp_payload("dr1004(dr1004(x);););"), "x");
    assert_eq!(jsonp_payload("dr1004();"), "");
    assert_eq!(jsonp_payload("dr1004("), "");
    assert_eq!(jsonp_payload(""), "");
}

#[test]
fn sign_in_request() {
    let client = AuthClient::new("1234567890".to_string(), "secret".to_string(), ISP::Unicom);
    assert_eq!(client.base_url, "https://portal.csu.edu.cn:802/eportal/portal");
    assert_eq!(client.user_account(), ",1,1234567890@unicomn");
    let request = client.login("10.2.3.4");
    assert_eq!(request.url, "https://portal.csu.edu.cn:802/eportal/portal/login");
    let query: Vec<(&str, &str)> =
        request.query.iter().map(|pair| (pair.name.as_str(), pair.value.as_str())).collect();
    assert_eq!(
        query,
        vec![
            ("callback", "dr1004"),
            ("login_method", "1"),
            ("user_account", ",1,1234567890@unicomn"),
            ("user_password", "secret"),
            ("wlan_user_ip", "10.2.3.4"),
        ]
    );
    let headers: Vec<&str> = request.headers.iter().map(|pair| pair.name.as_str()).collect();
    assert_eq!(headers, vec!["User-Agent", "Referer", "Origin"]);
    assert_eq!(request.headers[1].value, "https://portal.csu.edu.cn/");
    assert_eq!(request.headers[2].value, "https://portal.csu.edu.cn");

    let campus = AuthClient::new("u".to_string(), "p".to_string(), ISP::Campus);
    assert_eq!(campus.user_account(), ",1,u@");
}

#[test]
fn get_ip_fails_when_the_page_names_none() {
    let client = AuthClient::new("u".to_string(), "p".to_string(), ISP::Mobile);
    assert_eq!(client.get_ip("<html>v4ip='10.0.0.7'</html>"), Ok("10.0.0.7".to_string()));
    assert_eq!(client.get_ip("<html></html>"), Err(AuthError::NoIp));
}

#[test]
fn answer_holds_what_the_portal_said() {
    let answer = AuthResponse { result: 1, msg: "ok".to_string(), ret_code: 0 };
    assert_eq!(answer.result, 1);
    assert_eq!(answer.msg, "ok");
    assert_eq!(answer.ret_code, 0);
}

#[test]
fn text_search() {
    let text = chars_of("abcabc");
    let bc = chars_of("bc");
    assert_eq!(text, vec!['a', 'b', 'c', 'a', 'b', 'c']);
    assert!(matches_at(&text, &bc, 1));
    assert!(!matches_at(&text, &bc, 2));
    assert!(!matches_at(&text, &bc, 5));
    assert!(!matches_at(&text, &bc, 9));
    assert!(matches_at(&text, &Vec::new(), 6));
    assert_eq!(find_from(&text, &bc, 0), Some(1));
    assert_eq!(find_from(&text, &bc, 2), Some(4));
    assert_eq!(find_from(&text, &bc, 5), None);
    assert_eq!(find_from(&text, &bc, 7), None);
    assert_eq!(find_from(&text, &Vec::new(), 6), Some(6));
    assert!(has("tcp connect error: refused", "tcp connect error"));
    assert!(!has("tcp connect", "tcp connect error"));
    assert!(has("x", ""));
    assert!(has_suffix("dir/", "/"));
    assert!(!has_suffix("dir/file", "/"));
    assert!(!has_suffix("", "/"));
    assert_eq!(cut("héllo", 1, 3), "él");
    assert_eq!(joined("a", "b"), "ab");
    assert_eq!(trimmed("xxabyy", "x", "y"), "ab");
    assert_eq!(trimmed("xxx", "x", "x"), "");
    assert_eq!(trimmed("ab", "", ""), "ab");
}
