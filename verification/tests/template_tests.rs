use jotsy::decimal::u64_to_dec;
use jotsy::notes::Note;
use jotsy::templates::Account;
use jotsy::templates::App;
use jotsy::templates::LoginPage;
use jotsy::templates::NoticePage;
use jotsy::templates::SignupPage;
use jotsy::templates::SingleNote;

const LOGIN_HEAD: &str =
    "<!DOCTYPE html><html><head><title>Jotsy: log in</title></head><body><h1>Log in</h1>";
const LOGIN_TAIL: &str = "<form action=\"/login\" method=\"post\"><input name=\"username\"><input name=\"token\" type=\"password\"><button>Log in</button></form></body></html>";

#[test]
fn login_page_plain() {
    assert_eq!(LoginPage::new(false), format!("{LOGIN_HEAD}{LOGIN_TAIL}"));
}

#[test]
fn login_page_after_failure() {
    let expected = format!(
        "{LOGIN_HEAD}<p class=\"notice\">That login did not work. Try again.</p>{LOGIN_TAIL}"
    );
    assert_eq!(LoginPage::new(true), expected);
}

#[test]
fn notice_page_with_redirect() {
    let expected = "<!DOCTYPE html><html><head><title>Jotsy: notice</title>\
        <meta http-equiv=\"refresh\" content=\"2; url=/\">\
        </head><body><p>hello</p></body></html>";
    assert_eq!(NoticePage::new("hello", true), expected);
    assert_eq!(NoticePage::new_redirect("hello"), expected);
}

#[test]
fn notice_page_without_redirect() {
    let expected = "<!DOCTYPE html><html><head><title>Jotsy: notice</title>\
        </head><body><p>hello</p></body></html>";
    assert_eq!(NoticePage::new("hello", false), expected);
}

#[test]
fn error_page_discloses_nothing() {
    let body = NoticePage::e500();
    assert!(body.contains("<p>An internal server error occurred</p>"));
    assert!(!body.contains("refresh"));
    let resp = NoticePage::re500();
    assert_eq!(resp.status, 500);
    assert_eq!(resp.body, body);
}

#[test]
fn empty_notice_redirects_home() {
    let body = NoticePage::empty();
    assert!(body.contains("<meta http-equiv=\"refresh\" content=\"2; url=/\">"));
    assert!(body.contains("<p></p>"));
}

#[test]
fn signup_pages() {
    let plain = SignupPage::empty();
    assert!(plain.contains("<h1>Sign up</h1>"));
    assert!(!plain.contains("class=\"notice\""));
    let with_error = SignupPage::new("That name is taken");
    assert!(with_error.contains("<p class=\"notice\">That name is taken</p>"));
}

#[test]
fn single_note_converts_markdown() {
    let page = SingleNote::new(Note { id: 3, body: "*hi*".to_string() });
    let html = markdown::to_html("*hi*");
    assert_ne!(html, "*hi*");
    assert!(page.contains(&html));
    assert!(!page.contains("*hi*"));
    let expected = format!(
        "<!DOCTYPE html><html><head><title>Jotsy: note</title></head><body><article class=\"note\">{html}</article></body></html>"
    );
    assert_eq!(page, expected);
}

#[test]
fn app_page_lists_notes_in_order() {
    let notes = vec![
        Note { id: 0, body: "first".to_string() },
        Note { id: 5, body: "second".to_string() },
    ];
    let page = App::new("alice".to_string(), notes);
    let expected = "<!DOCTYPE html><html><head><title>Jotsy</title></head><body>\
        <h1>Notes of alice</h1><p>2 notes</p><main>\
        <div class=\"note\" id=\"note-0\">first</div>\
        <div class=\"note\" id=\"note-5\">second</div>\
        </main></body></html>";
    assert_eq!(page, expected);
}

#[test]
fn app_page_with_no_notes() {
    let page = App::new("bob".to_string(), Vec::new());
    assert!(page.contains("<h1>Notes of bob</h1>"));
    assert!(page.contains("<p>0 notes</p>"));
    assert!(!page.contains("<div class=\"note\""));
}

#[test]
fn account_page_shows_count() {
    let page = Account::new(42, "carol".to_string());
    assert!(page.contains("<h1>Account of carol</h1>"));
    assert!(page.contains("<p>Notes kept: 42</p>"));
}

#[test]
fn decimal_rendering_exact() {
    assert_eq!(u64_to_dec(0), "0");
    assert_eq!(u64_to_dec(7), "7");
    assert_eq!(u64_to_dec(10), "10");
    assert_eq!(u64_to_dec(1234567890), "1234567890");
    assert_eq!(u64_to_dec(u64::MAX), "18446744073709551615");
}
