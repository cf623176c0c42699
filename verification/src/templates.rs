//! Page rendering: every page this core emits, built by plain string
//! concatenation with an exact sequence-level contract.
//!
//! Markdown-to-HTML conversion of a note body is delegated to an outside
//! converter; everything around it is verified.

use vstd::prelude::*;
use vstd::string::StringExecFns;
use crate::decimal::dec_digits;
use crate::decimal::push_dec;
use crate::notes::Note;
use crate::response::HttpResponse;

verus! {

/// The HTML that the outside markdown converter produces for a markup text.
/// It depends on the text alone; nothing more is assumed of it.
pub uninterp spec fn markdown_html_of(src: Seq<char>) -> Seq<char>;

/// Relies on markdown::to_html: CommonMark-to-HTML conversion, a pure
/// function of the markup text.
#[verifier::external_body]
fn markdown_to_html(src: &str) -> (r: String)
    ensures
        r@ == markdown_html_of(src@),
{
    markdown::to_html(src)
}

/// The login / entry page, with or without a failed-login notice.
pub open spec fn spec_login_page(login_failed: bool) -> Seq<char> {
    "<!DOCTYPE html><html><head><title>Jotsy: log in</title></head><body><h1>Log in</h1>"@ + (
    if login_failed {
        "<p class=\"notice\">That login did not work. Try again.</p>"@
    } else {
        Seq::<char>::empty()
    }) + "<form action=\"/login\" method=\"post\"><input name=\"username\"><input name=\"token\" type=\"password\"><button>Log in</button></form></body></html>"@
}

/// The entry page shown to a visitor without a session.
pub struct LoginPage {
    pub login_failed: bool,
}

impl LoginPage {
    /// Render this page.
    pub fn render(&self) -> (r: String)
        ensures
            r@ == spec_login_page(self.login_failed),
    {
        let mut s =
            "<!DOCTYPE html><html><head><title>Jotsy: log in</title></head><body><h1>Log in</h1>".to_owned();
        if self.login_failed {
            s.append("<p class=\"notice\">That login did not work. Try again.</p>");
        }
        s.append(
            "<form action=\"/login\" method=\"post\"><input name=\"username\"><input name=\"token\" type=\"password\"><button>Log in</button></form></body></html>",
        );
        proof {
            assert(s@ =~= spec_login_page(self.login_failed));
        }
        s
    }

    /// Render the login page directly from the one flag it shows.
    pub fn new(login_failed: bool) -> (r: String)
        ensures
            r@ == spec_login_page(login_failed),
    {
        (LoginPage { login_failed }).render()
    }
}

/// A short notice page: a message, optionally with a refresh back to the
/// entry point.
pub open spec fn spec_notice_page(message: Seq<char>, redirect: bool) -> Seq<char> {
    "<!DOCTYPE html><html><head><title>Jotsy: notice</title>"@ + (if redirect {
        "<meta http-equiv=\"refresh\" content=\"2; url=/\">"@
    } else {
        Seq::<char>::empty()
    }) + "</head><body><p>"@ + message + "</p></body></html>"@
}

/// The message every infrastructure failure shows; it discloses nothing about
/// the failure.
pub open spec fn spec_e500_message() -> Seq<char> {
    "An internal server error occurred"@
}

/// A page holding a short notice, optionally redirecting to the entry point.
pub struct NoticePage {
    pub message: String,
    pub redirect: bool,
}

impl NoticePage {
    /// Render this page.
    pub fn render(&self) -> (r: String)
        ensures
            r@ == spec_notice_page(self.message@, self.redirect),
    {
        let mut s = "<!DOCTYPE html><html><head><title>Jotsy: notice</title>".to_owned();
        if self.redirect {
            s.append("<meta http-equiv=\"refresh\" content=\"2; url=/\">");
        }
        s.append("</head><body><p>");
        s.append(self.message.as_str());
        s.append("</p></body></html>");
        proof {
            assert(s@ =~= spec_notice_page(self.message@, self.redirect));
        }
        s
    }

    /// Render a notice page from its message and redirect flag.
    pub fn new(message: &str, redirect: bool) -> (r: String)
        ensures
            r@ == spec_notice_page(message@, redirect),
    {
        (NoticePage { message: message.to_owned(), redirect }).render()
    }

    /// Render a notice that sends the client back to the entry point.
    pub fn new_redirect(message: &str) -> (r: String)
        ensures
            r@ == spec_notice_page(message@, true),
    {
        Self::new(message, true)
    }

    /// The generic internal-error page body.
    pub fn e500() -> (r: String)
        ensures
            r@ == spec_notice_page(spec_e500_message(), false),
    {
        Self::new("An internal server error occurred", false)
    }

    /// The generic internal-error response: status 500, no detail disclosed.
    pub fn re500() -> (r: HttpResponse)
        ensures
            r.status == 500,
            r.body@ == spec_notice_page(spec_e500_message(), false),
    {
        HttpResponse { status: 500, body: Self::e500() }
    }

    /// A bare redirect back to the entry point, with no message.
    pub fn empty() -> (r: String)
        ensures
            r@ == spec_notice_page(Seq::<char>::empty(), true),
    {
        let r = Self::new("", true);
        proof {
            reveal_strlit("");
            assert(""@ =~= Seq::<char>::empty());
        }
        r
    }
}

/// The signup page, with an optional error notice.
pub open spec fn spec_signup_page(error: Option<Seq<char>>) -> Seq<char> {
    "<!DOCTYPE html><html><head><title>Jotsy: sign up</title></head><body><h1>Sign up</h1>"@ + (
    match error {
        Some(m) => "<p class=\"notice\">"@ + m + "</p>"@,
        None => Seq::<char>::empty(),
    }) + "<form action=\"/signup\" method=\"post\"><input name=\"username\"><input name=\"token\" type=\"password\"><button>Sign up</button></form></body></html>"@
}

/// The view of an optional borrowed message.
pub open spec fn spec_opt_message(o: Option<&str>) -> Option<Seq<char>> {
    match o {
        Some(m) => Some(m@),
        None => None,
    }
}

/// The page for establishing a new account.
pub struct SignupPage {
    pub error: Option<&'static str>,
}

impl SignupPage {
    /// Render this page.
    pub fn render(&self) -> (r: String)
        ensures
            r@ == spec_signup_page(spec_opt_message(self.error)),
    {
        let mut s =
            "<!DOCTYPE html><html><head><title>Jotsy: sign up</title></head><body><h1>Sign up</h1>".to_owned();
        match self.error {
            Some(m) => {
                s.append("<p class=\"notice\">");
                s.append(m);
                s.append("</p>");
            },
            None => {},
        }
        s.append(
            "<form action=\"/signup\" method=\"post\"><input name=\"username\"><input name=\"token\" type=\"password\"><button>Sign up</button></form></body></html>",
        );
        proof {
            assert(s@ =~= spec_signup_page(spec_opt_message(self.error)));
        }
        s
    }

    /// Render the signup page with an error notice.
    pub fn new(message: &'static str) -> (r: String)
        ensures
            r@ == spec_signup_page(Some(message@)),
    {
        (SignupPage { error: Some(message) }).render()
    }

    /// Render the signup page with no notice.
    pub fn empty() -> (r: String)
        ensures
            r@ == spec_signup_page(None),
    {
        (SignupPage { error: None }).render()
    }
}

/// The page showing one note, its body already converted to HTML.
pub open spec fn spec_single_note_page(html: Seq<char>) -> Seq<char> {
    "<!DOCTYPE html><html><head><title>Jotsy: note</title></head><body><article class=\"note\">"@
        + html + "</article></body></html>"@
}

/// A page holding a single note.
pub struct SingleNote {
    pub note: Note,
}

impl SingleNote {
    /// Render one note: its markup body is converted to HTML by the outside
    /// converter, everything around it is fixed framing.
    pub fn new(note: Note) -> (r: String)
        ensures
            r@ == spec_single_note_page(markdown_html_of(note.body@)),
    {
        let mut s =
            "<!DOCTYPE html><html><head><title>Jotsy: note</title></head><body><article class=\"note\">".to_owned();
        let html = markdown_to_html(note.body.as_str());
        s.append(html.as_str());
        s.append("</article></body></html>");
        proof {
            assert(s@ =~= spec_single_note_page(markdown_html_of(note.body@)));
        }
        s
    }
}

/// One note entry on the overview page.
pub open spec fn spec_note_item(n: Note) -> Seq<char> {
    "<div class=\"note\" id=\"note-"@ + dec_digits(n.id as nat) + "\">"@ + n.body@ + "</div>"@
}

/// All note entries, in the order given.
pub open spec fn spec_note_items(notes: Seq<Note>) -> Seq<char>
    decreases notes.len(),
{
    if notes.len() == 0 {
        Seq::<char>::empty()
    } else {
        spec_note_items(notes.drop_last()) + spec_note_item(notes.last())
    }
}

/// The authenticated overview page: the username, the note count, and every
/// note in order.
pub open spec fn spec_app_page(username: Seq<char>, count: nat, notes: Seq<Note>) -> Seq<char> {
    "<!DOCTYPE html><html><head><title>Jotsy</title></head><body><h1>Notes of "@ + username
        + "</h1><p>"@ + dec_digits(count) + " notes</p><main>"@ + spec_note_items(notes)
        + "</main></body></html>"@
}

/// Append one note entry to the page under construction.
fn push_note_item(n: &Note, out: &mut String)
    ensures
        final(out)@ == old(out)@ + spec_note_item(*n),
{
    out.append("<div class=\"note\" id=\"note-");
    push_dec(n.id, out);
    out.append("\">");
    out.append(n.body.as_str());
    out.append("</div>");
    proof {
        assert(out@ =~= old(out)@ + spec_note_item(*n));
    }
}

/// The authenticated overview of one user's notes.
pub struct App {
    pub username: String,
    pub count: usize,
    pub notes: Vec<Note>,
}

impl App {
    /// Render this page.
    pub fn render(&self) -> (r: String)
        ensures
            r@ == spec_app_page(self.username@, self.count as nat, self.notes@),
    {
        let mut s =
            "<!DOCTYPE html><html><head><title>Jotsy</title></head><body><h1>Notes of ".to_owned();
        s.append(self.username.as_str());
        s.append("</h1><p>");
        push_dec(self.count as u64, &mut s);
        s.append(" notes</p><main>");
        let ghost head = s@;
        let mut i: usize = 0;
        while i < self.notes.len()
            invariant
                i <= self.notes.len(),
                s@ == head + spec_note_items(self.notes@.take(i as int)),
            decreases self.notes.len() - i,
        {
            push_note_item(&self.notes[i], &mut s);
            proof {
                assert(self.notes@.take(i + 1 as int).drop_last() =~= self.notes@.take(i as int));
                assert(self.notes@.take(i + 1 as int).last() == self.notes@[i as int]);
                assert(head + spec_note_items(self.notes@.take(i as int)) + spec_note_item(
                    self.notes@[i as int],
                ) =~= head + spec_note_items(self.notes@.take(i + 1 as int)));
            }
            i = i + 1;
        }
        s.append("</main></body></html>");
        proof {
            assert(self.notes@.take(self.notes@.len() as int) =~= self.notes@);
            assert(s@ =~= spec_app_page(self.username@, self.count as nat, self.notes@));
        }
        s
    }

    /// Render the overview for a username and its notes; the shown count is
    /// the number of notes.
    pub fn new(username: String, notes: Vec<Note>) -> (r: String)
        ensures
            r@ == spec_app_page(username@, notes@.len(), notes@),
    {
        let count = notes.len();
        (App { username, count, notes }).render()
    }
}

/// The account page: the username and how many notes it keeps.
pub open spec fn spec_account_page(count: u64, username: Seq<char>) -> Seq<char> {
    "<!DOCTYPE html><html><head><title>Jotsy: account</title></head><body><h1>Account of "@
        + username + "</h1><p>Notes kept: "@ + dec_digits(count as nat) + "</p></body></html>"@
}

/// The account summary page.
pub struct Account {
    pub count: u64,
    pub username: String,
}

impl Account {
    /// Render the account page for a username and its note count.
    pub fn new(count: u64, username: String) -> (r: String)
        ensures
            r@ == spec_account_page(count, username@),
    {
        let mut s =
            "<!DOCTYPE html><html><head><title>Jotsy: account</title></head><body><h1>Account of ".to_owned();
        s.append(username.as_str());
        s.append("</h1><p>Notes kept: ");
        push_dec(count, &mut s);
        s.append("</p></body></html>");
        proof {
            assert(s@ =~= spec_account_page(count, username@));
        }
        s
    }
}

} // verus!
