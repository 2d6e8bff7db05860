//! The page shown where the local server could not start.
use crate::startup::{escaped, html_escape};
use crate::text::{decimal, decimal_text, joined};
use vstd::prelude::*;

verus! {

/// The page up to the message.
pub const PAGE_HEAD: &'static str = "<main style=\"font-family: -apple-system, BlinkMacSystemFont, 'Segoe UI', sans-serif; padding: 32px; color: #f8fafc; background: #0f172a; min-height: 100vh; box-sizing: border-box;\">\n<h1 style=\"margin: 0 0 12px; font-size: 22px;\">Home Energy Manager could not start its local server</h1>\n<p style=\"line-height: 1.5; max-width: 720px; color: #cbd5e1;\">The app could not bind a local HTTP port, so it has not connected to any existing server. This avoids accidentally showing an older installed version.</p>\n<pre style=\"white-space: pre-wrap; background: #1e293b; color: #e2e8f0; padding: 16px; border-radius: 12px; max-width: 720px;\">";

/// The page behind the message.
pub const PAGE_TAIL: &'static str = "</pre>\n<p style=\"line-height: 1.5; max-width: 720px; color: #cbd5e1;\">Quit any other Home Energy Manager processes and reopen the app.</p>\n</main>";

/// The last digit of a number in lower-case hexadecimal.
pub open spec fn hex_char(n: int) -> char {
    if n % 16 < 10 {
        (n % 16 + '0' as int) as char
    } else {
        (n % 16 - 10 + 'a' as int) as char
    }
}

/// What stands for a character in a JSON string.
pub open spec fn json_char(c: char) -> Seq<char> {
    if c == '"' || c == '\\' {
        seq!['\\', c]
    } else if c == '\n' {
        seq!['\\', 'n']
    } else if c == '\r' {
        seq!['\\', 'r']
    } else if c == '\t' {
        seq!['\\', 't']
    } else if c as u32 == 8 {
        seq!['\\', 'b']
    } else if c as u32 == 12 {
        seq!['\\', 'f']
    } else if (c as u32) < 32 {
        seq!['\\', 'u', '0', '0', hex_char(c as int / 16), hex_char(c as int)]
    } else {
        seq![c]
    }
}

/// What stands for a text between the quotes of a JSON string.
pub open spec fn json_chars(text: Seq<char>) -> Seq<char>
    decreases text.len(),
{
    if text.len() == 0 {
        Seq::empty()
    } else {
        json_chars(text.drop_last()) + json_char(text.last())
    }
}

/// A text as a JSON string.
pub open spec fn json_string(text: Seq<char>) -> Seq<char> {
    seq!['"'] + json_chars(text) + seq!['"']
}

/// Writes a text as a JSON string with `serde_json::to_string`, which puts it
/// between quotes, escapes quotes, backslashes and control characters, and
/// cannot fail on a text.
#[verifier::external_body]
fn quote_json(text: &str) -> (r: Option<String>)
    ensures
        r is Some,
        r->0@ == json_string(text@),
{
    serde_json::to_string(text).ok()
}

/// The page with a message in it.
pub fn startup_error_page(message: &str) -> (r: String)
    ensures
        r@ == PAGE_HEAD@ + escaped(message@) + PAGE_TAIL@,
{
    let shown: String = html_escape(message);
    let head: String = joined(PAGE_HEAD, shown.as_str());
    joined(head.as_str(), PAGE_TAIL)
}

/// The script that shows `message` on the error page.
pub open spec fn error_script(message: Seq<char>) -> Seq<char> {
    "document.body.innerHTML = "@ + json_string(PAGE_HEAD@ + escaped(message) + PAGE_TAIL@) + ";"@
}

/// The script that shows the page with a message in a window.
pub fn startup_error_script(message: &str) -> (r: String)
    ensures
        r@ == error_script(message@),
{
    let page: String = startup_error_page(message);
    match quote_json(page.as_str()) {
        Some(argument) => {
            let head: String = joined("document.body.innerHTML = ", argument.as_str());
            joined(head.as_str(), ";")
        },
        None => String::new(),
    }
}

/// How the local server's attempt to take a port ended.
#[derive(Clone, Debug)]
pub enum BindOutcome {
    /// It listens on this port.
    Bound(u16),
    /// It could not start, for this reason.
    Refused(String),
    /// Nothing was heard of it in time.
    TimedOut(String),
}

/// The script to run in the window: go to the local server on the port it has
/// taken, or show why it has none.
pub fn window_script(outcome: &BindOutcome) -> (r: String)
    ensures
        r@ == match *outcome {
            BindOutcome::Bound(port) => "window.location.replace('http://127.0.0.1:"@ + decimal(
                port as nat,
            ) + "')"@,
            BindOutcome::Refused(reason) => error_script(reason@),
            BindOutcome::TimedOut(reason) => error_script(
                "Timed out waiting for embedded HTTP server to bind: "@ + reason@,
            ),
        },
{
    match outcome {
        BindOutcome::Bound(port) => {
            let number: String = decimal_text(*port);
            let head: String = joined(
                "window.location.replace('http://127.0.0.1:",
                number.as_str(),
            );
            joined(head.as_str(), "')")
        },
        BindOutcome::Refused(reason) => startup_error_script(reason.as_str()),
        BindOutcome::TimedOut(reason) => {
            let message: String = joined(
                "Timed out waiting for embedded HTTP server to bind: ",
                reason.as_str(),
            );
            startup_error_script(message.as_str())
        },
    }
}

/// A text is put into a JSON string part by part.
pub proof fn law_json_goes_by_parts(a: Seq<char>, b: Seq<char>)
    ensures
        json_chars(a + b) == json_chars(a) + json_chars(b),
    decreases b.len(),
{
    if b.len() == 0 {
        assert(a + b =~= a);
        assert(json_chars(a) + json_chars(b) =~= json_chars(a));
    } else {
        law_json_goes_by_parts(a, b.drop_last());
        assert((a + b).drop_last() =~= a + b.drop_last());
        assert(json_chars(a + b) =~= json_chars(a) + json_chars(b));
    }
}

/// The script hands one JSON string to the page: its frame, around the message
/// with its markup escaped.
pub proof fn law_script_shows_the_escaped_message(message: Seq<char>)
    ensures
        error_script(message) == "document.body.innerHTML = "@ + seq!['"'] + json_chars(PAGE_HEAD@)
            + json_chars(escaped(message)) + json_chars(PAGE_TAIL@) + seq!['"'] + ";"@,
{
    law_json_goes_by_parts(PAGE_HEAD@, escaped(message));
    law_json_goes_by_parts(PAGE_HEAD@ + escaped(message), PAGE_TAIL@);
    assert(error_script(message) =~= "document.body.innerHTML = "@ + seq!['"'] + json_chars(
        PAGE_HEAD@,
    ) + json_chars(escaped(message)) + json_chars(PAGE_TAIL@) + seq!['"'] + ";"@);
}

/// Between the quotes of a JSON string a quote stands only behind a backslash,
/// and no control character stands at all: the argument of the script cannot
/// end early.
pub proof fn law_json_string_cannot_end_early(text: Seq<char>)
    ensures
        forall|i: int|
            0 <= i < json_chars(text).len() ==> (#[trigger] json_chars(text)[i]) as u32 >= 32,
        forall|i: int|
            0 <= i < json_chars(text).len() && #[trigger] json_chars(text)[i] == '"' ==> i > 0
                && json_chars(text)[i - 1] == '\\',
    decreases text.len(),
{
    if text.len() > 0 {
        law_json_string_cannot_end_early(text.drop_last());
        let head = json_chars(text.drop_last());
        let tail = json_char(text.last());
        let all = json_chars(text);
        assert(all == head + tail);
        assert forall|i: int| 0 <= i < tail.len() implies (#[trigger] tail[i]) as u32 >= 32 by {}
        assert forall|i: int| 0 <= i < all.len() implies (#[trigger] all[i]) as u32 >= 32 by {
            if i < head.len() {
                assert(all[i] == head[i]);
            } else {
                assert(all[i] == tail[i - head.len()]);
            }
        }
        assert forall|i: int| 0 <= i < all.len() && #[trigger] all[i] == '"' implies i > 0 && all[i
            - 1] == '\\' by {
            if i < head.len() {
                assert(all[i] == head[i]);
                assert(all[i - 1] == head[i - 1]);
            } else {
                assert(all[i] == tail[i - head.len()]);
                assert(all[i - 1] == tail[i - 1 - head.len()]);
            }
        }
    }
}

} // verus!
