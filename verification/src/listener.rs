//! The callback listener's state machine.
//!
//! One capture attempt moves through `Idle -> Listening -> (TokenCaptured
//! | Failed) -> Closed`. While listening, each inbound connection is read,
//! token extraction is attempted, and exactly one response page is written
//! back: the success page when a token was just captured, the generic
//! failure page otherwise (a probe without the parameter is tolerated and
//! listening continues). The first captured token ends the attempt, so at
//! most one connection per attempt is ever served the success page.
//!
//! The accepting, reading and writing of sockets is the caller's: the
//! machine here decides, from each connection's bytes, the next phase and
//! the response to serve.

use vstd::prelude::*;
use crate::token::{extract_spec, extract_token, lossy_decode};
use crate::AuthError;

verus! {

/// Relies on `portpicker::pick_unused_port`: it probes the OS for a free
/// local port; which port — and whether any — depends on the machine, so
/// nothing is promised of the outcome.
#[verifier::external_body]
fn pick_unused_port() -> (r: Option<u16>)
{
    portpicker::pick_unused_port()
}

/// Reserves a currently unused local port for the callback listener.
///
/// The reservation is only a probe: another process may claim the port
/// before the listener binds it, which then surfaces as `BindFailed`.
pub fn reserve_port() -> (r: Result<u16, AuthError>)
    ensures
        r matches Err(e) ==> e is NoPortAvailable,
{
    match pick_unused_port() {
        Some(p) => Ok(p),
        None => Err(AuthError::NoPortAvailable),
    }
}

/// The callback listener's phases.
#[derive(Clone, Copy, Debug, PartialEq, Eq, Structural)]
pub enum CapturePhase {
    Idle,
    Listening,
    TokenCaptured,
    Failed,
    Closed,
}

/// The success page: one fixed HTTP response, served exactly once per
/// attempt, on the connection that carried the token.
pub open spec fn success_page_spec() -> Seq<char> {
    "HTTP/1.1 200 OK\nContent-Type: text/html; charset=UTF-8\n\n<html>\n\t<head>\n\t\t<title>Logged in!</title>\n\t</head>\n\t<body>\n\t\t<h1>Logged in!</h1>\n\t\t<p>You can close this window now.</p>\n\t</body>\n</html>"@
}

/// The generic failure page, served on every other connection so the
/// browser tab never hangs.
pub open spec fn failure_page_spec() -> Seq<char> {
    "HTTP/1.1 401 Unauthorized\nContent-Type: text/html; charset=UTF-8\n\n<html>\n\t<head>\n\t\t<title>Failed to log in!</title>\n\t</head>\n\t<body>\n\t\t<h1>Failed to log in!</h1>\n\t\t<p>Please go back to the app and try again.</p>\n\t</body>\n</html>"@
}

/// The success page's text.
pub fn success_page() -> (r: &'static str)
    ensures
        r@ == success_page_spec(),
{
    "HTTP/1.1 200 OK\nContent-Type: text/html; charset=UTF-8\n\n<html>\n\t<head>\n\t\t<title>Logged in!</title>\n\t</head>\n\t<body>\n\t\t<h1>Logged in!</h1>\n\t\t<p>You can close this window now.</p>\n\t</body>\n</html>"
}

/// The failure page's text.
pub fn failure_page() -> (r: &'static str)
    ensures
        r@ == failure_page_spec(),
{
    "HTTP/1.1 401 Unauthorized\nContent-Type: text/html; charset=UTF-8\n\n<html>\n\t<head>\n\t\t<title>Failed to log in!</title>\n\t</head>\n\t<body>\n\t\t<h1>Failed to log in!</h1>\n\t\t<p>Please go back to the app and try again.</p>\n\t</body>\n</html>"
}

/// The response to write back on one connection.
pub struct HttpReply {
    /// Whether this connection was served the success page.
    pub success: bool,
    /// The full response text to write before closing the connection.
    pub page: String,
}

/// One step of the listener on one connection's decoded text: the next
/// phase, the captured token, and whether the success page is served.
pub open spec fn step_spec(
    phase: CapturePhase,
    tok: Option<Seq<char>>,
    s: Seq<char>,
) -> (CapturePhase, Option<Seq<char>>, bool) {
    if phase is Listening {
        match extract_spec(s) {
            Some(t) => (CapturePhase::TokenCaptured, Some(t), true),
            None => (CapturePhase::Listening, tok, false),
        }
    } else {
        (phase, tok, false)
    }
}

/// How many success pages a run of connections is served.
pub open spec fn success_count(
    phase: CapturePhase,
    tok: Option<Seq<char>>,
    inputs: Seq<Seq<char>>,
) -> nat
    decreases inputs.len(),
{
    if inputs.len() == 0 {
        0
    } else {
        let st = step_spec(phase, tok, inputs[0]);
        (if st.2 {
            1nat
        } else {
            0nat
        }) + success_count(st.0, st.1, inputs.drop_first())
    }
}

proof fn lemma_no_success_outside_listening(
    phase: CapturePhase,
    tok: Option<Seq<char>>,
    inputs: Seq<Seq<char>>,
)
    requires
        !(phase is Listening),
    ensures
        success_count(phase, tok, inputs) == 0,
    decreases inputs.len(),
{
    if inputs.len() > 0 {
        lemma_no_success_outside_listening(phase, tok, inputs.drop_first());
    }
}

/// The listener never serves more than one success page per capture
/// attempt, whatever connections arrive: capturing leaves the listening
/// phase, and only the listening phase can serve a success.
pub proof fn lemma_at_most_one_success(
    phase: CapturePhase,
    tok: Option<Seq<char>>,
    inputs: Seq<Seq<char>>,
)
    ensures
        success_count(phase, tok, inputs) <= 1,
    decreases inputs.len(),
{
    if inputs.len() > 0 {
        let st = step_spec(phase, tok, inputs[0]);
        if st.2 {
            lemma_no_success_outside_listening(st.0, st.1, inputs.drop_first());
        } else {
            lemma_at_most_one_success(st.0, st.1, inputs.drop_first());
        }
    }
}

/// Runtime state of one capture attempt.
pub struct CaptureSession {
    phase: CapturePhase,
    port: u16,
    token: Option<String>,
}

impl CaptureSession {
    /// The attempt's phase.
    pub closed spec fn phase(&self) -> CapturePhase {
        self.phase
    }

    /// The reserved port the listener binds.
    pub closed spec fn port(&self) -> u16 {
        self.port
    }

    /// The captured token's characters, once one was captured.
    pub closed spec fn token_chars(&self) -> Option<Seq<char>> {
        self.token.deep_view()
    }

    /// The attempt holds a token exactly in the captured phase.
    pub open spec fn wf(&self) -> bool {
        self.token_chars() is Some <==> self.phase() is TokenCaptured
    }

    /// A fresh attempt on a reserved port, not yet listening.
    pub fn start(port: u16) -> (r: Self)
        ensures
            r.phase() is Idle,
            r.port() == port,
            r.wf(),
    {
        CaptureSession { phase: CapturePhase::Idle, port, token: None }
    }

    /// Records that the listener is bound and observably accepting. The
    /// caller must complete the bind before launching the browser, so the
    /// provider's redirect cannot arrive before anything is listening.
    pub fn mark_listening(&mut self)
        requires
            old(self).phase() is Idle,
            old(self).wf(),
        ensures
            final(self).phase() is Listening,
            final(self).port() == old(self).port(),
            final(self).token_chars() == old(self).token_chars(),
            final(self).wf(),
    {
        self.phase = CapturePhase::Listening;
    }

    /// Handles one inbound connection's bytes: attempts extraction,
    /// decides the next phase, and yields the one response to write back.
    pub fn handle_connection(&mut self, raw: &[u8]) -> (r: HttpReply)
        requires
            old(self).phase() is Listening,
            old(self).wf(),
        ensures
            final(self).port() == old(self).port(),
            final(self).wf(),
            ({
                let st = step_spec(
                    old(self).phase(),
                    old(self).token_chars(),
                    lossy_decode(raw@),
                );
                &&& final(self).phase() == st.0
                &&& final(self).token_chars() == st.1
                &&& r.success == st.2
            }),
            r.success ==> r.page@ == success_page_spec(),
            !r.success ==> r.page@ == failure_page_spec(),
    {
        match extract_token(raw) {
            Some(t) => {
                self.phase = CapturePhase::TokenCaptured;
                self.token = Some(t);
                HttpReply { success: true, page: success_page().to_owned() }
            },
            None => HttpReply { success: false, page: failure_page().to_owned() },
        }
    }

    /// Records a terminal failure: a fatal I/O condition, or the caller
    /// ending the attempt with zero tokens captured.
    pub fn fail(&mut self)
        requires
            old(self).phase() is Idle || old(self).phase() is Listening,
            old(self).wf(),
        ensures
            final(self).phase() is Failed,
            final(self).port() == old(self).port(),
            final(self).token_chars() is None,
            final(self).wf(),
    {
        self.phase = CapturePhase::Failed;
    }

    /// Releases the attempt: the listener socket is closed and the port
    /// returns to the pool.
    pub fn close(&mut self)
        requires
            old(self).phase() is TokenCaptured || old(self).phase() is Failed,
        ensures
            final(self).phase() is Closed,
            final(self).port() == old(self).port(),
            final(self).token_chars() == old(self).token_chars(),
    {
        self.phase = CapturePhase::Closed;
    }

    /// Whether the attempt is accepting connections.
    pub fn is_listening(&self) -> (r: bool)
        ensures
            r == (self.phase() is Listening),
    {
        match self.phase {
            CapturePhase::Listening => true,
            _ => false,
        }
    }

    /// Whether the attempt has captured its token.
    pub fn has_token(&self) -> (r: bool)
        ensures
            r == (self.phase() is TokenCaptured),
    {
        match self.phase {
            CapturePhase::TokenCaptured => true,
            _ => false,
        }
    }

    /// Consumes the attempt, yielding the captured token if any.
    pub fn into_token(self) -> (r: Option<String>)
        ensures
            r.deep_view() == self.token_chars(),
    {
        self.token
    }
}

} // verus!
