//! The window's handle on the long-lived privileged helper: the command that
//! starts it, the one child process it reuses for a whole session, and how a
//! failed exchange is reported.
use vstd::prelude::*;
use crate::text::{concat, has_prefix};

verus! {

/// Declares `std::io::Error` so that errors of the helper's pipes can be carried.
#[verifier::external_type_specification]
#[verifier::external_body]
pub struct ExIoError(std::io::Error);

/// Why an exchange with the helper failed.
#[derive(Debug)]
pub enum HelperError {
    /// The user dismissed the password prompt (pkexec exited with 126 or 127).
    AuthCanceled,
    /// The helper ended without answering; the text is what it wrote to stderr.
    Crashed(String),
    /// Reading from or writing to the helper failed.
    Io(std::io::Error),
    /// A message could not be encoded or decoded.
    Protocol(String),
}

/// Why the helper could not be started.
#[derive(Debug)]
pub enum SpawnFailure {
    /// The program was not found.
    NotFound,
    /// Any other error of the operating system.
    Other(std::io::Error),
}

/// Where the privileged helper is installed. It lives in libexecdir, which is
/// not on `$PATH`, so pkexec must be given this absolute path.
pub const DEFAULT_HELPER_PATH: &'static str = "/usr/libexec/scx-synse-helper";

/// The program that runs the helper with privileges.
pub const PKEXEC: &'static str = "pkexec";

/// The exit codes with which pkexec reports that authorization was not given.
pub open spec fn is_auth_refusal(code: Option<i32>) -> bool {
    code == Some(126i32) || code == Some(127i32)
}

/// The error for a helper that closed its output before answering: an exit
/// code of 126 or 127 means the password prompt was dismissed; anything else
/// (another code, or none yet) is a crash reported with the helper's stderr.
pub fn eof_error(exit_code: Option<i32>, stderr: String) -> (e: HelperError)
    ensures
        is_auth_refusal(exit_code) ==> e is AuthCanceled,
        !is_auth_refusal(exit_code) ==> (e matches HelperError::Crashed(s) && s@ == stderr@),
{
    match exit_code {
        Some(code) => {
            if code == 126 || code == 127 {
                return HelperError::AuthCanceled;
            }
        },
        None => {},
    }
    HelperError::Crashed(stderr)
}

/// The text after a missing program's name in its error.
pub const NOT_FOUND_SUFFIX: &'static str = " not found in PATH";

/// The error for a helper that could not be started: a missing program is
/// reported as a crash naming it, any other failure as an I/O error.
pub fn spawn_error(program: &str, failure: SpawnFailure) -> (e: HelperError)
    ensures
        failure is NotFound ==> (e matches HelperError::Crashed(s) && s@ == program@ + NOT_FOUND_SUFFIX@),
        failure is Other ==> (e matches HelperError::Io(x) && failure == SpawnFailure::Other(x)),
{
    match failure {
        SpawnFailure::NotFound => HelperError::Crashed(concat(program, NOT_FOUND_SUFFIX)),
        SpawnFailure::Other(err) => HelperError::Io(err),
    }
}

/// The text before the decoder's complaint about an answer.
pub const DECODE_PREFIX: &'static str = "decode: ";

/// The error for an answer that does not decode.
pub fn decode_error(detail: &str) -> (e: HelperError)
    ensures
        e matches HelperError::Protocol(s) && s@ == DECODE_PREFIX@ + detail@,
{
    HelperError::Protocol(concat(DECODE_PREFIX, detail))
}

/// Long-lived privileged helper client. It starts the helper once, on the
/// first request, and then reuses the same child for every later request:
/// that is how a single pkexec prompt covers a whole session. `C` is the
/// running child with its pipes.
pub struct HelperClient<C> {
    program: String,
    args: Vec<String>,
    child: Option<C>,
}

/// A client's command with its text taken as characters, and its child.
pub struct HelperClientView<C> {
    pub program: Seq<char>,
    pub args: Seq<Seq<char>>,
    pub child: Option<C>,
}

impl<C> View for HelperClient<C> {
    type V = HelperClientView<C>;

    closed spec fn view(&self) -> HelperClientView<C> {
        HelperClientView {
            program: self.program@,
            args: self.args@.map_values(|a: String| a@),
            child: self.child,
        }
    }
}

/// A change that the window makes to its client during a session.
pub enum ClientEvent<C> {
    /// The helper was started; the window does this only when none runs.
    Started(C),
    /// A request was exchanged with the running child, which is now as given.
    Talked(C),
    /// The helper closed its output without answering; the session ends.
    Ended,
}

/// The client after one event.
pub open spec fn after_event<C>(v: HelperClientView<C>, e: ClientEvent<C>) -> HelperClientView<C> {
    match e {
        ClientEvent::Started(c) => if v.child is None {
            HelperClientView { child: Some(c), ..v }
        } else {
            v
        },
        ClientEvent::Talked(c) => if v.child is Some {
            HelperClientView { child: Some(c), ..v }
        } else {
            v
        },
        ClientEvent::Ended => HelperClientView { child: None, ..v },
    }
}

/// The client after a run of events.
pub open spec fn after_events<C>(v: HelperClientView<C>, es: Seq<ClientEvent<C>>) -> HelperClientView<C>
    decreases es.len(),
{
    if es.len() == 0 {
        v
    } else {
        after_events(after_event(v, es[0]), es.drop_first())
    }
}

/// How many helpers a run of events starts (each start is one password prompt).
pub open spec fn spawns<C>(v: HelperClientView<C>, es: Seq<ClientEvent<C>>) -> nat
    decreases es.len(),
{
    if es.len() == 0 {
        0
    } else {
        (if v.child is None && es[0] is Started { 1nat } else { 0nat }) + spawns(after_event(v, es[0]), es.drop_first())
    }
}

/// No event of the run ends the session.
pub open spec fn session_continues<C>(es: Seq<ClientEvent<C>>) -> bool {
    forall|i: int| 0 <= i < es.len() ==> !(#[trigger] es[i] is Ended)
}

/// Once a helper runs, later requests reuse it: until the session ends, the
/// client keeps a child, its command is unchanged, and no other helper is
/// started.
pub proof fn lemma_running_child_is_reused<C>(v: HelperClientView<C>, es: Seq<ClientEvent<C>>)
    requires
        v.child is Some,
        session_continues(es),
    ensures
        after_events(v, es).child is Some,
        after_events(v, es).program == v.program,
        after_events(v, es).args == v.args,
        spawns(v, es) == 0,
    decreases es.len(),
{
    if es.len() > 0 {
        let rest = es.drop_first();
        assert(!(es[0] is Ended));
        assert forall|i: int| 0 <= i < rest.len() implies !(#[trigger] rest[i] is Ended) by {
            assert(rest[i] == es[i + 1]);
        }
        lemma_running_child_is_reused(after_event(v, es[0]), rest);
    }
}

/// A session starts the helper at most once: one password prompt per session.
pub proof fn lemma_one_spawn_per_session<C>(v: HelperClientView<C>, es: Seq<ClientEvent<C>>)
    requires
        session_continues(es),
    ensures
        spawns(v, es) <= 1,
    decreases es.len(),
{
    if es.len() > 0 {
        let rest = es.drop_first();
        let w = after_event(v, es[0]);
        assert(!(es[0] is Ended));
        assert forall|i: int| 0 <= i < rest.len() implies !(#[trigger] rest[i] is Ended) by {
            assert(rest[i] == es[i + 1]);
        }
        if w.child is Some {
            lemma_running_child_is_reused(w, rest);
        } else {
            lemma_one_spawn_per_session(w, rest);
        }
    }
}

impl<C> HelperClient<C> {
    /// A client that will run `program` with `args`; nothing is started yet.
    pub fn with_command(program: &str, args: &[String]) -> (c: Self)
        ensures
            c@.program == program@,
            c@.args == args@.map_values(|a: String| a@),
            c@.child is None,
    {
        let mut copied: Vec<String> = Vec::new();
        let n = args.len();
        let mut i: usize = 0;
        while i < n
            invariant
                n == args@.len(),
                i <= n,
                copied@.len() == i,
                forall|j: int| 0 <= j < i ==> #[trigger] copied@[j] == args@[j],
            decreases n - i,
        {
            copied.push(args[i].clone());
            i = i + 1;
        }
        assert(copied@ =~= args@);
        HelperClient { program: program.to_owned(), args: copied, child: None }
    }

    /// The production client: pkexec running the helper by its absolute path.
    /// The path is the one fixed when the program was built (from meson's
    /// libexecdir, `built_helper_path`), or the standard location when the
    /// build fixed none.
    pub fn pkexec(built_helper_path: Option<&str>) -> (c: Self)
        ensures
            c@.program == PKEXEC@,
            c@.args == seq![
                match built_helper_path {
                    Some(p) => p@,
                    None => DEFAULT_HELPER_PATH@,
                },
            ],
            c@.child is None,
            built_helper_path is None ==> has_prefix(c@.args[0], "/"@),
    {
        let helper: &str = match built_helper_path {
            Some(p) => p,
            None => DEFAULT_HELPER_PATH,
        };
        let mut args: Vec<String> = Vec::new();
        args.push(helper.to_owned());
        let c = Self::with_command(PKEXEC, args.as_slice());
        proof {
            reveal_strlit("/usr/libexec/scx-synse-helper");
            reveal_strlit("/");
            assert(c@.args =~= seq![helper@]);
            if built_helper_path is None {
                assert(c@.args[0].subrange(0, 1) =~= "/"@);
            }
        }
        c
    }

    /// The program that starts the helper.
    pub fn program(&self) -> (p: &str)
        ensures
            p@ == self@.program,
    {
        self.program.as_str()
    }

    /// The arguments given to the program.
    pub fn args(&self) -> (a: &[String])
        ensures
            a@.map_values(|s: String| s@) == self@.args,
    {
        self.args.as_slice()
    }

    /// Whether the helper has still to be started before the next request.
    pub fn needs_spawn(&self) -> (r: bool)
        ensures
            r == self@.child is None,
    {
        self.child.is_none()
    }

    /// The running child, if the helper has been started.
    pub fn child(&self) -> (c: Option<&C>)
        ensures
            c == match self@.child {
                Some(x) => Some(&x),
                None => None::<&C>,
            },
    {
        self.child.as_ref()
    }

    /// The running child, for talking to it; the client keeps it.
    pub fn child_mut(&mut self) -> (c: Option<&mut C>)
        ensures
            final(self)@.program == old(self)@.program,
            final(self)@.args == old(self)@.args,
            match old(self)@.child {
                None => c is None && final(self)@.child is None,
                Some(x) => c is Some && *c.unwrap() == x && final(self)@.child == Some(*final(c.unwrap()))
                    && final(self)@ == after_event(old(self)@, ClientEvent::Talked(*final(c.unwrap()))),
            },
    {
        self.child.as_mut()
    }

    /// Keeps a freshly started child for every later request.
    pub fn attach(&mut self, child: C)
        requires
            old(self)@.child is None,
        ensures
            final(self)@.program == old(self)@.program,
            final(self)@.args == old(self)@.args,
            final(self)@.child == Some(child),
            final(self)@ == after_event(old(self)@, ClientEvent::Started(child)),
    {
        self.child = Some(child);
    }

    /// Ends the session after the helper closed its output before answering:
    /// the child is let go (it is then killed), so that the next request
    /// starts a new one, and the error is reported as `eof_error` says.
    pub fn end_session(&mut self, exit_code: Option<i32>, stderr: String) -> (e: HelperError)
        ensures
            final(self)@.program == old(self)@.program,
            final(self)@.args == old(self)@.args,
            final(self)@.child is None,
            final(self)@ == after_event(old(self)@, ClientEvent::Ended),
            is_auth_refusal(exit_code) ==> e is AuthCanceled,
            !is_auth_refusal(exit_code) ==> (e matches HelperError::Crashed(s) && s@ == stderr@),
    {
        self.child = None;
        eof_error(exit_code, stderr)
    }
}

} // verus!
