//! The connection of a workspace to the daemon: what is waited for, what came
//! unasked, and who gets which answer.

use vstd::prelude::*;

use crate::mcp::errors::{about, quoted};
use crate::proto::envelope::MessageType;
use crate::proto::payloads::RegisterPayload;
use crate::proto::types::Message;
use crate::text::{same, texts};

verus! {

broadcast use vstd::string::group_string_axioms;

/// How long an answer is waited for where nothing else is said, in milliseconds.
pub const DEFAULT_REQUEST_TIMEOUT: u64 = 60000;

/// Why a request got no answer.
#[derive(Debug, Clone)]
pub enum DaemonClientError {
    Connect { path: String, source: String },
    Disconnected,
    Timeout { kind: MessageType, elapsed: String },
    Daemon(String),
    Encode(String),
    Write(String),
    Register(String),
}

/// What is said of a request without an answer.
pub open spec fn client_error_text(e: DaemonClientError) -> Seq<char> {
    match e {
        DaemonClientError::Connect { path, source } => "connect to daemon "@ + quoted(path@) + ": "@
            + source@,
        DaemonClientError::Disconnected => "daemon connection closed"@,
        DaemonClientError::Timeout { kind, elapsed } => "request "@ + kind.name()@
            + " timed out after "@ + elapsed@,
        DaemonClientError::Daemon(text) => "daemon error: "@ + text@,
        DaemonClientError::Encode(text) => "encode envelope: "@ + text@,
        DaemonClientError::Write(text) => "write envelope: "@ + text@,
        DaemonClientError::Register(text) => "register: "@ + text@,
    }
}

impl DaemonClientError {
    /// What is said of a request without an answer.
    pub fn text(&self) -> (r: String)
        ensures
            r@ == client_error_text(*self),
    {
        match self {
            DaemonClientError::Connect { path, source } => about(
                "connect to daemon ",
                path.as_str(),
                ": ",
            ).concat(source.as_str()),
            DaemonClientError::Disconnected => "daemon connection closed".to_owned(),
            DaemonClientError::Timeout { kind, elapsed } => "request ".to_owned().concat(
                kind.name(),
            ).concat(" timed out after ").concat(elapsed.as_str()),
            DaemonClientError::Daemon(text) => "daemon error: ".to_owned().concat(text.as_str()),
            DaemonClientError::Encode(text) => "encode envelope: ".to_owned().concat(
                text.as_str(),
            ),
            DaemonClientError::Write(text) => "write envelope: ".to_owned().concat(text.as_str()),
            DaemonClientError::Register(text) => "register: ".to_owned().concat(text.as_str()),
        }
    }
}

/// What a workspace tells the daemon of itself. Times are in milliseconds.
#[derive(Debug, Clone)]
pub struct Registration {
    pub dir: String,
    pub description: String,
    pub config_path: String,
    pub idle_timeout: u64,
}

/// A connection that is about to be made.
#[derive(Debug, Clone)]
pub struct DaemonClientBuilder {
    pub socket_path: String,
    pub workspace: String,
    pub registration: Registration,
    pub request_timeout: u64,
}

impl DaemonClientBuilder {
    /// Says where the workspace lies.
    pub fn dir(self, dir: String) -> (r: DaemonClientBuilder)
        ensures
            r == (DaemonClientBuilder {
                registration: Registration { dir, ..self.registration },
                ..self
            }),
    {
        let mut r = self;
        r.registration.dir = dir;
        r
    }

    /// Says what the workspace is for.
    pub fn description(self, description: String) -> (r: DaemonClientBuilder)
        ensures
            r == (DaemonClientBuilder {
                registration: Registration { description, ..self.registration },
                ..self
            }),
    {
        let mut r = self;
        r.registration.description = description;
        r
    }

    /// Says where the configuration lies.
    pub fn config_path(self, config_path: String) -> (r: DaemonClientBuilder)
        ensures
            r == (DaemonClientBuilder {
                registration: Registration { config_path, ..self.registration },
                ..self
            }),
    {
        let mut r = self;
        r.registration.config_path = config_path;
        r
    }

    /// Says after how long without work the workspace may be put to sleep.
    pub fn idle_timeout(self, idle_timeout: u64) -> (r: DaemonClientBuilder)
        ensures
            r == (DaemonClientBuilder {
                registration: Registration { idle_timeout, ..self.registration },
                ..self
            }),
    {
        let mut r = self;
        r.registration.idle_timeout = idle_timeout;
        r
    }

    /// Says how long an answer is waited for.
    pub fn request_timeout(self, timeout: u64) -> (r: DaemonClientBuilder)
        ensures
            r == (DaemonClientBuilder { request_timeout: timeout, ..self }),
    {
        let mut r = self;
        r.request_timeout = timeout;
        r
    }

    /// What the daemon is told when the connection is made; `cwd` is the
    /// directory of the process, which stands in where none was given.
    pub fn register_payload(&self, cwd: &str) -> (r: RegisterPayload)
        ensures
            r.workspace@ == self.workspace@,
            r.dir@ == if self.registration.dir@.len() == 0 { cwd@ } else { self.registration.dir@ },
            r.description@ == self.registration.description@,
            r.config_path@ == self.registration.config_path@,
            r.idle_timeout_seconds == self.registration.idle_timeout / 1000,
    {
        let reg = &self.registration;
        RegisterPayload {
            workspace: self.workspace.clone(),
            dir: if reg.dir.as_str().is_empty() {
                cwd.to_owned()
            } else {
                reg.dir.clone()
            },
            description: reg.description.clone(),
            config_path: reg.config_path.clone(),
            idle_timeout_seconds: (reg.idle_timeout / 1000) as i64,
        }
    }

    /// The connection, once the socket is open: nothing is waited for yet.
    pub fn connected(self) -> (r: DaemonClient)
        ensures
            r.socket_path == self.socket_path,
            r.workspace == self.workspace,
            r.request_timeout == self.request_timeout,
            is_quiet(r@),
    {
        let r = DaemonClient {
            socket_path: self.socket_path,
            workspace: self.workspace,
            request_timeout: self.request_timeout,
            pending: Vec::new(),
            pushes: Vec::new(),
        };
        proof {
            assert(texts(r.pending@) =~= Seq::empty());
        }
        r
    }
}

/// The connection of a workspace to the daemon.
#[derive(Debug, Clone)]
pub struct DaemonClient {
    pub socket_path: String,
    pub workspace: String,
    /// In milliseconds; none where it is zero.
    pub request_timeout: u64,
    /// The identifiers of the requests that wait for an answer, oldest first.
    pub pending: Vec<String>,
    /// What came unasked and was not fetched yet, oldest first.
    pub pushes: Vec<Message>,
}

/// A connection as a value: where it leads, whose it is, how long answers are
/// waited for, what is waited for and what came unasked.
pub struct Traffic {
    pub socket_path: Seq<char>,
    pub workspace: Seq<char>,
    pub request_timeout: u64,
    pub pending: Seq<Seq<char>>,
    pub pushes: Seq<Message>,
}

impl View for DaemonClient {
    type V = Traffic;

    open spec fn view(&self) -> Traffic {
        Traffic {
            socket_path: self.socket_path@,
            workspace: self.workspace@,
            request_timeout: self.request_timeout,
            pending: texts(self.pending@),
            pushes: self.pushes@,
        }
    }
}

/// Nothing is waited for and nothing came unasked.
pub open spec fn is_quiet(t: Traffic) -> bool {
    t.pending.len() == 0 && t.pushes.len() == 0
}

/// `ids` without `id`.
pub open spec fn without(ids: Seq<Seq<char>>, id: Seq<char>) -> Seq<Seq<char>>
    decreases ids.len(),
{
    if ids.len() == 0 {
        Seq::empty()
    } else if ids.last() == id {
        without(ids.drop_last(), id)
    } else {
        without(ids.drop_last(), id).push(ids.last())
    }
}

/// The state after a request with the identifier `id` was sent.
pub open spec fn after_sent(t: Traffic, id: Seq<char>) -> Traffic {
    Traffic { pending: without(t.pending, id).push(id), ..t }
}

/// The state after nobody waits for the answer to `id` any more.
pub open spec fn after_given_up(t: Traffic, id: Seq<char>) -> Traffic {
    Traffic { pending: without(t.pending, id), ..t }
}

/// An envelope from the daemon; what it carries is only read where it is needed.
#[derive(Debug, Clone)]
pub enum Incoming {
    /// A message that nobody asked for, if it could be read.
    Push(Option<Message>),
    /// The answer to the request with this identifier.
    Answer(String),
    /// Anything else.
    Other,
}

/// What is to be done with an envelope.
#[derive(Debug, Clone)]
pub enum Delivery {
    /// It is handed to whoever waits for the answer to this request.
    To(String),
    /// Nothing.
    Nowhere,
}

/// The state after an envelope came: a message that could be read is kept; an
/// answer is no longer waited for.
pub open spec fn after_received(t: Traffic, incoming: Incoming) -> Traffic {
    match incoming {
        Incoming::Push(Some(m)) => Traffic { pushes: t.pushes.push(m), ..t },
        Incoming::Push(None) => t,
        Incoming::Answer(id) => after_given_up(t, id@),
        Incoming::Other => t,
    }
}

/// Who an envelope goes to: an answer, to the request that waits for it.
pub open spec fn receiver(t: Traffic, incoming: Incoming) -> Option<Seq<char>> {
    match incoming {
        Incoming::Answer(id) => if t.pending.contains(id@) {
            Some(id@)
        } else {
            None
        },
        _ => None,
    }
}

/// Who is meant by a delivery.
pub open spec fn delivered_to(d: Delivery) -> Option<Seq<char>> {
    match d {
        Delivery::To(id) => Some(id@),
        Delivery::Nowhere => None,
    }
}

impl DaemonClient {
    /// A connection that is about to be made. Nothing is said of the workspace
    /// but its name, and answers are waited for as long as usual.
    pub fn builder(socket_path: String, workspace: String) -> (r: DaemonClientBuilder)
        ensures
            r.socket_path == socket_path,
            r.workspace == workspace,
            r.registration.dir@.len() == 0,
            r.registration.description@.len() == 0,
            r.registration.config_path@.len() == 0,
            r.registration.idle_timeout == 0,
            r.request_timeout == DEFAULT_REQUEST_TIMEOUT,
    {
        DaemonClientBuilder {
            socket_path,
            workspace,
            registration: Registration {
                dir: String::new(),
                description: String::new(),
                config_path: String::new(),
                idle_timeout: 0,
            },
            request_timeout: DEFAULT_REQUEST_TIMEOUT,
        }
    }

    /// The name of the workspace.
    pub fn workspace(&self) -> (r: &str)
        ensures
            r@ == self.workspace@,
    {
        self.workspace.as_str()
    }

    /// Where the daemon's socket lies.
    pub fn socket_path(&self) -> (r: &str)
        ensures
            r@ == self.socket_path@,
    {
        self.socket_path.as_str()
    }

    /// Says how long answers are waited for from now on.
    pub fn set_request_timeout(&mut self, timeout: u64)
        ensures
            *final(self) == (DaemonClient { request_timeout: timeout, ..*old(self) }),
    {
        self.request_timeout = timeout;
    }

    /// Fetches what came unasked.
    pub fn take_push_messages(&mut self) -> (r: Vec<Message>)
        ensures
            r@ == old(self)@.pushes,
            final(self)@ == (Traffic { pushes: Seq::empty(), ..old(self)@ }),
            final(self).request_timeout == old(self).request_timeout,
            final(self).workspace == old(self).workspace,
            final(self).socket_path == old(self).socket_path,
    {
        let mut r: Vec<Message> = Vec::new();
        std::mem::swap(&mut r, &mut self.pushes);
        r
    }

    /// Takes an identifier out, and tells whether it was there.
    fn forget(&mut self, id: &str) -> (r: bool)
        ensures
            r == old(self)@.pending.contains(id@),
            final(self)@ == after_given_up(old(self)@, id@),
            final(self).request_timeout == old(self).request_timeout,
            final(self).workspace == old(self).workspace,
            final(self).socket_path == old(self).socket_path,
    {
        let ghost ids = texts(self.pending@);
        let mut kept: Vec<String> = Vec::new();
        let mut found = false;
        let mut i: usize = 0;
        proof {
            assert(texts(kept@) =~= Seq::empty());
        }
        while i < self.pending.len()
            invariant
                i <= self.pending@.len(),
                ids == texts(self.pending@),
                texts(kept@) == without(ids.take(i as int), id@),
                found == ids.take(i as int).contains(id@),
            decreases self.pending@.len() - i,
        {
            let ghost seen = ids.take(i as int);
            let ghost now = ids.take(i + 1);
            proof {
                assert(now.drop_last() =~= seen);
                assert(now.last() == self.pending@[i as int]@);
                assert(now =~= seen.push(now.last()));
                assert(now.contains(id@) == (seen.contains(id@) || now.last() == id@)) by {
                    if seen.contains(id@) {
                        let j = choose|j: int| 0 <= j < seen.len() && seen[j] == id@;
                        assert(now[j] == id@);
                    }
                    if now.last() == id@ {
                        assert(now[i as int] == id@);
                    }
                    if now.contains(id@) {
                        let j = choose|j: int| 0 <= j < now.len() && now[j] == id@;
                        if j < i {
                            assert(seen[j] == id@);
                        }
                    }
                }
            }
            if same(self.pending[i].as_str(), id) {
                found = true;
            } else {
                let ghost pre = kept@;
                kept.push(self.pending[i].clone());
                proof {
                    assert(texts(kept@) =~= texts(pre).push(now.last()));
                }
            }
            i = i + 1;
        }
        proof {
            assert(ids.take(ids.len() as int) =~= ids);
        }
        self.pending = kept;
        found
    }

    /// A request with a fresh identifier goes out.
    pub fn sent(&mut self, id: String)
        ensures
            final(self)@ == after_sent(old(self)@, id@),
            final(self).request_timeout == old(self).request_timeout,
            final(self).workspace == old(self).workspace,
            final(self).socket_path == old(self).socket_path,
    {
        self.forget(id.as_str());
        let ghost pre = self.pending@;
        self.pending.push(id);
        proof {
            assert(texts(self.pending@) =~= texts(pre).push(id@));
        }
    }

    /// A request could not be written, or was waited for too long.
    pub fn give_up(&mut self, id: &str)
        ensures
            final(self)@ == after_given_up(old(self)@, id@),
            final(self).request_timeout == old(self).request_timeout,
            final(self).workspace == old(self).workspace,
            final(self).socket_path == old(self).socket_path,
    {
        self.forget(id);
    }

    /// An envelope came from the daemon.
    pub fn received(&mut self, incoming: Incoming) -> (r: Delivery)
        ensures
            final(self)@ == after_received(old(self)@, incoming),
            delivered_to(r) == receiver(old(self)@, incoming),
            final(self).request_timeout == old(self).request_timeout,
            final(self).workspace == old(self).workspace,
            final(self).socket_path == old(self).socket_path,
    {
        match incoming {
            Incoming::Push(push) => {
                if let Some(m) = push {
                    self.pushes.push(m);
                }
                Delivery::Nowhere
            },
            Incoming::Answer(id) => {
                if self.forget(id.as_str()) {
                    Delivery::To(id)
                } else {
                    Delivery::Nowhere
                }
            },
            Incoming::Other => Delivery::Nowhere,
        }
    }

    /// The connection is over: whoever waits for an answer is to be told.
    pub fn close(&mut self) -> (r: Vec<String>)
        ensures
            texts(r@) == old(self)@.pending,
            final(self)@ == (Traffic { pending: Seq::empty(), ..old(self)@ }),
            final(self).request_timeout == old(self).request_timeout,
            final(self).workspace == old(self).workspace,
            final(self).socket_path == old(self).socket_path,
    {
        let mut r: Vec<String> = Vec::new();
        std::mem::swap(&mut r, &mut self.pending);
        proof {
            assert(texts(self.pending@) =~= Seq::empty());
        }
        r
    }
}

/// What came of waiting for an answer.
#[derive(Debug, Clone)]
pub enum Waited {
    /// A response, with what it carries as JSON.
    Response(String),
    /// The daemon says that the request failed, and why.
    Refused(String),
    /// The connection ended first.
    Disconnected,
    /// It took too long; how long is given as a text.
    TooLong(String),
}

/// What a request comes to.
pub fn request_outcome(kind: MessageType, waited: Waited) -> (r: Result<String, DaemonClientError>)
    ensures
        match waited {
            Waited::Response(data) => r == Ok::<String, DaemonClientError>(data),
            Waited::Refused(message) => r == Err::<String, DaemonClientError>(
                DaemonClientError::Daemon(message),
            ),
            Waited::Disconnected => r == Err::<String, DaemonClientError>(
                DaemonClientError::Disconnected,
            ),
            Waited::TooLong(elapsed) => r == Err::<String, DaemonClientError>(
                DaemonClientError::Timeout { kind, elapsed },
            ),
        },
{
    match waited {
        Waited::Response(data) => Ok(data),
        Waited::Refused(message) => Err(DaemonClientError::Daemon(message)),
        Waited::Disconnected => Err(DaemonClientError::Disconnected),
        Waited::TooLong(elapsed) => Err(DaemonClientError::Timeout { kind, elapsed }),
    }
}

proof fn without_has_not(ids: Seq<Seq<char>>, id: Seq<char>)
    ensures
        !without(ids, id).contains(id),
    decreases ids.len(),
{
    if ids.len() > 0 {
        without_has_not(ids.drop_last(), id);
        if ids.last() != id && without(ids, id).contains(id) {
            let before = without(ids.drop_last(), id);
            let j = choose|j: int| 0 <= j < without(ids, id).len() && without(ids, id)[j] == id;
            if j < before.len() {
                assert(before[j] == id);
            }
        }
    }
}

proof fn without_keeps(ids: Seq<Seq<char>>, id: Seq<char>, other: Seq<char>)
    requires
        id != other,
    ensures
        without(ids, id).contains(other) == ids.contains(other),
    decreases ids.len(),
{
    if ids.len() > 0 {
        let before = ids.drop_last();
        let kept = without(before, id);
        let all = without(ids, id);
        without_keeps(before, id, other);
        if ids.contains(other) {
            let j = choose|j: int| 0 <= j < ids.len() && ids[j] == other;
            if j < before.len() {
                assert(before[j] == other);
                let k = choose|k: int| 0 <= k < kept.len() && kept[k] == other;
                assert(all[k] == other);
            } else {
                assert(all[all.len() - 1] == other);
            }
        }
        if all.contains(other) {
            let j = choose|j: int| 0 <= j < all.len() && all[j] == other;
            if j < kept.len() {
                assert(kept[j] == other);
                let k = choose|k: int| 0 <= k < before.len() && before[k] == other;
                assert(ids[k] == other);
            } else {
                assert(ids[ids.len() - 1] == other);
            }
        }
    }
}

/// A request that was sent gets the answer that names it, and gets it once: the
/// same answer again goes nowhere.
pub proof fn answered_once(t: Traffic, id: String)
    ensures
        ({
            let sent = after_sent(t, id@);
            let answer = Incoming::Answer(id);
            &&& receiver(sent, answer) == Some(id@)
            &&& receiver(after_received(sent, answer), answer) is None
        }),
{
    let kept = without(t.pending, id@);
    assert(kept.push(id@)[kept.len() as int] == id@);
    without_has_not(after_sent(t, id@).pending, id@);
}

/// The answer to a request that nobody waits for any more goes nowhere.
pub proof fn late_answer_is_dropped(t: Traffic, id: String)
    ensures
        receiver(after_given_up(t, id@), Incoming::Answer(id)) is None,
{
    without_has_not(t.pending, id@);
}

/// What becomes of one request is the same whatever becomes of another.
pub proof fn requests_do_not_interfere(t: Traffic, id: Seq<char>, other: String)
    requires
        id != other@,
    ensures
        receiver(after_given_up(t, id), Incoming::Answer(other)) == receiver(
            t,
            Incoming::Answer(other),
        ),
        receiver(after_sent(t, id), Incoming::Answer(other)) == receiver(
            t,
            Incoming::Answer(other),
        ),
{
    without_keeps(t.pending, id, other@);
    let kept = without(t.pending, id);
    let all = kept.push(id);
    if kept.contains(other@) {
        let j = choose|j: int| 0 <= j < kept.len() && kept[j] == other@;
        assert(all[j] == other@);
    }
    if all.contains(other@) {
        let j = choose|j: int| 0 <= j < all.len() && all[j] == other@;
        assert(kept[j] == other@);
    }
}

} // verus!
