//! Captures of the agents' terminals: which to take next, and how they are
//! shown.

use vstd::prelude::*;

use crate::keyed::TextMap;
use crate::text::{
    chars_of, is_control_char, is_control_code, lines, lines_of, same, string_of, texts,
    texts_push, trim, trimmed,
};
use crate::tmux::sessions::SessionInfo;

verus! {

broadcast use {vstd::seq_lib::group_seq_properties, vstd::string::group_string_axioms};

/// How old a capture may be before it is taken anew, in milliseconds.
pub const BACKGROUND_MAX_AGE: u64 = 2000;

/// How many captures out of focus are taken at a time.
pub const BACKGROUND_BATCH_SIZE: usize = 2;

/// How long an agent counts as running after its terminal last changed, in
/// milliseconds.
pub const RUNNING_WINDOW: u64 = 3000;

/// A capture of a terminal. Times are milliseconds of a clock that only goes
/// forward.
#[derive(Debug, Clone)]
pub struct CaptureEntry {
    pub content: String,
    pub captured_at: u64,
    pub last_changed_at: u64,
}

/// The captures by workspace, and whose turn it is next.
#[derive(Debug, Clone)]
pub struct CaptureCache {
    pub entries: TextMap<CaptureEntry>,
    pub cursor: usize,
}

/// Milliseconds from `start` to `now`; none where `start` lies ahead.
pub open spec fn elapsed(now: u64, start: u64) -> int {
    if now > start {
        now - start
    } else {
        0
    }
}

/// A capture that is entered after `former`. The time of the last change is kept
/// where the terminal shows what it showed before.
pub open spec fn entered_after(former: Option<CaptureEntry>, content: String, now: u64) -> CaptureEntry {
    CaptureEntry {
        content,
        captured_at: now,
        last_changed_at: match former {
            Some(entry) => if entry.content@ == content@ {
                entry.last_changed_at
            } else {
                now
            },
            None => now,
        },
    }
}

/// What a terminal showed, or nothing where it could not be captured.
#[derive(Debug, Clone)]
pub struct Captured {
    pub workspace: String,
    pub content: Option<String>,
}

/// The capture of `workspace` after others were taken; `former` is the one before.
pub open spec fn entry_after(
    former: Option<CaptureEntry>,
    taken: Seq<Captured>,
    workspace: Seq<char>,
    now: u64,
) -> Option<CaptureEntry>
    decreases taken.len(),
{
    if taken.len() == 0 {
        former
    } else {
        let before = entry_after(former, taken.drop_last(), workspace, now);
        match taken.last().content {
            Some(content) => if taken.last().workspace@ == workspace {
                Some(entered_after(before, content, now))
            } else {
                before
            },
            None => before,
        }
    }
}

/// The workspaces whose terminal could be captured, in order.
pub open spec fn refreshed_among(taken: Seq<Captured>) -> Seq<Seq<char>>
    decreases taken.len(),
{
    if taken.len() == 0 {
        Seq::empty()
    } else {
        let front = refreshed_among(taken.drop_last());
        if taken.last().content is Some {
            front.push(taken.last().workspace@)
        } else {
            front
        }
    }
}

/// Turns follow on one another: what is left out now comes first the next time.
pub proof fn turns_follow_on(due: Seq<Seq<char>>, cursor: int, n: int, m: int)
    requires
        due.len() > 0,
        0 <= n,
        0 <= m,
    ensures
        CaptureCache::turn(due, cursor, n) + CaptureCache::turn(
            due,
            (cursor + n) % (due.len() as int),
            m,
        ) == CaptureCache::turn(due, cursor, n + m),
{
    let len = due.len() as int;
    let both = CaptureCache::turn(due, cursor, n) + CaptureCache::turn(due, (cursor + n) % len, m);
    assert forall|i: int| 0 <= i < n + m implies both[i] == CaptureCache::turn(
        due,
        cursor,
        n + m,
    )[i] by {
        if i >= n {
            vstd::arithmetic::div_mod::lemma_add_mod_noop(cursor + n, i - n, len);
            vstd::arithmetic::div_mod::lemma_add_mod_noop((cursor + n) % len, i - n, len);
            vstd::arithmetic::div_mod::lemma_mod_twice(cursor + n, len);
            assert((cursor + n) + (i - n) == cursor + i);
        }
    }
    assert(both =~= CaptureCache::turn(due, cursor, n + m));
}

/// Turns that add up to as many workspaces as are due reach each of them.
pub proof fn a_round_reaches_everyone(due: Seq<Seq<char>>, cursor: int, j: int)
    requires
        0 <= j < due.len(),
    ensures
        CaptureCache::turn(due, cursor, due.len() as int).contains(due[j]),
{
    let len = due.len() as int;
    let i = (j - cursor) % len;
    vstd::arithmetic::div_mod::lemma_mod_bound(j - cursor, len);
    vstd::arithmetic::div_mod::lemma_add_mod_noop(cursor, j - cursor, len);
    vstd::arithmetic::div_mod::lemma_add_mod_noop(cursor, i, len);
    vstd::arithmetic::div_mod::lemma_mod_twice(j - cursor, len);
    vstd::arithmetic::div_mod::lemma_small_mod(j as nat, len as nat);
    assert(CaptureCache::turn(due, cursor, len)[i] == due[j]);
}

/// One of the sessions belongs to the workspace.
pub open spec fn has_session(sessions: Seq<SessionInfo>, workspace: Seq<char>) -> bool {
    exists|i: int| 0 <= i < sessions.len() && (#[trigger] sessions[i]).workspace@ == workspace
}

/// Whether one of the sessions belongs to the workspace.
pub fn session_exists(sessions: &Vec<SessionInfo>, workspace: &str) -> (r: bool)
    ensures
        r == has_session(sessions@, workspace@),
{
    let mut i: usize = 0;
    while i < sessions.len()
        invariant
            i <= sessions@.len(),
            forall|j: int| 0 <= j < i ==> (#[trigger] sessions@[j]).workspace@ != workspace@,
        decreases sessions@.len() - i,
    {
        if same(sessions[i].workspace.as_str(), workspace) {
            return true;
        }
        i = i + 1;
    }
    false
}

impl Default for CaptureCache {
    fn default() -> (r: Self)
        ensures
            r.entries.wf(),
            r.entries.keys@.len() == 0,
            r.cursor == 0,
    {
        CaptureCache { entries: TextMap::new(), cursor: 0 }
    }
}

impl CaptureCache {
    /// A capture of the workspace is missing or too old.
    pub open spec fn is_due(&self, workspace: Seq<char>, now: u64) -> bool {
        match self.entries.lookup(workspace) {
            Some(entry) => elapsed(now, entry.captured_at) >= BACKGROUND_MAX_AGE,
            None => true,
        }
    }

    /// The workspaces out of focus whose captures are due, in the order of the
    /// sessions.
    pub open spec fn due(
        &self,
        sessions: Seq<SessionInfo>,
        focused: Option<Seq<char>>,
        now: u64,
    ) -> Seq<Seq<char>>
        decreases sessions.len(),
    {
        if sessions.len() == 0 {
            Seq::empty()
        } else {
            let front = self.due(sessions.drop_last(), focused, now);
            let workspace = sessions.last().workspace@;
            if focused != Some(workspace) && self.is_due(workspace, now) {
                front.push(workspace)
            } else {
                front
            }
        }
    }

    /// The workspace in focus, where it has a session.
    pub open spec fn in_focus(sessions: Seq<SessionInfo>, focused: Option<Seq<char>>) -> Seq<
        Seq<char>,
    > {
        match focused {
            Some(name) => if has_session(sessions, name) {
                Seq::empty().push(name)
            } else {
                Seq::empty()
            },
            None => Seq::empty(),
        }
    }

    /// The next `n` of the workspaces that are due, in turn from `cursor`.
    pub open spec fn turn(due: Seq<Seq<char>>, cursor: int, n: int) -> Seq<Seq<char>> {
        Seq::new(n as nat, |i: int| due[(cursor + i) % (due.len() as int)])
    }

    /// How many workspaces out of focus are captured at a time.
    pub open spec fn batch(due: int) -> int {
        if due < BACKGROUND_BATCH_SIZE {
            due
        } else {
            BACKGROUND_BATCH_SIZE as int
        }
    }

    /// Chooses the workspaces to capture now: the one in focus at once, of the
    /// others a few at a time in turn. The caller captures them and hands what it
    /// got to [`CaptureCache::take_captures`].
    pub fn refresh(&mut self, sessions: &Vec<SessionInfo>, focused: Option<&str>, now: u64) -> (r: Vec<
        String,
    >)
        requires
            old(self).entries.wf(),
        ensures
            final(self).entries == old(self).entries,
            ({
                let focus = match focused {
                    Some(f) => Some(f@),
                    None => None,
                };
                let due = old(self).due(sessions@, focus, now);
                let n = Self::batch(due.len() as int);
                &&& texts(r@) == Self::in_focus(sessions@, focus) + Self::turn(
                    due,
                    old(self).cursor as int,
                    n,
                )
                &&& final(self).cursor == if due.len() == 0 {
                    old(self).cursor as int
                } else {
                    (old(self).cursor + n) % (due.len() as int)
                }
            }),
    {
        let ghost focus = match focused {
            Some(f) => Some(f@),
            None => None,
        };
        let mut chosen: Vec<String> = Vec::new();
        proof {
            assert(texts(chosen@) =~= Seq::empty());
        }
        if let Some(name) = focused {
            if session_exists(sessions, name) {
                let s = name.to_owned();
                proof {
                    texts_push(chosen@, s);
                }
                chosen.push(s);
            }
        }
        let ghost head = texts(chosen@);
        let mut waiting: Vec<String> = Vec::new();
        let mut i: usize = 0;
        proof {
            assert(texts(waiting@) =~= self.due(sessions@.take(0), focus, now));
        }
        while i < sessions.len()
            invariant
                i <= sessions@.len(),
                self.entries.wf(),
                focus == match focused {
                    Some(f) => Some(f@),
                    None => None::<Seq<char>>,
                },
                texts(waiting@) == self.due(sessions@.take(i as int), focus, now),
            decreases sessions@.len() - i,
        {
            let name = &sessions[i].workspace;
            proof {
                assert(sessions@.take(i + 1).drop_last() =~= sessions@.take(i as int));
            }
            let out_of_focus = match focused {
                Some(f) => !same(f, name.as_str()),
                None => true,
            };
            let old_enough = match self.entries.get(name.as_str()) {
                Some(entry) => now > entry.captured_at && now - entry.captured_at
                    >= BACKGROUND_MAX_AGE,
                None => true,
            };
            if out_of_focus && old_enough {
                let s = name.clone();
                proof {
                    texts_push(waiting@, s);
                }
                waiting.push(s);
            }
            i = i + 1;
        }
        proof {
            assert(sessions@.take(sessions@.len() as int) =~= sessions@);
        }
        let ghost due = texts(waiting@);
        let len = waiting.len();
        if len == 0 {
            proof {
                assert(texts(chosen@) =~= head + Self::turn(due, self.cursor as int, 0));
            }
            return chosen;
        }
        let n: usize = if len < BACKGROUND_BATCH_SIZE {
            len
        } else {
            BACKGROUND_BATCH_SIZE
        };
        let ghost start = self.cursor as int;
        let mut at: usize = self.cursor % len;
        let mut k: usize = 0;
        proof {
            assert(texts(chosen@) =~= head + Self::turn(due, start, 0));
        }
        while k < n
            invariant
                k <= n <= len == waiting@.len(),
                len > 0,
                at < len,
                due == texts(waiting@),
                at == (start + k) % (len as int),
                texts(chosen@) == head + Self::turn(due, start, k as int),
            decreases n - k,
        {
            let s = waiting[at].clone();
            proof {
                texts_push(chosen@, s);
                assert(head + Self::turn(due, start, k + 1) =~= (head + Self::turn(
                    due,
                    start,
                    k as int,
                )).push(due[at as int]));
                step_modulo(start + k, len as int);
            }
            chosen.push(s);
            at = if at + 1 == len {
                0
            } else {
                at + 1
            };
            k = k + 1;
        }
        self.cursor = at;
        chosen
    }

    /// Enters a capture. The time of the last change is kept where the terminal
    /// shows what it showed before.
    pub fn capture_into(&mut self, workspace: &str, content: String, now: u64)
        requires
            old(self).entries.wf(),
        ensures
            final(self).entries.wf(),
            final(self).cursor == old(self).cursor,
            final(self).entries.lookup(workspace@) == Some(
                entered_after(old(self).entries.lookup(workspace@), content, now),
            ),
            forall|k: Seq<char>|
                k != workspace@ ==> #[trigger] final(self).entries.lookup(k) == old(
                    self,
                ).entries.lookup(k),
    {
        let last_changed_at = match self.entries.get(workspace) {
            Some(former) => if former.content == content {
                former.last_changed_at
            } else {
                now
            },
            None => now,
        };
        self.entries.insert(
            workspace.to_owned(),
            CaptureEntry { content, captured_at: now, last_changed_at },
        );
    }

    /// Enters captures, and tells whose terminal could be captured. Where one could
    /// not, its former capture stays.
    pub fn take_captures(&mut self, taken: Vec<Captured>, now: u64) -> (r: Vec<String>)
        requires
            old(self).entries.wf(),
        ensures
            final(self).entries.wf(),
            final(self).cursor == old(self).cursor,
            texts(r@) == refreshed_among(taken@),
            forall|k: Seq<char>|
                #[trigger] final(self).entries.lookup(k) == entry_after(
                    old(self).entries.lookup(k),
                    taken@,
                    k,
                    now,
                ),
    {
        let ghost pre = self.entries;
        let mut r: Vec<String> = Vec::new();
        let mut i: usize = 0;
        proof {
            assert(texts(r@) =~= refreshed_among(taken@.take(0)));
        }
        while i < taken.len()
            invariant
                i <= taken@.len(),
                self.entries.wf(),
                self.cursor == old(self).cursor,
                texts(r@) == refreshed_among(taken@.take(i as int)),
                forall|k: Seq<char>|
                    #[trigger] self.entries.lookup(k) == entry_after(
                        pre.lookup(k),
                        taken@.take(i as int),
                        k,
                        now,
                    ),
            decreases taken@.len() - i,
        {
            let ghost former = self.entries;
            let ghost listed = r@;
            let next = &taken[i];
            proof {
                assert(taken@.take(i + 1).drop_last() =~= taken@.take(i as int));
            }
            if let Some(content) = &next.content {
                self.capture_into(next.workspace.as_str(), content.clone(), now);
                r.push(next.workspace.clone());
                proof {
                    assert(texts(r@) =~= texts(listed).push(next.workspace@));
                }
            }
            proof {
                assert forall|k: Seq<char>| #[trigger] self.entries.lookup(k) == entry_after(
                    pre.lookup(k),
                    taken@.take(i + 1),
                    k,
                    now,
                ) by {
                    assert(former.lookup(k) == entry_after(
                        pre.lookup(k),
                        taken@.take(i as int),
                        k,
                        now,
                    ));
                }
            }
            i = i + 1;
        }
        proof {
            assert(taken@.take(taken@.len() as int) =~= taken@);
        }
        r
    }

    /// The terminal of the workspace changed a short while ago.
    pub open spec fn recently_active(&self, workspace: Seq<char>, now: u64) -> bool {
        match self.entries.lookup(workspace) {
            Some(entry) => elapsed(now, entry.last_changed_at) < RUNNING_WINDOW,
            None => false,
        }
    }

    /// Whether the workspace counts as running; without a capture it is idle.
    pub fn is_recently_active(&self, workspace: &str, now: u64) -> (r: bool)
        requires
            self.entries.wf(),
        ensures
            r == self.recently_active(workspace@, now),
    {
        match self.entries.get(workspace) {
            Some(entry) => now <= entry.last_changed_at || now - entry.last_changed_at
                < RUNNING_WINDOW,
            None => false,
        }
    }

    /// Drops the captures of workspaces without a session.
    pub fn prune(&mut self, sessions: &Vec<SessionInfo>)
        requires
            old(self).entries.wf(),
        ensures
            final(self).entries.wf(),
            final(self).cursor == old(self).cursor,
            forall|k: Seq<char>|
                #[trigger] final(self).entries.lookup(k) == if has_session(sessions@, k) {
                    old(self).entries.lookup(k)
                } else {
                    None
                },
    {
        let ghost pre = self.entries;
        let mut i: usize = 0;
        while i < self.entries.len()
            invariant
                self.entries.wf(),
                self.cursor == old(self).cursor,
                i <= self.entries.keys@.len(),
                forall|j: int|
                    0 <= j < i ==> has_session(sessions@, (#[trigger] self.entries.keys@[j])@),
                forall|k: Seq<char>|
                    has_session(sessions@, k) ==> #[trigger] self.entries.lookup(k) == pre.lookup(
                        k,
                    ),
            decreases self.entries.keys@.len() - i,
        {
            if session_exists(sessions, self.entries.keys[i].as_str()) {
                i = i + 1;
            } else {
                self.entries.remove_at(i);
            }
        }
        proof {
            assert forall|k: Seq<char>| #[trigger] self.entries.lookup(k) == if has_session(
                sessions@,
                k,
            ) {
                pre.lookup(k)
            } else {
                None
            } by {
                if !has_session(sessions@, k) && self.entries.has(k) {
                    let j = self.entries.place(k);
                    assert(self.entries.at(j, k));
                    assert(has_session(sessions@, self.entries.keys@[j]@));
                }
            }
        }
    }
}

proof fn step_modulo(x: int, n: int)
    requires
        n > 0,
    ensures
        (x + 1) % n == if x % n + 1 == n { 0 } else { x % n + 1 },
{
    vstd::arithmetic::div_mod::lemma_add_mod_noop(x, 1, n);
    vstd::arithmetic::div_mod::lemma_mod_bound(x, n);
    if x % n + 1 == n {
        if n == 1 {
            assert((x + 1) % 1 == 0) by (nonlinear_arith);
        } else {
            vstd::arithmetic::div_mod::lemma_small_mod(1, n as nat);
            vstd::arithmetic::div_mod::lemma_mod_self_0(n);
        }
    } else {
        vstd::arithmetic::div_mod::lemma_small_mod(1, n as nat);
        vstd::arithmetic::div_mod::lemma_small_mod((x % n + 1) as nat, n as nat);
    }
}

/// The lines without the blank ones at the end.
pub open spec fn without_blank_end(all: Seq<Seq<char>>) -> Seq<Seq<char>>
    decreases all.len(),
{
    if all.len() > 0 && trim(all.last()).len() == 0 {
        without_blank_end(all.drop_last())
    } else {
        all
    }
}

/// The lines that a capture shows: a terminal pads its screen with blank lines,
/// which are left out at the end.
pub open spec fn shown_lines(capture: Seq<char>) -> Seq<Seq<char>> {
    without_blank_end(lines(capture))
}

/// The last `rows` items.
pub open spec fn last_rows<T>(s: Seq<T>, rows: int) -> Seq<T> {
    if s.len() > rows {
        s.skip(s.len() - rows)
    } else {
        s
    }
}

/// The lines of a capture, and how many of them are shown.
fn lines_and_count(capture: &str) -> (r: (Vec<String>, usize))
    ensures
        r.1 <= r.0@.len(),
        texts(r.0@).take(r.1 as int) == shown_lines(capture@),
{
    let all = lines_of(capture);
    let ghost whole = texts(all@);
    let mut n: usize = all.len();
    proof {
        assert(whole.take(n as int) =~= whole);
    }
    while n > 0 && trimmed(all[n - 1].as_str()).as_str().is_empty()
        invariant
            n <= all@.len(),
            whole == texts(all@),
            without_blank_end(whole.take(n as int)) == without_blank_end(whole),
        decreases n,
    {
        proof {
            assert(whole.take(n as int).drop_last() =~= whole.take(n - 1));
            assert(whole.take(n as int).last() == all@[n - 1]@);
        }
        n = n - 1;
    }
    proof {
        if n > 0 {
            assert(whole.take(n as int).last() == all@[n - 1]@);
        }
    }
    (all, n)
}

/// The last `rows` lines that a capture shows.
pub fn recent_lines(capture: &str, rows: usize) -> (r: Vec<String>)
    ensures
        texts(r@) == last_rows(shown_lines(capture@), rows as int),
{
    let (all, n) = lines_and_count(capture);
    let ghost shown = shown_lines(capture@);
    let start: usize = if n > rows {
        n - rows
    } else {
        0
    };
    let mut out: Vec<String> = Vec::new();
    let mut i: usize = start;
    proof {
        assert(texts(out@) =~= shown.subrange(start as int, start as int));
    }
    while i < n
        invariant
            start <= i <= n <= all@.len(),
            shown == texts(all@).take(n as int),
            texts(out@) == shown.subrange(start as int, i as int),
        decreases n - i,
    {
        let s = all[i].clone();
        proof {
            texts_push(out@, s);
            assert(shown.subrange(start as int, i + 1) =~= shown.subrange(
                start as int,
                i as int,
            ).push(shown[i as int]));
        }
        out.push(s);
        i = i + 1;
    }
    proof {
        assert(shown.subrange(start as int, n as int) =~= last_rows(shown, rows as int));
    }
    out
}

/// Where a scan for terminal control sequences stands.
#[derive(Debug, Clone, Copy, PartialEq, Eq, Structural)]
pub enum ScanState {
    Text,
    Escape,
    Csi,
}

/// The text outside of control sequences, and where the scan stands at the end.
///
/// A control sequence begins with ESC and `[` and ends with a character from `@`
/// to `~`. ESC before anything else is dropped alone.
pub open spec fn csi_scan(s: Seq<char>) -> (Seq<char>, ScanState)
    decreases s.len(),
{
    if s.len() == 0 {
        (Seq::empty(), ScanState::Text)
    } else {
        let (out, state) = csi_scan(s.drop_last());
        let c = s.last();
        match state {
            ScanState::Text => if c == '\x1b' {
                (out, ScanState::Escape)
            } else {
                (out.push(c), ScanState::Text)
            },
            ScanState::Escape => if c == '[' {
                (out, ScanState::Csi)
            } else {
                (out.push(c), ScanState::Text)
            },
            ScanState::Csi => if '@' <= c && c <= '~' {
                (out, ScanState::Text)
            } else {
                (out, ScanState::Csi)
            },
        }
    }
}

/// The text of a line outside of control sequences.
pub fn strip_csi_sequences(line: &str) -> (r: String)
    ensures
        r@ == csi_scan(line@).0,
{
    let v = chars_of(line);
    let mut out = String::new();
    let mut state = ScanState::Text;
    let mut i: usize = 0;
    proof {
        assert(out@ =~= csi_scan(v@.take(0)).0);
    }
    while i < v.len()
        invariant
            i <= v@.len(),
            (out@, state) == csi_scan(v@.take(i as int)),
        decreases v@.len() - i,
    {
        let c = v[i];
        proof {
            assert(v@.take(i + 1).drop_last() =~= v@.take(i as int));
        }
        match state {
            ScanState::Text => {
                if c == '\x1b' {
                    state = ScanState::Escape;
                } else {
                    out.push(c);
                }
            },
            ScanState::Escape => {
                if c == '[' {
                    state = ScanState::Csi;
                } else {
                    out.push(c);
                    state = ScanState::Text;
                }
            },
            ScanState::Csi => {
                if '@' <= c && c <= '~' {
                    state = ScanState::Text;
                }
            },
        }
        i = i + 1;
    }
    proof {
        assert(v@.take(v@.len() as int) =~= v@);
    }
    out
}

/// The text with each tab as two spaces and without other control codes.
pub open spec fn printable(s: Seq<char>) -> Seq<char>
    decreases s.len(),
{
    if s.len() == 0 {
        Seq::empty()
    } else {
        let front = printable(s.drop_last());
        if s.last() == '\t' {
            front.push(' ').push(' ')
        } else if is_control_code(s.last()) {
            front
        } else {
            front.push(s.last())
        }
    }
}

/// What a line of a capture shows: no control sequences, no control codes, tabs
/// as two spaces.
pub open spec fn sanitized(line: Seq<char>) -> Seq<char> {
    printable(csi_scan(line).0)
}

/// A sanitized line holds no control code.
pub proof fn sanitized_has_no_control_code(line: Seq<char>, i: int)
    requires
        0 <= i < sanitized(line).len(),
    ensures
        !is_control_code(sanitized(line)[i]),
{
    printable_has_no_control_code(csi_scan(line).0, i);
}

proof fn printable_has_no_control_code(s: Seq<char>, i: int)
    requires
        0 <= i < printable(s).len(),
    ensures
        !is_control_code(printable(s)[i]),
    decreases s.len(),
{
    if s.len() > 0 {
        let front = printable(s.drop_last());
        if i < front.len() {
            printable_has_no_control_code(s.drop_last(), i);
        }
    }
}

/// What a line of a capture shows.
pub fn sanitize_capture_line(line: &str) -> (r: String)
    ensures
        r@ == sanitized(line@),
{
    let stripped = strip_csi_sequences(line);
    let v = chars_of(stripped.as_str());
    let mut out = String::new();
    let mut i: usize = 0;
    while i < v.len()
        invariant
            i <= v@.len(),
            out@ == printable(v@.take(i as int)),
        decreases v@.len() - i,
    {
        let c = v[i];
        proof {
            assert(v@.take(i + 1).drop_last() =~= v@.take(i as int));
        }
        if c == '\t' {
            out.push(' ');
            out.push(' ');
        } else if !is_control_char(c) {
            out.push(c);
        }
        i = i + 1;
    }
    proof {
        assert(v@.take(v@.len() as int) =~= v@);
    }
    out
}

/// The text in pieces of `width` characters, the last of which may be shorter.
/// An empty text is one empty piece.
pub open spec fn chunks(s: Seq<char>, width: int) -> Seq<Seq<char>>
    decreases s.len(),
{
    if width <= 0 || s.len() <= width {
        Seq::empty().push(s)
    } else {
        Seq::empty().push(s.take(width)) + chunks(s.skip(width), width)
    }
}

/// Cutting a text into pieces loses nothing, and every piece keeps to the width.
pub proof fn chunks_hold_the_text(s: Seq<char>, width: int)
    requires
        width > 0,
    ensures
        chunks(s, width).flatten() == s,
        forall|i: int| 0 <= i < chunks(s, width).len() ==> (#[trigger] chunks(s, width)[i]).len() <= width,
    decreases s.len(),
{
    if s.len() <= width {
        let one = Seq::empty().push(s);
        one.lemma_flatten_one_element();
    } else {
        chunks_hold_the_text(s.skip(width), width);
        let rest = chunks(s.skip(width), width);
        let all = chunks(s, width);
        assert(all.drop_first() =~= rest);
        assert(all.first() == s.take(width));
        assert(all.flatten() == all.first() + all.drop_first().flatten());
        assert(s =~= s.take(width) + s.skip(width));
        assert forall|i: int| 0 <= i < all.len() implies (#[trigger] all[i]).len() <= width by {
            if i > 0 {
                assert(all[i] == rest[i - 1]);
            }
        }
    }
}

/// Adds the pieces of a sanitized line to `out`.
pub fn wrap_capture_line(line: &str, width: usize, out: &mut Vec<String>)
    requires
        width > 0,
    ensures
        texts(final(out)@) == texts(old(out)@) + chunks(sanitized(line@), width as int),
{
    let clean = sanitize_capture_line(line);
    let v = chars_of(clean.as_str());
    let ghost pre = texts(out@);
    let mut i: usize = 0;
    proof {
        assert(v@.skip(0) =~= v@);
    }
    while v.len() - i > width
        invariant
            width > 0,
            i <= v@.len(),
            texts(out@) + chunks(v@.skip(i as int), width as int) == pre + chunks(
                v@,
                width as int,
            ),
        decreases v@.len() - i,
    {
        let s = string_of(&v, i, i + width);
        let ghost before = texts(out@);
        proof {
            let rest = v@.skip(i as int);
            texts_push(out@, s);
            assert(rest.take(width as int) =~= s@);
            assert(rest.skip(width as int) =~= v@.skip(i + width));
            assert(before + (Seq::empty().push(s@) + chunks(v@.skip(i + width), width as int))
                =~= before.push(s@) + chunks(v@.skip(i + width), width as int));
        }
        out.push(s);
        i = i + width;
    }
    let s = string_of(&v, i, v.len());
    proof {
        texts_push(out@, s);
        assert(v@.skip(i as int) =~= s@);
        assert(texts(out@) + Seq::empty().push(s@) =~= texts(out@).push(s@));
    }
    out.push(s);
}

/// All pieces of all lines.
pub open spec fn wrapped(all: Seq<Seq<char>>, width: int) -> Seq<Seq<char>>
    decreases all.len(),
{
    if all.len() == 0 {
        Seq::empty()
    } else {
        wrapped(all.drop_last(), width) + chunks(sanitized(all.last()), width)
    }
}

/// What a capture shows on a pane `width` characters wide.
pub open spec fn wrapped_capture(capture: Seq<char>, width: int) -> Seq<Seq<char>> {
    if width <= 0 {
        Seq::empty()
    } else {
        wrapped(shown_lines(capture), width)
    }
}

/// What a capture shows on a pane `width` characters wide.
pub fn wrapped_lines(capture: &str, width: usize) -> (r: Vec<String>)
    ensures
        texts(r@) == wrapped_capture(capture@, width as int),
{
    let mut out: Vec<String> = Vec::new();
    proof {
        assert(texts(out@) =~= Seq::empty());
    }
    if width == 0 {
        return out;
    }
    let (all, n) = lines_and_count(capture);
    let ghost shown = shown_lines(capture@);
    let mut i: usize = 0;
    while i < n
        invariant
            i <= n <= all@.len(),
            width > 0,
            shown == texts(all@).take(n as int),
            texts(out@) == wrapped(shown.take(i as int), width as int),
        decreases n - i,
    {
        proof {
            assert(shown.take(i + 1).drop_last() =~= shown.take(i as int));
            assert(shown.take(i + 1).last() == all@[i as int]@);
        }
        wrap_capture_line(all[i].as_str(), width, &mut out);
        i = i + 1;
    }
    proof {
        assert(shown.take(n as int) =~= shown);
    }
    out
}

/// The last `rows` lines that a capture shows on a pane `width` characters wide.
pub fn recent_wrapped_lines(capture: &str, rows: usize, width: usize) -> (r: Vec<String>)
    ensures
        texts(r@) == last_rows(wrapped_capture(capture@, width as int), rows as int),
{
    let mut all = wrapped_lines(capture, width);
    let ghost whole = texts(all@);
    if all.len() > rows {
        let tail = all.split_off(all.len() - rows);
        proof {
            assert(texts(tail@) =~= last_rows(whole, rows as int));
        }
        tail
    } else {
        all
    }
}

} // verus!
