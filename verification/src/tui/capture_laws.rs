//! What holds of captures of terminals and of the counts found in them.

use vstd::prelude::*;

use crate::text::{is_control_code, lines, trim};
use crate::tmux::sessions::SessionInfo;
use crate::tui::captures::{
    chunks, csi_scan, entered_after, entry_after, last_rows, printable, refreshed_among, sanitized,
    without_blank_end, wrapped, wrapped_capture, CaptureCache, CaptureEntry, Captured, ScanState,
};
use crate::tui::tokens::{
    costs, done_totals, downs, first_match, first_text, found_nothing, group_matches, latest,
    marks_in, scanned_lines, tokens_in, total_of_done_line, ups, Marks, TokensShown,
};

verus! {

/// A capture that shows what the former one showed keeps the time of the last
/// change; one that shows something else, or is the first, changed just now.
pub proof fn change_is_noticed(former: Option<CaptureEntry>, content: String, now: u64)
    ensures
        ({
            let entry = entered_after(former, content, now);
            &&& entry.content@ == content@
            &&& entry.captured_at == now
            &&& former is Some && former->0.content@ == content@ ==> entry.last_changed_at
                == former->0.last_changed_at
            &&& former is None || former->0.content@ != content@ ==> entry.last_changed_at == now
        }),
{
}

/// A capture that could be taken is entered for its workspace and for no other;
/// one that could not leaves everything as it was.
pub proof fn captures_are_entered_under_their_name(
    former: Option<CaptureEntry>,
    taken: Seq<Captured>,
    more: Captured,
    workspace: Seq<char>,
    now: u64,
)
    ensures
        more.content is None || more.workspace@ != workspace ==> entry_after(
            former,
            taken.push(more),
            workspace,
            now,
        ) == entry_after(former, taken, workspace, now),
        more.content is Some && more.workspace@ == workspace ==> entry_after(
            former,
            taken.push(more),
            workspace,
            now,
        ) == Some(entered_after(entry_after(former, taken, workspace, now), more.content->0, now)),
        more.content is Some ==> refreshed_among(taken.push(more)) == refreshed_among(taken).push(
            more.workspace@,
        ),
        more.content is None ==> refreshed_among(taken.push(more)) == refreshed_among(taken),
        entry_after(former, Seq::empty(), workspace, now) == former,
        refreshed_among(Seq::empty()).len() == 0,
{
    assert(taken.push(more).drop_last() =~= taken);
    assert(taken.push(more).last() == more);
}

/// A capture is due where there is none, and where it is two seconds old or older;
/// a terminal counts as busy while less than three seconds have gone by since it
/// changed.
pub proof fn captures_age(cache: CaptureCache, workspace: Seq<char>, now: u64)
    ensures
        cache.entries.lookup(workspace) is None ==> cache.is_due(workspace, now)
            && !cache.recently_active(workspace, now),
        cache.entries.lookup(workspace) is Some ==> {
            let entry = cache.entries.lookup(workspace)->0;
            &&& cache.is_due(workspace, now) <==> now >= entry.captured_at + 2000
            &&& cache.recently_active(workspace, now) <==> now < entry.last_changed_at + 3000
        },
{
}

/// A workspace with a session is due in the background exactly where it is not in
/// focus and its capture is due; one more session comes last.
pub proof fn one_more_session_comes_last(
    cache: CaptureCache,
    sessions: Seq<SessionInfo>,
    session: SessionInfo,
    focused: Option<Seq<char>>,
    now: u64,
)
    ensures
        focused != Some(session.workspace@) && cache.is_due(session.workspace@, now) ==> cache.due(
            sessions.push(session),
            focused,
            now,
        ) == cache.due(sessions, focused, now).push(session.workspace@),
        focused == Some(session.workspace@) || !cache.is_due(session.workspace@, now) ==> cache.due(
            sessions.push(session),
            focused,
            now,
        ) == cache.due(sessions, focused, now),
        cache.due(Seq::empty(), focused, now).len() == 0,
{
    assert(sessions.push(session).drop_last() =~= sessions);
    assert(sessions.push(session).last() == session);
}

/// The workspace in focus is captured each time, where it has a session; at most
/// two others are captured with it, and all that are due where they are fewer.
pub proof fn focus_is_captured_each_time(
    sessions: Seq<SessionInfo>,
    focused: Option<Seq<char>>,
    due: nat,
)
    ensures
        CaptureCache::in_focus(sessions, focused).len() == if focused is Some && exists|i: int|
            0 <= i < sessions.len() && (#[trigger] sessions[i]).workspace@ == focused->0 {
            1int
        } else {
            0
        },
        CaptureCache::in_focus(sessions, focused).len() > 0 ==> CaptureCache::in_focus(
            sessions,
            focused,
        )[0] == focused->0,
        due <= 2 ==> CaptureCache::batch(due as int) == due,
        due > 2 ==> CaptureCache::batch(due as int) == 2,
{
}

/// Only blank lines at the end are left out, and all of them.
pub proof fn blank_lines_go_at_the_end(all: Seq<Seq<char>>)
    ensures
        without_blank_end(all).is_prefix_of(all),
        forall|i: int|
            without_blank_end(all).len() <= i < all.len() ==> trim(#[trigger] all[i]).len() == 0,
        without_blank_end(all).len() > 0 ==> trim(without_blank_end(all).last()).len() > 0,
    decreases all.len(),
{
    if all.len() > 0 && trim(all.last()).len() == 0 {
        let front = all.drop_last();
        blank_lines_go_at_the_end(front);
        let kept = without_blank_end(front);
        assert(kept =~= all.subrange(0, kept.len() as int));
        assert forall|i: int| kept.len() <= i < all.len() implies trim(#[trigger] all[i]).len()
            == 0 by {
            if i < front.len() {
                assert(front[i] == all[i]);
            }
        }
    } else {
        assert(all =~= all.subrange(0, all.len() as int));
    }
}

/// The last rows are the end of what there is, as many as fit.
pub proof fn last_rows_are_the_end<T>(s: Seq<T>, rows: int)
    requires
        rows >= 0,
    ensures
        last_rows(s, rows).is_suffix_of(s),
        last_rows(s, rows).len() == if s.len() <= rows {
            s.len() as int
        } else {
            rows
        },
{
    let r = last_rows(s, rows);
    assert(r =~= s.subrange(s.len() - r.len(), s.len() as int));
}

/// A text without escape characters and control codes is shown as it is.
pub proof fn plain_text_is_shown(s: Seq<char>)
    requires
        forall|i: int| 0 <= i < s.len() ==> !is_control_code(#[trigger] s[i]),
    ensures
        sanitized(s) == s,
    decreases s.len(),
{
    plain_text_is_scanned(s);
    plain_text_is_printed(s);
}

proof fn plain_text_is_scanned(s: Seq<char>)
    requires
        forall|i: int| 0 <= i < s.len() ==> !is_control_code(#[trigger] s[i]),
    ensures
        csi_scan(s) == (s, ScanState::Text),
    decreases s.len(),
{
    if s.len() > 0 {
        plain_text_is_scanned(s.drop_last());
        assert(!is_control_code(s[s.len() - 1]));
        assert(s.drop_last().push(s.last()) =~= s);
    } else {
        assert(csi_scan(s).0 =~= s);
    }
}

proof fn plain_text_is_printed(s: Seq<char>)
    requires
        forall|i: int| 0 <= i < s.len() ==> !is_control_code(#[trigger] s[i]),
    ensures
        printable(s) == s,
    decreases s.len(),
{
    if s.len() > 0 {
        plain_text_is_printed(s.drop_last());
        assert(!is_control_code(s[s.len() - 1]));
        assert(s.drop_last().push(s.last()) =~= s);
    } else {
        assert(printable(s) =~= s);
    }
}

/// A control sequence shows nothing, whatever it holds before the letter that ends
/// it, and what comes after it is text again.
pub proof fn control_sequences_show_nothing(text: Seq<char>, inner: Seq<char>, end: char)
    requires
        csi_scan(text).1 == ScanState::Text,
        forall|i: int| 0 <= i < inner.len() ==> !('@' <= #[trigger] inner[i] <= '~'),
        '@' <= end <= '~',
    ensures
        csi_scan(text + seq!['\x1b', '['] + inner + seq![end]) == csi_scan(text),
{
    let opened = text.push('\x1b').push('[');
    assert(text.push('\x1b').drop_last() =~= text);
    assert(opened.drop_last() =~= text.push('\x1b'));
    assert(csi_scan(text.push('\x1b')) == (csi_scan(text).0, ScanState::Escape));
    assert(csi_scan(opened) == (csi_scan(text).0, ScanState::Csi));
    inside_goes_on(opened, inner);
    let whole = (opened + inner).push(end);
    assert(whole.drop_last() =~= opened + inner);
    assert(whole =~= text + seq!['\x1b', '['] + inner + seq![end]);
}

proof fn inside_goes_on(opened: Seq<char>, inner: Seq<char>)
    requires
        csi_scan(opened).1 == ScanState::Csi,
        forall|i: int| 0 <= i < inner.len() ==> !('@' <= #[trigger] inner[i] <= '~'),
    ensures
        csi_scan(opened + inner) == csi_scan(opened),
    decreases inner.len(),
{
    if inner.len() > 0 {
        inside_goes_on(opened, inner.drop_last());
        let all = opened + inner;
        assert(all.drop_last() =~= opened + inner.drop_last());
        assert(all.last() == inner[inner.len() - 1]);
    } else {
        assert(opened + inner =~= opened);
    }
}

/// A tab is shown as two spaces, any other control code not at all, and any other
/// character as it is.
pub proof fn one_more_character_is_shown(s: Seq<char>, c: char)
    ensures
        c == '\t' ==> printable(s.push(c)) == printable(s) + seq![' ', ' '],
        c != '\t' && is_control_code(c) ==> printable(s.push(c)) == printable(s),
        !is_control_code(c) ==> printable(s.push(c)) == printable(s).push(c),
{
    assert(s.push(c).drop_last() =~= s);
    assert(s.push(c).last() == c);
    assert(printable(s).push(' ').push(' ') =~= printable(s) + seq![' ', ' ']);
}

/// No piece of a wrapped line is wider than the pane, and every piece but the last
/// is as wide.
pub proof fn pieces_fill_the_pane(s: Seq<char>, width: int)
    requires
        width > 0,
    ensures
        chunks(s, width).len() > 0,
        forall|i: int|
            0 <= i < chunks(s, width).len() ==> (#[trigger] chunks(s, width)[i]).len() <= width,
        forall|i: int|
            0 <= i < chunks(s, width).len() - 1 ==> (#[trigger] chunks(s, width)[i]).len() == width,
        s.len() > 0 ==> chunks(s, width).last().len() > 0,
        s.len() == 0 ==> chunks(s, width).len() == 1,
    decreases s.len(),
{
    if s.len() > width {
        pieces_fill_the_pane(s.skip(width), width);
        let rest = chunks(s.skip(width), width);
        let all = chunks(s, width);
        assert forall|i: int| 0 < i < all.len() implies #[trigger] all[i] == rest[i - 1] by {}
        assert(all[0].len() == width);
        assert forall|i: int| 0 <= i < all.len() implies (#[trigger] all[i]).len() <= width by {
            if i > 0 {
                assert(rest[i - 1].len() <= width);
            }
        }
        assert forall|i: int| 0 <= i < all.len() - 1 implies (#[trigger] all[i]).len() == width by {
            if i > 0 {
                assert(rest[i - 1].len() == width);
            }
        }
    }
}

/// A line more is wrapped below the others; a pane without width shows nothing.
pub proof fn one_more_line_is_wrapped_below(all: Seq<Seq<char>>, line: Seq<char>, width: int)
    ensures
        wrapped(all.push(line), width) == wrapped(all, width) + chunks(sanitized(line), width),
        wrapped(Seq::empty(), width).len() == 0,
        width <= 0 ==> wrapped_capture(line, width).len() == 0,
        width > 0 ==> wrapped_capture(line, width) == wrapped(
            without_blank_end(lines(line)),
            width,
        ),
{
    assert(all.push(line).drop_last() =~= all);
    assert(all.push(line).last() == line);
}

/// Of values line by line the last that is there counts.
pub proof fn last_value_counts(values: Seq<Option<Seq<char>>>, v: Option<Seq<char>>)
    ensures
        v is Some ==> latest(values.push(v)) == v->0,
        v is None ==> latest(values.push(v)) == latest(values),
        latest(Seq::empty()).len() == 0,
{
    assert(values.push(v).drop_last() =~= values);
    assert(values.push(v).last() == v);
}

/// A line more that shows counts replaces what earlier lines showed, each count by
/// its own kind.
pub proof fn later_counts_replace_earlier(workspace: Seq<char>, marks: Seq<Marks>, m: Marks)
    ensures
        ({
            let less = tokens_in(workspace, marks);
            let more = tokens_in(workspace, marks.push(m));
            &&& more.workspace == workspace
            &&& m.up is Some ==> more.up == m.up->0
            &&& m.up is None ==> more.up == less.up
            &&& m.down is Some ==> more.down == m.down->0
            &&& m.down is None ==> more.down == less.down
            &&& m.cost is Some ==> more.cost == m.cost->0
            &&& m.cost is None ==> more.cost == less.cost
            &&& more.up.len() > 0 || more.down.len() > 0 ==> more.total.len() == 0
            &&& more.up.len() == 0 && more.down.len() == 0 && m.done_total is Some ==> more.total
                == m.done_total->0
            &&& more.up.len() == 0 && more.down.len() == 0 ==> more.total == latest(
                done_totals(marks.push(m)),
            )
        }),
{
    let all = marks.push(m);
    assert(ups(all) =~= ups(marks).push(m.up));
    assert(downs(all) =~= downs(marks).push(m.down));
    assert(costs(all) =~= costs(marks).push(m.cost));
    assert(done_totals(all) =~= done_totals(marks).push(m.done_total));
    last_value_counts(ups(marks), m.up);
    last_value_counts(downs(marks), m.down);
    last_value_counts(costs(marks), m.cost);
    last_value_counts(done_totals(marks), m.done_total);
}

/// A line has a total exactly where it closes and shows a count, and then the last
/// one; of matches the first counts.
pub proof fn closing_line_has_a_total(is_done: bool, counts: Seq<Seq<char>>)
    ensures
        total_of_done_line(is_done, counts) is Some <==> is_done && counts.len() > 0,
        is_done && counts.len() > 0 ==> total_of_done_line(is_done, counts)->0 == counts[counts.len()
            - 1],
        first_text(counts) is Some <==> counts.len() > 0,
        counts.len() > 0 ==> first_text(counts)->0 == counts[0],
{
}

/// The last thirty lines of a capture are looked at, or all where they are fewer.
pub proof fn end_of_the_capture_is_scanned(capture: Seq<char>)
    ensures
        scanned_lines(capture).is_suffix_of(lines(capture)),
        lines(capture).len() <= 30 ==> scanned_lines(capture) == lines(capture),
        lines(capture).len() > 30 ==> scanned_lines(capture).len() == 30,
{
    let r = scanned_lines(capture);
    let all = lines(capture);
    assert(r =~= all.subrange(all.len() - r.len(), all.len() as int));
}

/// What was sent is found by the arrow up and what was received by the arrow down;
/// of several counts in a line the first is taken, and money goes by its sign.
pub proof fn arrows_tell_the_counts_apart(line: Seq<char>)
    ensures
        ({
            let sent = group_matches(
                "↑\\s*([\\d.]+[kKmM]?)\\s*tokens"@,
                line,
            );
            let received = group_matches(
                "↓\\s*([\\d.]+[kKmM]?)\\s*tokens"@,
                line,
            );
            let marks = marks_in(line);
            &&& marks.up is Some <==> sent.len() > 0
            &&& sent.len() > 0 ==> marks.up->0 == sent[0]
            &&& marks.down is Some <==> received.len() > 0
            &&& received.len() > 0 ==> marks.down->0 == received[0]
            &&& marks.cost == first_match("\\$[\\d.]+"@, line)
        }),
{
}

/// Nothing is found in a terminal exactly where no count of any kind is.
pub proof fn nothing_means_no_count(t: TokensShown)
    ensures
        found_nothing(t) <==> t.up.len() == 0 && t.down.len() == 0
            && t.total.len() == 0 && t.cost.len() == 0,
{
}

} // verus!
