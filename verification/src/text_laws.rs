//! What holds of texts, numbers, times of day and names, whatever they are.

use vstd::prelude::*;

use crate::config::{has_orchestrator, orchestrator_of, shown_name, tree_names, ProjectNode};
use crate::text::{
    before, contains, decimal, digit, is_control_code, is_white, join, lower, number, occurs_at,
    one_line, pad, quoted, replace_all, split, trim, trim_end, trim_start, without_prefixes, words,
    words_open,
};
use crate::time::{clock_text, two_digits, Timestamp};
use crate::tmux::keys::named_key;
use crate::tmux::sessions::{attach_op, decoded, encoded, tmux_problem};
use crate::tmux::sessions::TmuxError::{Command, Io, Parse, SessionNotFound};

verus! {

/// One text comes before another exactly where they are the same up to some
/// place, and there the first ends and the second goes on, or the first has the
/// smaller character.
pub proof fn before_decides_at_the_first_difference(a: Seq<char>, b: Seq<char>, n: int)
    requires
        0 <= n <= a.len(),
        n <= b.len(),
        forall|i: int| 0 <= i < n ==> a[i] == b[i],
    ensures
        n == a.len() && n < b.len() ==> before(a, b) && !before(b, a),
        n < a.len() && n < b.len() && a[n] < b[n] ==> before(a, b) && !before(b, a),
        n == a.len() && n == b.len() ==> !before(a, b) && !before(b, a),
    decreases n,
{
    if n > 0 {
        before_decides_at_the_first_difference(a.drop_first(), b.drop_first(), n - 1);
    }
}

/// The value of a decimal digit.
pub open spec fn digit_value(c: char) -> int {
    c as int - '0' as int
}

/// The value of a run of decimal digits.
pub open spec fn decimal_value(s: Seq<char>) -> int
    decreases s.len(),
{
    if s.len() == 0 {
        0
    } else {
        10 * decimal_value(s.drop_last()) + digit_value(s.last())
    }
}

/// A number in decimal notation is made of digits, has its value, and has no zero
/// in front of other digits.
pub proof fn decimal_has_its_value(n: nat)
    ensures
        decimal_value(decimal(n)) == n,
        decimal(n).len() > 0,
        forall|i: int| 0 <= i < decimal(n).len() ==> '0' <= #[trigger] decimal(n)[i] <= '9',
        decimal(n).len() > 1 ==> decimal(n)[0] != '0',
    decreases n,
{
    if n >= 10 {
        decimal_has_its_value(n / 10);
        let s = decimal(n);
        assert(s.drop_last() =~= decimal(n / 10));
        if decimal(n / 10).len() == 1 {
            assert(n / 10 >= 1);
            reveal_with_fuel(decimal_value, 2);
            assert(decimal(n / 10).drop_last() =~= Seq::empty());
            assert(decimal_value(decimal(n / 10)) == digit_value(decimal(n / 10)[0]));
        }
    } else {
        reveal_with_fuel(decimal_value, 2);
        assert(decimal(n).drop_last() =~= Seq::empty());
    }
}

/// A negative number has a minus sign and then the digits of its amount; no other
/// has one.
pub proof fn minus_marks_the_negative(n: int)
    ensures
        n < 0 ==> number(n)[0] == '-' && decimal_value(number(n).drop_first()) == -n,
        n >= 0 ==> number(n)[0] != '-' && decimal_value(number(n)) == n,
{
    if n < 0 {
        decimal_has_its_value((-n) as nat);
        assert(number(n).drop_first() =~= decimal((-n) as nat));
    } else {
        decimal_has_its_value(n as nat);
        assert('0' <= decimal(n as nat)[0]);
    }
}

/// Small letters are kept and capitals become the letter of the same place in the
/// alphabet; nothing else changes.
pub proof fn capitals_become_small(s: Seq<char>, i: int)
    requires
        0 <= i < s.len(),
    ensures
        lower(s).len() == s.len(),
        'A' <= s[i] <= 'Z' ==> lower(s)[i] as int - 'a' as int == s[i] as int - 'A' as int,
        !('A' <= s[i] <= 'Z') ==> lower(s)[i] == s[i],
{
}

proof fn start_goes(s: Seq<char>) -> (n: int)
    ensures
        0 <= n <= s.len(),
        trim_start(s) == s.skip(n),
        forall|i: int| 0 <= i < n ==> is_white(#[trigger] s[i]),
        n < s.len() ==> !is_white(s[n]),
    decreases s.len(),
{
    if s.len() > 0 && is_white(s[0]) {
        let rest = s.drop_first();
        let n = start_goes(rest);
        assert(rest.skip(n) =~= s.skip(n + 1));
        assert forall|i: int| 0 <= i < n + 1 implies is_white(#[trigger] s[i]) by {
            if i > 0 {
                assert(s[i] == rest[i - 1]);
            }
        }
        n + 1
    } else {
        assert(s.skip(0) =~= s);
        0
    }
}

proof fn end_goes(s: Seq<char>) -> (n: int)
    ensures
        0 <= n <= s.len(),
        trim_end(s) == s.take(n),
        forall|i: int| n <= i < s.len() ==> is_white(#[trigger] s[i]),
        n > 0 ==> !is_white(s[n - 1]),
    decreases s.len(),
{
    if s.len() > 0 && is_white(s.last()) {
        let front = s.drop_last();
        let n = end_goes(front);
        assert(front.take(n) =~= s.take(n));
        assert forall|i: int| n <= i < s.len() implies is_white(#[trigger] s[i]) by {
            if i < s.len() - 1 {
                assert(s[i] == front[i]);
            }
        }
        n
    } else {
        assert(s.take(s.len() as int) =~= s);
        s.len() as int
    }
}

/// Trimming takes white space away at both ends, all of it, and nothing else.
pub proof fn only_white_ends_go(s: Seq<char>) -> (ends: (int, int))
    ensures
        0 <= ends.0 <= ends.1 <= s.len(),
        trim(s) == s.subrange(ends.0, ends.1),
        forall|i: int| 0 <= i < ends.0 || ends.1 <= i < s.len() ==> is_white(#[trigger] s[i]),
        ends.0 < ends.1 ==> !is_white(s[ends.0]) && !is_white(s[ends.1 - 1]),
{
    let a = start_goes(s);
    let rest = s.skip(a);
    let n = end_goes(rest);
    assert(trim(s) =~= s.subrange(a, a + n));
    assert forall|i: int| 0 <= i < a || a + n <= i < s.len() implies is_white(#[trigger] s[i]) by {
        if i >= a {
            assert(rest[i - a] == s[i]);
        }
    }
    if n > 0 {
        assert(rest[0] == s[a]);
        assert(rest[n - 1] == s[a + n - 1]);
    }
    (a, a + n)
}

/// Spaces, tabs and line ends are white; letters, digits and punctuation are not.
pub proof fn letters_are_not_white(c: char)
    ensures
        c == ' ' || c == '\t' || c == '\n' || c == '\r' ==> is_white(c),
        '!' <= c <= '~' ==> !is_white(c),
        c == '\t' || c == '\n' || c == '\r' ==> is_control_code(c),
        ' ' <= c <= '~' ==> !is_control_code(c),
{
}

/// What was split at a separator gives the text again when it is joined with it,
/// and no piece holds the separator.
pub proof fn splitting_is_undone_by_joining(s: Seq<char>, sep: char)
    ensures
        join(split(s, sep), seq![sep]) == s,
        split(s, sep).len() > 0,
        forall|i: int| 0 <= i < split(s, sep).len() ==> !(#[trigger] split(s, sep)[i]).contains(sep),
    decreases s.len(),
{
    let all = split(s, sep);
    if s.len() == 0 {
        assert(all[0] =~= Seq::empty());
    } else {
        let front = split(s.drop_last(), sep);
        splitting_is_undone_by_joining(s.drop_last(), sep);
        let c = s.last();
        if c == sep {
            assert(all.drop_last() =~= front);
            assert(join(front, seq![sep]) + seq![sep] + Seq::<char>::empty() =~= s);
        } else {
            let piece = front.last().push(c);
            assert(all.last() == piece);
            assert(all.drop_last() =~= front.drop_last());
            if front.len() == 1 {
                assert(all[0] =~= s);
            } else {
                assert(join(all, seq![sep]) =~= join(front, seq![sep]).push(c));
                assert(join(front, seq![sep]).push(c) =~= s);
            }
            assert forall|i: int| 0 <= i < all.len() implies !(#[trigger] all[i]).contains(
                sep,
            ) by {
                if i < front.len() - 1 {
                    assert(all[i] == front[i]);
                } else {
                    assert(!front[front.len() - 1].contains(sep));
                    assert(all[i] == piece);
                    if piece.contains(sep) {
                        let k = choose|k: int| 0 <= k < piece.len() && piece[k] == sep;
                        assert(k < front.last().len());
                        assert(front.last()[k] == sep);
                    }
                }
            }
        }
    }
}

/// A text on one line is as long as before and has a space for each line end;
/// nothing else changes.
pub proof fn line_ends_become_spaces(s: Seq<char>, i: int)
    requires
        0 <= i < s.len(),
    ensures
        one_line(s).len() == s.len(),
        s[i] == '\n' || s[i] == '\r' ==> one_line(s)[i] == ' ',
        s[i] != '\n' && s[i] != '\r' ==> one_line(s)[i] == s[i],
{
}

/// A text is filled up with spaces behind it, and is never cut.
pub proof fn padding_stands_behind(s: Seq<char>, width: int)
    ensures
        pad(s, width).len() == if s.len() >= width {
            s.len() as int
        } else {
            width
        },
        s.is_prefix_of(pad(s, width)),
        forall|i: int| s.len() <= i < pad(s, width).len() ==> #[trigger] pad(s, width)[i] == ' ',
{
    assert(s =~= pad(s, width).subrange(0, s.len() as int));
}

/// All leading repetitions of a prefix go, and nothing else does.
pub proof fn prefixes_go(s: Seq<char>, prefix: Seq<char>)
    requires
        prefix.len() > 0,
    ensures
        without_prefixes(prefix + s, prefix) == without_prefixes(s, prefix),
        !prefix.is_prefix_of(s) ==> without_prefixes(s, prefix) == s,
        !prefix.is_prefix_of(without_prefixes(s, prefix)),
        without_prefixes(s, prefix).is_suffix_of(s),
    decreases s.len(),
{
    assert(prefix =~= (prefix + s).subrange(0, prefix.len() as int));
    assert((prefix + s).skip(prefix.len() as int) =~= s);
    if prefix.is_prefix_of(s) {
        let rest = s.skip(prefix.len() as int);
        prefixes_go(rest, prefix);
        let r = without_prefixes(rest, prefix);
        assert(r =~= s.subrange(s.len() - r.len(), s.len() as int));
    } else {
        assert(s =~= s.subrange(0, s.len() as int));
    }
}

/// The whole seconds between two instants are what has fully gone by, in either
/// direction.
pub proof fn whole_seconds_have_gone_by(start: Timestamp, end: Timestamp)
    requires
        start.sub_nanos() < 1_000_000_000,
        end.sub_nanos() < 1_000_000_000,
    ensures
        ({
            let nanos = 1_000_000_000 * (end.unix_secs() - start.unix_secs()) + (end.sub_nanos()
                - start.sub_nanos());
            let whole = end.seconds_from(start);
            &&& nanos >= 0 ==> 1_000_000_000 * whole <= nanos < 1_000_000_000 * (whole + 1)
            &&& nanos <= 0 ==> 1_000_000_000 * (whole - 1) < nanos <= 1_000_000_000 * whole
            &&& start.earlier(end) <==> nanos > 0
            &&& end.seconds_from(start) == -start.seconds_from(end)
        }),
{
}

/// A time of day has two digits each for the hour, the minute and the second, with
/// colons between, and together they give the seconds since midnight.
pub proof fn clock_gives_the_seconds_of_the_day(secs: int)
    ensures
        ({
            let t = clock_text(secs);
            let hour = 10 * digit_value(t[0]) + digit_value(t[1]);
            let minute = 10 * digit_value(t[3]) + digit_value(t[4]);
            let second = 10 * digit_value(t[6]) + digit_value(t[7]);
            &&& t.len() == 8
            &&& t[2] == ':'
            &&& t[5] == ':'
            &&& 0 <= hour < 24
            &&& 0 <= minute < 60
            &&& 0 <= second < 60
            &&& 3600 * hour + 60 * minute + second == secs % 86400
        }),
{
    let s = secs % 86400;
    let h = s / 3600;
    let m = s / 60 % 60;
    let x = s % 60;
    digits_give_the_value(h);
    digits_give_the_value(m);
    digits_give_the_value(x);
    let t = clock_text(secs);
    assert(t[0] == two_digits(h)[0] && t[1] == two_digits(h)[1]);
    assert(t[3] == two_digits(m)[0] && t[4] == two_digits(m)[1]);
    assert(t[6] == two_digits(x)[0] && t[7] == two_digits(x)[1]);
    assert(3600 * h + 60 * m + x == s);
}

proof fn digits_give_the_value(n: int)
    requires
        0 <= n < 100,
    ensures
        10 * digit_value(two_digits(n)[0]) + digit_value(two_digits(n)[1]) == n,
{
    assert(0 <= n / 10 < 10 && 0 <= n % 10 < 10);
    assert(digit_value(digit(n / 10)) == n / 10);
    assert(digit_value(digit(n % 10)) == n % 10);
}

/// A project is shown under its alias exactly where it has one.
pub proof fn alias_comes_first(node: ProjectNode)
    ensures
        node.alias@.len() > 0 ==> shown_name(node) == node.alias@,
        node.alias@.len() == 0 ==> shown_name(node) == node.name@,
{
}

/// The orchestrator of the root has no prefix and every other has that of its
/// project; only the root can be without one.
pub proof fn orchestrators_carry_the_prefix(node: ProjectNode)
    ensures
        node.prefix@.len() == 0 ==> orchestrator_of(node.prefix@) == "orchestrator"@,
        node.prefix@.len() > 0 ==> orchestrator_of(node.prefix@) == node.prefix@
            + ".orchestrator"@,
        has_orchestrator(node) <==> node.prefix@.len() > 0 || !node.disable_root_orchestrator,
        has_orchestrator(node) ==> tree_names(node, orchestrator_of(node.prefix@)),
        forall|i: int|
            0 <= i < node.workspaces@.len() ==> tree_names(
                node,
                (#[trigger] node.workspaces@[i]).merged_name@,
            ),
{
}

/// tmux knows these keys by these names.
pub open spec fn tmux_key_names() -> Seq<Seq<char>> {
    seq![
        "Enter"@,
        "Escape"@,
        "Tab"@,
        "Space"@,
        "BSpace"@,
        "DC"@,
        "Up"@,
        "Down"@,
        "Left"@,
        "Right"@,
        "Home"@,
        "End"@,
        "PPage"@,
        "NPage"@,
        "C-c"@,
        "C-d"@,
        "C-u"@,
        "C-l"@,
        "C-a"@,
        "C-z"@,
        "C-r"@,
        "C-w"@,
        "C-k"@,
        "C-e"@,
        "C-b"@,
        "C-f"@,
        "C-p"@,
        "C-n"@,
    ]
}

/// Other words for keys, each with the name by which tmux knows the key.
pub open spec fn tmux_key_aliases() -> Seq<(Seq<char>, Seq<char>)> {
    seq![
        ("Return"@, "Enter"@),
        ("Esc"@, "Escape"@),
        ("Backspace"@, "BSpace"@),
        ("Delete"@, "DC"@),
        ("PageUp"@, "PPage"@),
        ("PageDown"@, "NPage"@),
        ("Ctrl-C"@, "C-c"@),
        ("Ctrl-D"@, "C-d"@),
        ("Ctrl-U"@, "C-u"@),
        ("Ctrl-L"@, "C-l"@),
        ("Ctrl-A"@, "C-a"@),
        ("Ctrl-Z"@, "C-z"@),
        ("Ctrl-R"@, "C-r"@),
        ("Ctrl-W"@, "C-w"@),
        ("Ctrl-K"@, "C-k"@),
        ("Ctrl-E"@, "C-e"@),
        ("Ctrl-B"@, "C-b"@),
        ("Ctrl-F"@, "C-f"@),
        ("Ctrl-P"@, "C-p"@),
        ("Ctrl-N"@, "C-n"@),
    ]
}

/// A word stands for a key exactly where it is tmux's name of the key or another
/// word for it, and it stands for that key and no other.
pub proof fn keys_go_by_their_names(key: Seq<char>)
    ensures
        named_key(key) is Some <==> tmux_key_names().contains(key) || exists|i: int|
            0 <= i < tmux_key_aliases().len() && (#[trigger] tmux_key_aliases()[i]).0 == key,
        named_key(key) is Some ==> tmux_key_names().contains(named_key(key)->0) && (named_key(
            key,
        )->0 == key || tmux_key_aliases().contains((key, named_key(key)->0))),
{
    let names = tmux_key_names();
    let aliases = tmux_key_aliases();
    assert(names[0] == "Enter"@);
    assert(names[1] == "Escape"@);
    assert(names[2] == "Tab"@);
    assert(names[3] == "Space"@);
    assert(names[4] == "BSpace"@);
    assert(names[5] == "DC"@);
    assert(names[6] == "Up"@);
    assert(names[7] == "Down"@);
    assert(names[8] == "Left"@);
    assert(names[9] == "Right"@);
    assert(names[10] == "Home"@);
    assert(names[11] == "End"@);
    assert(names[12] == "PPage"@);
    assert(names[13] == "NPage"@);
    assert(names[14] == "C-c"@);
    assert(names[15] == "C-d"@);
    assert(names[16] == "C-u"@);
    assert(names[17] == "C-l"@);
    assert(names[18] == "C-a"@);
    assert(names[19] == "C-z"@);
    assert(names[20] == "C-r"@);
    assert(names[21] == "C-w"@);
    assert(names[22] == "C-k"@);
    assert(names[23] == "C-e"@);
    assert(names[24] == "C-b"@);
    assert(names[25] == "C-f"@);
    assert(names[26] == "C-p"@);
    assert(names[27] == "C-n"@);
    assert(aliases[0] == ("Return"@, "Enter"@));
    assert(aliases[1] == ("Esc"@, "Escape"@));
    assert(aliases[2] == ("Backspace"@, "BSpace"@));
    assert(aliases[3] == ("Delete"@, "DC"@));
    assert(aliases[4] == ("PageUp"@, "PPage"@));
    assert(aliases[5] == ("PageDown"@, "NPage"@));
    assert(aliases[6] == ("Ctrl-C"@, "C-c"@));
    assert(aliases[7] == ("Ctrl-D"@, "C-d"@));
    assert(aliases[8] == ("Ctrl-U"@, "C-u"@));
    assert(aliases[9] == ("Ctrl-L"@, "C-l"@));
    assert(aliases[10] == ("Ctrl-A"@, "C-a"@));
    assert(aliases[11] == ("Ctrl-Z"@, "C-z"@));
    assert(aliases[12] == ("Ctrl-R"@, "C-r"@));
    assert(aliases[13] == ("Ctrl-W"@, "C-w"@));
    assert(aliases[14] == ("Ctrl-K"@, "C-k"@));
    assert(aliases[15] == ("Ctrl-E"@, "C-e"@));
    assert(aliases[16] == ("Ctrl-B"@, "C-b"@));
    assert(aliases[17] == ("Ctrl-F"@, "C-f"@));
    assert(aliases[18] == ("Ctrl-P"@, "C-p"@));
    assert(aliases[19] == ("Ctrl-N"@, "C-n"@));
}

/// The name of a workspace is kept in that of its session but for the dots, which
/// become underscores; read back, the underscores become dots.
pub proof fn only_dots_and_underscores_change(name: Seq<char>, i: int)
    requires
        0 <= i < name.len(),
    ensures
        encoded(name).len() == name.len(),
        decoded(name).len() == name.len(),
        encoded(name)[i] == if name[i] == '.' {
            '_'
        } else {
            name[i]
        },
        decoded(name)[i] == if name[i] == '_' {
            '.'
        } else {
            name[i]
        },
{
}

/// Within tmux a client switches to a session; outside it attaches to one.
pub proof fn inside_tmux_one_switches(inside: bool)
    ensures
        inside ==> attach_op(inside)@ == "switch-client"@,
        !inside ==> attach_op(inside)@ == "attach-session"@,
{
}

/// White space ends a word and adds nothing; any other character goes on with the
/// word that the text ends with, or begins a new one.
pub proof fn words_end_at_white_space(s: Seq<char>, c: char)
    ensures
        is_white(c) ==> words(s.push(c)) == words(s),
        !is_white(c) && (s.len() == 0 || is_white(s.last())) ==> words(s.push(c)) == words(s).push(
            seq![c],
        ),
        !is_white(c) && s.len() > 0 && !is_white(s.last()) ==> words(s).len() > 0 && words(
            s.push(c),
        ) == words(s).drop_last().push(words(s).last().push(c)),
        words(Seq::empty()).len() == 0,
{
    assert(s.push(c).drop_last() =~= s);
    assert(s.push(c).last() == c);
    open_word_is_the_end(s);
    let (done, open) = words_open(s);
    assert(open.len() == 0 ==> open.push(c) =~= seq![c]);
    if open.len() > 0 {
        assert(done.push(open).drop_last() =~= done);
    }
}

proof fn open_word_is_the_end(s: Seq<char>)
    ensures
        words_open(s).1.len() == 0 <==> s.len() == 0 || is_white(s.last()),
    decreases s.len(),
{
    if s.len() > 0 {
        open_word_is_the_end(s.drop_last());
    }
}

/// A text holds whatever it was put together around, and nothing longer than
/// itself.
pub proof fn texts_hold_their_parts(a: Seq<char>, needle: Seq<char>, b: Seq<char>)
    ensures
        contains(a + needle + b, needle),
        a.len() < needle.len() ==> !contains(a, needle),
        contains(a, Seq::empty()),
{
    let whole = a + needle + b;
    assert(whole.subrange(a.len() as int, a.len() as int + needle.len()) =~= needle);
    assert(occurs_at(whole, needle, a.len() as int));
    assert(a.subrange(0, 0) =~= Seq::<char>::empty());
    assert(occurs_at(a, Seq::empty(), 0));
}

/// What stands first is replaced, and so is the rest; a text without what is
/// looked for stays.
pub proof fn every_occurrence_is_replaced(s: Seq<char>, from: Seq<char>, to: Seq<char>)
    requires
        from.len() > 0,
    ensures
        replace_all(from + s, from, to) == to + replace_all(s, from, to),
        !contains(s, from) ==> replace_all(s, from, to) == s,
    decreases s.len(),
{
    assert((from + s).take(from.len() as int) =~= from);
    assert((from + s).skip(from.len() as int) =~= s);
    if !contains(s, from) && s.len() >= from.len() {
        if s.take(from.len() as int) == from {
            assert(s.subrange(0, from.len() as int) =~= from);
            assert(occurs_at(s, from, 0));
        }
        let rest = s.drop_first();
        assert(!contains(rest, from)) by {
            if contains(rest, from) {
                let i = choose|i: int| occurs_at(rest, from, i);
                assert(s.subrange(i + 1, i + 1 + from.len()) =~= rest.subrange(
                    i,
                    i + from.len(),
                ));
                assert(occurs_at(s, from, i + 1));
            }
        }
        every_occurrence_is_replaced(rest, from, to);
        assert(seq![s[0]] + rest =~= s);
    }
}

/// Joined parts stand in order with the separator between neighbours and nowhere
/// else.
pub proof fn separators_stand_between(parts: Seq<Seq<char>>, part: Seq<char>, sep: Seq<char>)
    ensures
        join(Seq::empty(), sep).len() == 0,
        parts.len() == 0 ==> join(parts.push(part), sep) == part,
        parts.len() > 0 ==> join(parts.push(part), sep) == join(parts, sep) + sep + part,
{
    assert(parts.push(part).drop_last() =~= parts);
    assert(parts.push(part).last() == part);
}

/// Besides the ASCII ones these characters are white, and of those beyond ASCII no
/// other is.
pub proof fn wide_spaces_are_white(c: char)
    requires
        c as u32 >= 0x80,
    ensures
        is_white(c) <==> c == '\u{85}' || c == '\u{a0}' || c == '\u{1680}' || ('\u{2000}' <= c
            && c <= '\u{200a}') || c == '\u{2028}' || c == '\u{2029}' || c == '\u{202f}' || c
            == '\u{205f}' || c == '\u{3000}',
        is_control_code(c) <==> '\u{80}' <= c && c <= '\u{9f}',
{
}

/// Of ASCII the space and the codes from the tab to the carriage return are white.
pub proof fn narrow_spaces_are_white(c: char)
    requires
        (c as u32) < 0x80,
    ensures
        is_white(c) <==> c == ' ' || ('\t' <= c && c <= '\r'),
        is_control_code(c) <==> c < ' ' || c == '\u{7f}',
{
}

/// What went wrong with tmux is told with what was tried and why it failed.
pub proof fn tmux_failures_tell_why(op: String, message: String)
    ensures
        tmux_problem(
            Command { op, message },
        ) == "tmux "@ + op@ + ": "@ + message@,
        tmux_problem(Parse(message))
            == "parse tmux output: "@ + message@,
        tmux_problem(Io(message))
            == "tmux exec: "@ + message@,
        tmux_problem(
            SessionNotFound { workspace: op },
        ) == "tmux session for workspace "@ + quoted(op@) + " not found"@,
{
}

} // verus!
