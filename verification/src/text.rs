//! Text as sequences of characters.
//!
//! Every text operation of the crate is described by a spec function over
//! `Seq<char>`; the executable functions are proved against those.

use vstd::prelude::*;

verus! {

broadcast use {vstd::seq_lib::group_seq_properties, vstd::string::group_string_axioms};

/// Appends one character.
///
/// Claimed of `String::push`: the string afterwards holds its former
/// characters followed by `c`.
pub assume_specification[ String::push ](s: &mut String, c: char)
    ensures
        final(s)@ == old(s)@.push(c),
;

/// The texts of a sequence of strings.
pub open spec fn texts(v: Seq<String>) -> Seq<Seq<char>> {
    v.map_values(|s: String| s@)
}

/// White space as Unicode defines it (the `White_Space` property).
pub open spec fn is_white(c: char) -> bool {
    let n = c as u32;
    ||| 9 <= n <= 13
    ||| n == 0x20
    ||| n == 0x85
    ||| n == 0xA0
    ||| n == 0x1680
    ||| 0x2000 <= n <= 0x200A
    ||| n == 0x2028
    ||| n == 0x2029
    ||| n == 0x202F
    ||| n == 0x205F
    ||| n == 0x3000
}

/// Control codes (the general category `Cc`).
pub open spec fn is_control_code(c: char) -> bool {
    let n = c as u32;
    n <= 0x1F || 0x7F <= n <= 0x9F
}

/// ASCII capital letters become small, everything else stays.
pub open spec fn lower_char(c: char) -> char {
    if 'A' <= c && c <= 'Z' {
        ((c as u32 + 32) as u32) as char
    } else {
        c
    }
}

/// `s` with every ASCII capital letter made small.
pub open spec fn lower(s: Seq<char>) -> Seq<char> {
    s.map_values(|c: char| lower_char(c))
}

/// `s` without its leading white space.
pub open spec fn trim_start(s: Seq<char>) -> Seq<char>
    decreases s.len(),
{
    if s.len() > 0 && is_white(s[0]) {
        trim_start(s.drop_first())
    } else {
        s
    }
}

/// `s` without its trailing white space.
pub open spec fn trim_end(s: Seq<char>) -> Seq<char>
    decreases s.len(),
{
    if s.len() > 0 && is_white(s.last()) {
        trim_end(s.drop_last())
    } else {
        s
    }
}

/// `s` without white space at either end.
pub open spec fn trim(s: Seq<char>) -> Seq<char> {
    trim_end(trim_start(s))
}

/// A text that neither begins nor ends with white space.
pub open spec fn is_trim(s: Seq<char>) -> bool {
    s.len() == 0 || (!is_white(s[0]) && !is_white(s.last()))
}

/// Trimming leaves no white space at either end.
pub proof fn trim_is_trim(s: Seq<char>)
    ensures
        is_trim(trim(s)),
{
    start_has_no_white(s);
    end_has_no_white(trim_start(s));
}

proof fn start_has_no_white(s: Seq<char>)
    ensures
        trim_start(s).len() == 0 || !is_white(trim_start(s)[0]),
    decreases s.len(),
{
    if s.len() > 0 && is_white(s[0]) {
        start_has_no_white(s.drop_first());
    }
}

proof fn end_has_no_white(s: Seq<char>)
    ensures
        trim_end(s).len() == 0 || !is_white(trim_end(s).last()),
        trim_end(s).len() <= s.len(),
        trim_end(s) == s.take(trim_end(s).len() as int),
    decreases s.len(),
{
    if s.len() > 0 && is_white(s.last()) {
        end_has_no_white(s.drop_last());
        let t = trim_end(s.drop_last());
        assert(s.drop_last().take(t.len() as int) =~= s.take(t.len() as int));
    } else {
        assert(s.take(s.len() as int) =~= s);
    }
}

/// What has no white space at either end stays as it is.
pub proof fn trim_keeps(s: Seq<char>)
    requires
        is_trim(s),
    ensures
        trim(s) == s,
{
}

/// `needle` stands somewhere in `hay`.
pub open spec fn contains(hay: Seq<char>, needle: Seq<char>) -> bool {
    exists|i: int| occurs_at(hay, needle, i)
}

/// `needle` stands in `hay` at position `i`.
pub open spec fn occurs_at(hay: Seq<char>, needle: Seq<char>, i: int) -> bool {
    0 <= i <= hay.len() - needle.len() && hay.subrange(i, i + needle.len()) == needle
}

/// The pieces of `s` between the occurrences of `sep`.
pub open spec fn split(s: Seq<char>, sep: char) -> Seq<Seq<char>>
    decreases s.len(),
{
    if s.len() == 0 {
        seq![Seq::<char>::empty()]
    } else {
        let front = split(s.drop_last(), sep);
        if s.last() == sep {
            front.push(Seq::<char>::empty())
        } else {
            front.drop_last().push(front.last().push(s.last()))
        }
    }
}

/// `s` without one carriage return at its end.
pub open spec fn strip_cr(s: Seq<char>) -> Seq<char> {
    if s.len() > 0 && s.last() == '\r' {
        s.drop_last()
    } else {
        s
    }
}

/// The lines of `s`: a line ends with a line feed, before which one carriage
/// return is dropped; an empty rest after the last line feed is no line.
pub open spec fn lines(s: Seq<char>) -> Seq<Seq<char>> {
    let pieces = split(s, '\n');
    let ended = pieces.drop_last().map_values(|p: Seq<char>| strip_cr(p));
    if pieces.last().len() == 0 {
        ended
    } else {
        ended.push(pieces.last())
    }
}

/// The maximal runs without white space in `s`, and the run still open at its
/// end (empty when `s` ends with white space).
pub open spec fn words_open(s: Seq<char>) -> (Seq<Seq<char>>, Seq<char>)
    decreases s.len(),
{
    if s.len() == 0 {
        (Seq::empty(), Seq::empty())
    } else {
        let (done, open) = words_open(s.drop_last());
        if !is_white(s.last()) {
            (done, open.push(s.last()))
        } else if open.len() > 0 {
            (done.push(open), Seq::empty())
        } else {
            (done, open)
        }
    }
}

/// The maximal runs without white space in `s`, in order.
pub open spec fn words(s: Seq<char>) -> Seq<Seq<char>> {
    let (done, open) = words_open(s);
    if open.len() > 0 {
        done.push(open)
    } else {
        done
    }
}

/// The parts with `sep` between neighbours.
pub open spec fn join(parts: Seq<Seq<char>>, sep: Seq<char>) -> Seq<char>
    decreases parts.len(),
{
    if parts.len() == 0 {
        Seq::empty()
    } else if parts.len() == 1 {
        parts[0]
    } else {
        join(parts.drop_last(), sep) + sep + parts.last()
    }
}

/// `s` with every character for which `from` holds replaced by `to`.
pub open spec fn replace(s: Seq<char>, from: spec_fn(char) -> bool, to: char) -> Seq<char> {
    s.map_values(|c: char| if from(c) { to } else { c })
}

/// `n` copies of `c`.
pub open spec fn repeat(c: char, n: int) -> Seq<char> {
    Seq::new(if n > 0 { n as nat } else { 0 }, |i: int| c)
}

/// `s` followed by as many spaces as it lacks to `width` characters.
pub open spec fn pad(s: Seq<char>, width: int) -> Seq<char> {
    s + repeat(' ', width - s.len())
}

/// The decimal digit for `d`, which is under ten.
pub open spec fn digit(d: int) -> char {
    if d == 0 { '0' }
    else if d == 1 { '1' }
    else if d == 2 { '2' }
    else if d == 3 { '3' }
    else if d == 4 { '4' }
    else if d == 5 { '5' }
    else if d == 6 { '6' }
    else if d == 7 { '7' }
    else if d == 8 { '8' }
    else { '9' }
}

/// `n` in decimal notation.
pub open spec fn decimal(n: nat) -> Seq<char>
    decreases n,
{
    if n < 10 {
        seq![digit(n as int)]
    } else {
        decimal(n / 10).push(digit((n % 10) as int))
    }
}

/// An integer in decimal notation, with a minus sign where it is negative.
pub open spec fn number(n: int) -> Seq<char> {
    if n < 0 {
        seq!['-'] + decimal((-n) as nat)
    } else {
        decimal(n as nat)
    }
}

/// `a` comes before `b` in lexicographic order of character codes.
pub open spec fn before(a: Seq<char>, b: Seq<char>) -> bool
    decreases a.len(),
{
    if b.len() == 0 {
        false
    } else if a.len() == 0 {
        true
    } else if a[0] != b[0] {
        a[0] < b[0]
    } else {
        before(a.drop_first(), b.drop_first())
    }
}

/// The lexicographic order is irreflexive and transitive, and two texts
/// neither of which comes before the other are the same.
pub proof fn before_is_an_order()
    ensures
        forall|a: Seq<char>| !before(a, a),
        forall|a: Seq<char>, b: Seq<char>, c: Seq<char>|
            #![trigger before(a, b), before(b, c)]
            before(a, b) && before(b, c) ==> before(a, c),
        forall|a: Seq<char>, b: Seq<char>|
            #![trigger before(a, b)]
            before(a, b) || before(b, a) || a == b,
{
    assert forall|a: Seq<char>| !before(a, a) by {
        before_irreflexive(a);
    }
    assert forall|a: Seq<char>, b: Seq<char>, c: Seq<char>|
        #![trigger before(a, b), before(b, c)]
        before(a, b) && before(b, c) implies before(a, c) by {
        before_transitive(a, b, c);
    }
    assert forall|a: Seq<char>, b: Seq<char>|
        #![trigger before(a, b)]
        before(a, b) || before(b, a) || a == b by {
        before_total(a, b);
    }
}

proof fn before_irreflexive(a: Seq<char>)
    ensures
        !before(a, a),
    decreases a.len(),
{
    if a.len() > 0 {
        before_irreflexive(a.drop_first());
    }
}

proof fn before_transitive(a: Seq<char>, b: Seq<char>, c: Seq<char>)
    requires
        before(a, b),
        before(b, c),
    ensures
        before(a, c),
    decreases a.len(),
{
    if a.len() > 0 && a[0] == b[0] && b[0] == c[0] {
        before_transitive(a.drop_first(), b.drop_first(), c.drop_first());
    }
}

proof fn before_total(a: Seq<char>, b: Seq<char>)
    ensures
        before(a, b) || before(b, a) || a == b,
    decreases a.len(),
{
    if a.len() == 0 || b.len() == 0 {
        if a.len() == 0 && b.len() == 0 {
            assert(a =~= b);
        }
    } else if a[0] == b[0] {
        before_total(a.drop_first(), b.drop_first());
        if a.drop_first() == b.drop_first() {
            assert(a =~= seq![a[0]] + a.drop_first());
            assert(b =~= seq![b[0]] + b.drop_first());
        }
    }
}

/// The characters of `s`, in order.
pub fn chars_of(s: &str) -> (v: Vec<char>)
    ensures
        v@ == s@,
{
    let mut v: Vec<char> = Vec::new();
    for c in it: s.chars()
        invariant
            v@ == s@.take(it.index() as int),
            it.seq() == s@,
    {
        v.push(c);
        proof {
            assert(s@.take(it.index() as int).push(c) =~= s@.take(it.index() + 1));
        }
    }
    proof {
        assert(s@.take(s@.len() as int) =~= s@);
    }
    v
}

/// The string that holds the characters `v[from..to]`.
pub fn string_of(v: &Vec<char>, from: usize, to: usize) -> (s: String)
    requires
        from <= to <= v@.len(),
    ensures
        s@ == v@.subrange(from as int, to as int),
{
    let mut s = String::new();
    let mut i: usize = from;
    while i < to
        invariant
            from <= i <= to <= v@.len(),
            s@ == v@.subrange(from as int, i as int),
        decreases to - i,
    {
        s.push(v[i]);
        proof {
            assert(v@.subrange(from as int, i as int).push(v@[i as int]) =~= v@.subrange(
                from as int,
                i + 1,
            ));
        }
        i = i + 1;
    }
    s
}

/// Whether two texts are the same.
pub fn same(a: &str, b: &str) -> (r: bool)
    ensures
        r == (a@ == b@),
{
    a.to_owned() == b.to_owned()
}

/// The number of characters of `s`.
pub fn char_count(s: &str) -> (n: usize)
    ensures
        n == s@.len(),
{
    s.unicode_len()
}

/// Whether a character is white space.
pub fn is_white_char(c: char) -> (r: bool)
    ensures
        r == is_white(c),
{
    let n = c as u32;
    (9 <= n && n <= 13) || n == 0x20 || n == 0x85 || n == 0xA0 || n == 0x1680 || (0x2000 <= n && n
        <= 0x200A) || n == 0x2028 || n == 0x2029 || n == 0x202F || n == 0x205F || n == 0x3000
}

/// Whether a character is a control code.
pub fn is_control_char(c: char) -> (r: bool)
    ensures
        r == is_control_code(c),
{
    let n = c as u32;
    n <= 0x1F || (0x7F <= n && n <= 0x9F)
}

/// The small form of an ASCII capital letter, any other character unchanged.
pub fn to_lower_char(c: char) -> (r: char)
    ensures
        r == lower_char(c),
{
    if 'A' <= c && c <= 'Z' {
        ((c as u8) + 32u8) as char
    } else {
        c
    }
}

/// The text with every ASCII capital letter made small.
pub fn to_lower(s: &str) -> (r: String)
    ensures
        r@ == lower(s@),
{
    let v = chars_of(s);
    let mut r = String::new();
    let mut i: usize = 0;
    while i < v.len()
        invariant
            i <= v@.len(),
            r@ == lower(v@.take(i as int)),
        decreases v@.len() - i,
    {
        r.push(to_lower_char(v[i]));
        proof {
            assert(lower(v@.take(i as int)).push(lower_char(v@[i as int])) =~= lower(
                v@.take(i + 1),
            ));
        }
        i = i + 1;
    }
    proof {
        assert(v@.take(v@.len() as int) =~= v@);
    }
    r
}

/// The text with every occurrence of `from` replaced by `to`.
pub fn replace_char(s: &str, from: char, to: char) -> (r: String)
    ensures
        r@ == replace(s@, |c: char| c == from, to),
{
    let v = chars_of(s);
    let mut r = String::new();
    let ghost f = |c: char| c == from;
    let mut i: usize = 0;
    while i < v.len()
        invariant
            i <= v@.len(),
            f == (|c: char| c == from),
            r@ == replace(v@.take(i as int), f, to),
        decreases v@.len() - i,
    {
        let c = v[i];
        r.push(if c == from { to } else { c });
        proof {
            assert(replace(v@.take(i as int), f, to).push(if f(c) { to } else { c }) =~= replace(
                v@.take(i + 1),
                f,
                to,
            ));
        }
        i = i + 1;
    }
    proof {
        assert(v@.take(v@.len() as int) =~= v@);
    }
    r
}

/// The text on one line: line feeds and carriage returns become spaces.
pub open spec fn one_line(s: Seq<char>) -> Seq<char> {
    replace(s, |c: char| c == '\n' || c == '\r', ' ')
}

/// The text with line feeds and carriage returns replaced by spaces.
pub fn to_one_line(s: &str) -> (r: String)
    ensures
        r@ == one_line(s@),
{
    let a = replace_char(s, '\n', ' ');
    let b = replace_char(a.as_str(), '\r', ' ');
    proof {
        assert(b@ =~= one_line(s@));
    }
    b
}

/// Where the text without leading white space begins.
pub fn skip_white(v: &Vec<char>) -> (from: usize)
    ensures
        from <= v@.len(),
        trim_start(v@) == v@.skip(from as int),
{
    let mut from: usize = 0;
    proof {
        assert(v@.skip(0) =~= v@);
    }
    while from < v.len() && is_white_char(v[from])
        invariant
            from <= v@.len(),
            trim_start(v@) == trim_start(v@.skip(from as int)),
        decreases v@.len() - from,
    {
        proof {
            assert(v@.skip(from as int).drop_first() =~= v@.skip(from + 1));
        }
        from = from + 1;
    }
    from
}

/// Where the text without trailing white space ends.
pub fn drop_white(v: &Vec<char>, from: usize) -> (to: usize)
    requires
        from <= v@.len(),
    ensures
        from <= to <= v@.len(),
        trim_end(v@.skip(from as int)) == v@.subrange(from as int, to as int),
{
    let mut to: usize = v.len();
    proof {
        assert(v@.skip(from as int) =~= v@.subrange(from as int, to as int));
    }
    while from < to && is_white_char(v[to - 1])
        invariant
            from <= to <= v@.len(),
            trim_end(v@.skip(from as int)) == trim_end(v@.subrange(from as int, to as int)),
        decreases to,
    {
        proof {
            assert(v@.subrange(from as int, to as int).drop_last() =~= v@.subrange(
                from as int,
                to - 1,
            ));
        }
        to = to - 1;
    }
    to
}

/// The text without white space at either end.
pub fn trimmed(s: &str) -> (r: String)
    ensures
        r@ == trim(s@),
{
    let v = chars_of(s);
    let from = skip_white(&v);
    let to = drop_white(&v, from);
    string_of(&v, from, to)
}

/// Whether `needle` stands in `hay` at position `i`.
pub fn stands_at(hay: &Vec<char>, needle: &Vec<char>, i: usize) -> (r: bool)
    requires
        i <= hay@.len(),
    ensures
        r == occurs_at(hay@, needle@, i as int),
{
    let n = hay.len();
    if needle.len() > n - i {
        return false;
    }
    let mut k: usize = 0;
    while k < needle.len()
        invariant
            k <= needle@.len(),
            n == hay@.len(),
            i + needle@.len() <= hay@.len(),
            forall|j: int| 0 <= j < k ==> hay@[i + j] == needle@[j],
        decreases needle@.len() - k,
    {
        if hay[i + k] != needle[k] {
            proof {
                assert(hay@.subrange(i as int, i + needle@.len())[k as int] != needle@[k as int]);
            }
            return false;
        }
        k = k + 1;
    }
    proof {
        assert(hay@.subrange(i as int, i + needle@.len()) =~= needle@);
    }
    true
}

/// Whether `needle` stands somewhere in `hay`.
pub fn has(hay: &str, needle: &str) -> (r: bool)
    ensures
        r == contains(hay@, needle@),
{
    let h = chars_of(hay);
    let n = chars_of(needle);
    let mut i: usize = 0;
    while i < h.len()
        invariant
            i <= h@.len(),
            h@ == hay@,
            n@ == needle@,
            forall|j: int| 0 <= j < i ==> !occurs_at(h@, n@, j),
        decreases h@.len() - i,
    {
        if stands_at(&h, &n, i) {
            return true;
        }
        i = i + 1;
    }
    let last = stands_at(&h, &n, i);
    proof {
        if contains(hay@, needle@) {
            let j = choose|j: int| occurs_at(hay@, needle@, j);
            assert(0 <= j <= h@.len());
        }
    }
    last
}

/// Whether `s` begins with `prefix`.
pub fn begins(s: &str, prefix: &str) -> (r: bool)
    ensures
        r == prefix@.is_prefix_of(s@),
{
    let h = chars_of(s);
    let n = chars_of(prefix);
    let r = stands_at(&h, &n, 0);
    proof {
        if prefix@.len() <= s@.len() {
            assert(s@.subrange(0, prefix@.len() as int) =~= s@.take(prefix@.len() as int));
        }
    }
    r
}

/// The texts of a vector grow with it.
pub proof fn texts_push(v: Seq<String>, s: String)
    ensures
        texts(v.push(s)) == texts(v).push(s@),
{
    assert(texts(v.push(s)) =~= texts(v).push(s@));
}

proof fn split_is_not_empty(s: Seq<char>, sep: char)
    ensures
        split(s, sep).len() > 0,
    decreases s.len(),
{
    if s.len() > 0 {
        split_is_not_empty(s.drop_last(), sep);
    }
}

proof fn pieces_hold_no_sep(s: Seq<char>, sep: char)
    ensures
        forall|i: int| 0 <= i < split(s, sep).len() ==> !(#[trigger] split(s, sep)[i]).contains(sep),
    decreases s.len(),
{
    split_is_not_empty(s, sep);
    if s.len() > 0 {
        pieces_hold_no_sep(s.drop_last(), sep);
        split_is_not_empty(s.drop_last(), sep);
        let front = split(s.drop_last(), sep);
        assert(!front.last().contains(sep));
        if s.last() != sep {
            let grown = front.last().push(s.last());
            if grown.contains(sep) {
                let j = choose|j: int| 0 <= j < grown.len() && grown[j] == sep;
                assert(front.last()[j] == sep);
            }
        }
        assert forall|i: int| 0 <= i < split(s, sep).len() implies !(#[trigger] split(
            s,
            sep,
        )[i]).contains(sep) by {
            if i < front.len() - 1 {
                assert(split(s, sep)[i] == front[i]);
            }
        }
    }
}

proof fn split_grows(s: Seq<char>, more: Seq<char>, sep: char)
    requires
        !more.contains(sep),
    ensures
        split(s + more, sep) == split(s, sep).drop_last().push(split(s, sep).last() + more),
    decreases more.len(),
{
    split_is_not_empty(s, sep);
    let front = split(s, sep);
    if more.len() == 0 {
        assert(s + more =~= s);
        assert(front.last() + more =~= front.last());
        assert(front.drop_last().push(front.last()) =~= front);
    } else {
        let less = more.drop_last();
        assert forall|i: int| 0 <= i < less.len() implies less[i] != sep by {
            assert(more.contains(more[i]));
        }
        split_grows(s, less, sep);
        assert((s + more).drop_last() =~= s + less);
        assert(more.contains(more.last()));
        let grown = front.drop_last().push(front.last() + less);
        assert(grown.drop_last() =~= front.drop_last());
        assert((front.last() + less).push(more.last()) =~= front.last() + more);
    }
}

/// No line holds a line feed.
pub proof fn lines_hold_no_feed(s: Seq<char>)
    ensures
        forall|i: int| 0 <= i < lines(s).len() ==> !(#[trigger] lines(s)[i]).contains('\n'),
{
    split_is_not_empty(s, '\n');
    pieces_hold_no_sep(s, '\n');
    let pieces = split(s, '\n');
    assert forall|i: int| 0 <= i < lines(s).len() implies !(#[trigger] lines(s)[i]).contains(
        '\n',
    ) by {
        let line = lines(s)[i];
        assert(!pieces[i].contains('\n'));
        if line.contains('\n') {
            let j = choose|j: int| 0 <= j < line.len() && line[j] == '\n';
            assert(pieces[i][j] == '\n');
        }
    }
}

/// Lines one below the other, each with a line feed at its end.
pub open spec fn written(all: Seq<Seq<char>>) -> Seq<char>
    decreases all.len(),
{
    if all.len() == 0 {
        Seq::empty()
    } else {
        written(all.drop_last()) + all.last() + seq!['\n']
    }
}

/// Lines that were written one below the other are read as they were, but for one
/// carriage return at the end of each.
pub proof fn written_lines_come_back(all: Seq<Seq<char>>)
    requires
        forall|i: int| 0 <= i < all.len() ==> !(#[trigger] all[i]).contains('\n'),
    ensures
        lines(written(all)) == all.map_values(|l: Seq<char>| strip_cr(l)),
{
    written_is_split(all);
    let pieces = split(written(all), '\n');
    assert(pieces.drop_last() =~= all);
    assert(lines(written(all)) =~= all.map_values(|l: Seq<char>| strip_cr(l)));
}

proof fn written_is_split(all: Seq<Seq<char>>)
    requires
        forall|i: int| 0 <= i < all.len() ==> !(#[trigger] all[i]).contains('\n'),
    ensures
        split(written(all), '\n') == all.push(Seq::empty()),
    decreases all.len(),
{
    if all.len() == 0 {
        assert(split(written(all), '\n') =~= all.push(Seq::empty()));
    } else {
        let front = all.drop_last();
        assert forall|i: int| 0 <= i < front.len() implies !(#[trigger] front[i]).contains(
            '\n',
        ) by {
            assert(front[i] == all[i]);
        }
        written_is_split(front);
        assert(!all[all.len() - 1].contains('\n'));
        split_grows(written(front), all.last(), '\n');
        assert(front.push(Seq::empty()).drop_last() =~= front);
        assert(Seq::<char>::empty() + all.last() =~= all.last());
        assert(front.push(all.last()) =~= all);
        assert(written(all).drop_last() =~= written(front) + all.last());
    }
}

/// White space at the end makes no difference to what is left after trimming.
pub proof fn trim_forgets_white_end(s: Seq<char>)
    requires
        s.len() > 0,
        is_white(s.last()),
    ensures
        trim(s) == trim(s.drop_last()),
    decreases s.len(),
{
    if is_white(s[0]) {
        if s.len() == 1 {
            assert(s.drop_first() =~= Seq::empty());
            assert(s.drop_last() =~= Seq::empty());
        } else {
            trim_forgets_white_end(s.drop_first());
            assert(s.drop_first().drop_last() =~= s.drop_last().drop_first());
        }
    }
}

proof fn start_is_skipped(s: Seq<char>)
    ensures
        trim_start(s).len() <= s.len(),
        trim_start(s) == s.skip(s.len() - trim_start(s).len()),
    decreases s.len(),
{
    if s.len() > 0 && is_white(s[0]) {
        start_is_skipped(s.drop_first());
        let n = trim_start(s).len();
        assert(s.drop_first().skip(s.len() - 1 - n) =~= s.skip(s.len() - n));
    } else {
        assert(s.skip(0) =~= s);
    }
}

/// What is left after trimming stands in the text.
pub proof fn trim_is_a_part(s: Seq<char>)
    ensures
        contains(s, trim(s)),
{
    start_is_skipped(s);
    end_has_no_white(trim_start(s));
    let i = s.len() - trim_start(s).len();
    assert(s.subrange(i, i + trim(s).len()) =~= trim(s));
    assert(occurs_at(s, trim(s), i));
}

/// The end of a text stands in it.
pub proof fn end_is_a_part(s: Seq<char>, n: int)
    requires
        0 <= n <= s.len(),
    ensures
        contains(s, s.skip(n)),
{
    assert(s.subrange(n, n + s.skip(n).len()) =~= s.skip(n));
    assert(occurs_at(s, s.skip(n), n));
}

/// What stands in a part of a text stands in the text.
pub proof fn parts_have_parts(s: Seq<char>, part: Seq<char>, inner: Seq<char>)
    requires
        contains(s, part),
        contains(part, inner),
    ensures
        contains(s, inner),
{
    let i = choose|i: int| occurs_at(s, part, i);
    let j = choose|j: int| occurs_at(part, inner, j);
    assert(s.subrange(i + j, i + j + inner.len()) =~= part.subrange(j, j + inner.len()));
    assert(occurs_at(s, inner, i + j));
}

proof fn open_words_are_runs(s: Seq<char>)
    ensures
        ({
            let (done, open) = words_open(s);
            &&& forall|j: int| 0 <= j < open.len() ==> is_word_char(s, #[trigger] open[j])
            &&& forall|i: int| 0 <= i < done.len() ==> is_run(s, #[trigger] done[i])
        }),
    decreases s.len(),
{
    if s.len() > 0 {
        let less = s.drop_last();
        open_words_are_runs(less);
        let (done, open) = words_open(less);
        let (now_done, now_open) = words_open(s);
        assert(s.contains(s.last()));
        assert forall|c: char| #[trigger] is_word_char(less, c) implies is_word_char(s, c) by {
            let j = choose|j: int| 0 <= j < less.len() && less[j] == c;
            assert(s[j] == c);
        }
        assert forall|j: int| 0 <= j < now_open.len() implies is_word_char(
            s,
            #[trigger] now_open[j],
        ) by {
            if j < open.len() {
                assert(is_word_char(less, open[j]));
            }
        }
        assert forall|i: int| 0 <= i < now_done.len() implies is_run(s, #[trigger] now_done[i]) by {
            let run = now_done[i];
            if i < done.len() {
                assert(is_run(less, done[i]));
            }
            assert forall|j: int| 0 <= j < run.len() implies is_word_char(s, #[trigger] run[j]) by {
                assert(is_word_char(less, run[j]));
            }
        }
    }
}

/// A character of `s` that is not white space.
pub open spec fn is_word_char(s: Seq<char>, c: char) -> bool {
    s.contains(c) && !is_white(c)
}

/// A run of characters of `s` without white space.
pub open spec fn is_run(s: Seq<char>, run: Seq<char>) -> bool {
    run.len() > 0 && forall|j: int| 0 <= j < run.len() ==> is_word_char(s, #[trigger] run[j])
}

/// A word is not empty, holds no white space and is made of characters of the
/// text.
pub proof fn words_are_runs(s: Seq<char>)
    ensures
        forall|i: int| 0 <= i < words(s).len() ==> is_run(s, #[trigger] words(s)[i]),
{
    open_words_are_runs(s);
}

/// A text in lower case holds no capital letter of ASCII.
pub proof fn lower_has_no_capital(s: Seq<char>)
    ensures
        forall|c: char| #[trigger] lower(s).contains(c) ==> !('A' <= c && c <= 'Z'),
{
    assert forall|c: char| #[trigger] lower(s).contains(c) implies !('A' <= c && c <= 'Z') by {
        let j = choose|j: int| 0 <= j < lower(s).len() && lower(s)[j] == c;
        assert(c == lower_char(s[j]));
    }
}

/// The pieces of `s` between the occurrences of `sep`.
pub fn split_text(s: &str, sep: char) -> (r: Vec<String>)
    ensures
        texts(r@) == split(s@, sep),
        r@.len() > 0,
{
    let v = chars_of(s);
    let mut done: Vec<String> = Vec::new();
    let mut open = String::new();
    let mut i: usize = 0;
    proof {
        assert(texts(done@).push(open@) =~= split(v@.take(0), sep));
    }
    while i < v.len()
        invariant
            i <= v@.len(),
            texts(done@).push(open@) == split(v@.take(i as int), sep),
        decreases v@.len() - i,
    {
        let ghost front = texts(done@).push(open@);
        proof {
            assert(v@.take(i + 1).drop_last() =~= v@.take(i as int));
        }
        if v[i] == sep {
            proof {
                texts_push(done@, open);
            }
            done.push(open);
            open = String::new();
        } else {
            open.push(v[i]);
            proof {
                assert(front.drop_last() =~= texts(done@));
            }
        }
        i = i + 1;
    }
    proof {
        assert(v@.take(v@.len() as int) =~= v@);
        texts_push(done@, open);
    }
    done.push(open);
    done
}

/// The text without one carriage return at its end.
fn without_cr(s: String) -> (r: String)
    ensures
        r@ == strip_cr(s@),
{
    let v = chars_of(s.as_str());
    if v.len() > 0 && v[v.len() - 1] == '\r' {
        let r = string_of(&v, 0, v.len() - 1);
        proof {
            assert(r@ =~= s@.drop_last());
        }
        r
    } else {
        s
    }
}

/// The lines of a text.
pub fn lines_of(s: &str) -> (r: Vec<String>)
    ensures
        texts(r@) == lines(s@),
{
    let mut pieces = split_text(s, '\n');
    let ghost all = texts(pieces@);
    let last = pieces.pop().unwrap();
    let ghost front = pieces@;
    proof {
        assert(all.drop_last() =~= texts(front));
        assert(all.last() == last@);
    }
    let mut r: Vec<String> = Vec::new();
    let n = pieces.len();
    let mut i: usize = 0;
    proof {
        assert(texts(r@) =~= texts(front.take(0)).map_values(|p: Seq<char>| strip_cr(p)));
    }
    while i < n
        invariant
            i <= n,
            n == front.len(),
            pieces@ == front,
            texts(r@) == texts(front.take(i as int)).map_values(|p: Seq<char>| strip_cr(p)),
        decreases n - i,
    {
        let line = without_cr(pieces[i].clone());
        proof {
            texts_push(r@, line);
            assert(texts(front.take(i + 1)).map_values(|p: Seq<char>| strip_cr(p)) =~= texts(
                front.take(i as int),
            ).map_values(|p: Seq<char>| strip_cr(p)).push(strip_cr(front[i as int]@)));
        }
        r.push(line);
        i = i + 1;
    }
    proof {
        assert(front.take(n as int) =~= front);
        texts_push(r@, last);
    }
    if !last.as_str().is_empty() {
        r.push(last);
    }
    r
}

/// The maximal runs of a text without white space.
pub fn words_of(s: &str) -> (r: Vec<String>)
    ensures
        texts(r@) == words(s@),
{
    let v = chars_of(s);
    let mut done: Vec<String> = Vec::new();
    let mut open = String::new();
    let mut i: usize = 0;
    proof {
        assert(texts(done@) =~= words_open(v@.take(0)).0);
        assert(open@ =~= words_open(v@.take(0)).1);
    }
    while i < v.len()
        invariant
            i <= v@.len(),
            texts(done@) == words_open(v@.take(i as int)).0,
            open@ == words_open(v@.take(i as int)).1,
        decreases v@.len() - i,
    {
        proof {
            assert(v@.take(i + 1).drop_last() =~= v@.take(i as int));
        }
        if !is_white_char(v[i]) {
            open.push(v[i]);
        } else if !open.as_str().is_empty() {
            proof {
                texts_push(done@, open);
            }
            done.push(open);
            open = String::new();
        }
        i = i + 1;
    }
    proof {
        assert(v@.take(v@.len() as int) =~= v@);
        texts_push(done@, open);
    }
    if !open.as_str().is_empty() {
        done.push(open);
    }
    done
}

/// The parts `v[from..to]` with `sep` between neighbours.
pub fn join_range(v: &Vec<String>, from: usize, to: usize, sep: &str) -> (r: String)
    requires
        from <= to <= v@.len(),
    ensures
        r@ == join(texts(v@.subrange(from as int, to as int)), sep@),
{
    let mut r = String::new();
    let mut i: usize = from;
    proof {
        assert(r@ =~= join(texts(v@.subrange(from as int, from as int)), sep@));
    }
    while i < to
        invariant
            from <= i <= to <= v@.len(),
            r@ == join(texts(v@.subrange(from as int, i as int)), sep@),
        decreases to - i,
    {
        let ghost parts = texts(v@.subrange(from as int, i + 1));
        proof {
            assert(parts.drop_last() =~= texts(v@.subrange(from as int, i as int)));
            assert(parts.last() == v@[i as int]@);
        }
        if i > from {
            r.append(sep);
            r.append(v[i].as_str());
        } else {
            r = v[i].clone();
            proof {
                assert(parts.len() == 1);
                assert(parts[0] == v@[i as int]@);
            }
        }
        i = i + 1;
    }
    r
}

/// The parts with `sep` between neighbours.
pub fn join_all(v: &Vec<String>, sep: &str) -> (r: String)
    ensures
        r@ == join(texts(v@), sep@),
{
    proof {
        assert(v@.subrange(0, v@.len() as int) =~= v@);
    }
    join_range(v, 0, v.len(), sep)
}

/// `n` copies of `c`.
pub fn repeat_char(c: char, n: usize) -> (r: String)
    ensures
        r@ == repeat(c, n as int),
{
    let mut r = String::new();
    let mut i: usize = 0;
    while i < n
        invariant
            i <= n,
            r@ =~= repeat(c, i as int),
        decreases n - i,
    {
        r.push(c);
        i = i + 1;
    }
    r
}

/// The text followed by as many spaces as it lacks to `width` characters.
pub fn padded(s: &str, width: usize) -> (r: String)
    ensures
        r@ == pad(s@, width as int),
{
    let n = char_count(s);
    let mut r = s.to_owned();
    if n < width {
        r.append(repeat_char(' ', width - n).as_str());
    }
    proof {
        if n >= width {
            assert(pad(s@, width as int) =~= s@);
        }
    }
    r
}

/// The decimal digit for `d`.
pub fn digit_char(d: u64) -> (c: char)
    requires
        d < 10,
    ensures
        c == digit(d as int),
{
    if d == 0 { '0' }
    else if d == 1 { '1' }
    else if d == 2 { '2' }
    else if d == 3 { '3' }
    else if d == 4 { '4' }
    else if d == 5 { '5' }
    else if d == 6 { '6' }
    else if d == 7 { '7' }
    else if d == 8 { '8' }
    else { '9' }
}

/// An unsigned number in decimal notation.
pub fn decimal_of(n: u128) -> (r: String)
    ensures
        r@ == decimal(n as nat),
    decreases n,
{
    let mut r = if n < 10 {
        String::new()
    } else {
        decimal_of(n / 10)
    };
    r.push(digit_char((n % 10) as u64));
    proof {
        if n < 10 {
            assert(r@ =~= seq![digit(n as int)]);
        }
    }
    r
}

/// A size in decimal notation.
pub fn count_of(n: usize) -> (r: String)
    ensures
        r@ == decimal(n as nat),
{
    decimal_of(n as u128)
}

/// A signed number in decimal notation.
pub fn number_of(n: i128) -> (r: String)
    ensures
        r@ == number(n as int),
{
    if n < 0 {
        let m: u128 = ((-(n + 1)) as u128) + 1;
        let mut r = String::new();
        r.push('-');
        r.append(decimal_of(m).as_str());
        proof {
            assert(r@ =~= seq!['-'] + decimal(m as nat));
        }
        r
    } else {
        decimal_of(n as u128)
    }
}

/// Whether `a` comes before `b` in lexicographic order.
pub fn is_before(a: &str, b: &str) -> (r: bool)
    ensures
        r == before(a@, b@),
{
    let x = chars_of(a);
    let y = chars_of(b);
    let mut i: usize = 0;
    proof {
        assert(x@.skip(0) =~= x@);
        assert(y@.skip(0) =~= y@);
    }
    while i < x.len() && i < y.len() && x[i] == y[i]
        invariant
            i <= x@.len(),
            i <= y@.len(),
            before(x@, y@) == before(x@.skip(i as int), y@.skip(i as int)),
        decreases x@.len() - i,
    {
        proof {
            assert(x@.skip(i as int).drop_first() =~= x@.skip(i + 1));
            assert(y@.skip(i as int).drop_first() =~= y@.skip(i + 1));
        }
        i = i + 1;
    }
    if i >= y.len() {
        false
    } else if i >= x.len() {
        true
    } else {
        x[i] < y[i]
    }
}

/// Whether one of the strings is `s`.
pub fn is_one_of(s: &str, v: &Vec<String>) -> (r: bool)
    ensures
        r == texts(v@).contains(s@),
{
    let mut i: usize = 0;
    while i < v.len()
        invariant
            i <= v@.len(),
            forall|j: int| 0 <= j < i ==> v@[j]@ != s@,
        decreases v@.len() - i,
    {
        if same(s, v[i].as_str()) {
            proof {
                assert(texts(v@)[i as int] == s@);
            }
            return true;
        }
        i = i + 1;
    }
    proof {
        if texts(v@).contains(s@) {
            let j = choose|j: int| 0 <= j < texts(v@).len() && texts(v@)[j] == s@;
            assert(v@[j]@ == s@);
        }
    }
    false
}

/// `s` with the occurrences of `from`, taken from the left and without overlap,
/// replaced by `to`; an empty `from` replaces nothing.
pub open spec fn replace_all(s: Seq<char>, from: Seq<char>, to: Seq<char>) -> Seq<char>
    decreases s.len(),
{
    if from.len() == 0 || s.len() < from.len() {
        s
    } else if s.take(from.len() as int) == from {
        to + replace_all(s.skip(from.len() as int), from, to)
    } else {
        seq![s[0]] + replace_all(s.drop_first(), from, to)
    }
}

/// The text with the occurrences of `from` replaced by `to`.
pub fn replace_text(s: &str, from: &str, to: &str) -> (r: String)
    ensures
        r@ == replace_all(s@, from@, to@),
{
    let v = chars_of(s);
    let f = chars_of(from);
    if f.len() == 0 {
        return s.to_owned();
    }
    let mut r = String::new();
    let mut i: usize = 0;
    proof {
        assert(v@.skip(0) =~= v@);
        assert(r@ + replace_all(v@.skip(0), f@, to@) =~= replace_all(v@, f@, to@));
    }
    while i < v.len()
        invariant
            i <= v@.len(),
            0 < f@.len(),
            r@ + replace_all(v@.skip(i as int), f@, to@) == replace_all(v@, f@, to@),
        decreases v@.len() - i,
    {
        let ghost rest = v@.skip(i as int);
        let ghost pre = r@;
        if stands_at(&v, &f, i) {
            proof {
                assert(rest.take(f@.len() as int) =~= v@.subrange(i as int, i + f@.len()));
                assert(rest.skip(f@.len() as int) =~= v@.skip(i + f@.len()));
            }
            r.append(to);
            proof {
                assert(pre + (to@ + replace_all(v@.skip(i + f@.len()), f@, to@)) =~= r@
                    + replace_all(v@.skip(i + f@.len()), f@, to@));
            }
            i = i + f.len();
        } else {
            r.push(v[i]);
            proof {
                assert(rest.drop_first() =~= v@.skip(i + 1));
                if rest.len() < f@.len() {
                    assert(v@.skip(i + 1).len() < f@.len());
                    assert(rest =~= seq![v@[i as int]] + v@.skip(i + 1));
                } else {
                    assert(rest.take(f@.len() as int) =~= v@.subrange(i as int, i + f@.len()));
                }
                assert(pre + (seq![v@[i as int]] + replace_all(v@.skip(i + 1), f@, to@)) =~= r@
                    + replace_all(v@.skip(i + 1), f@, to@));
            }
            i = i + 1;
        }
    }
    proof {
        assert(v@.skip(v@.len() as int) =~= Seq::<char>::empty());
        assert(r@ + Seq::<char>::empty() =~= r@);
    }
    r
}

/// `s` without all leading repetitions of `prefix`.
pub open spec fn without_prefixes(s: Seq<char>, prefix: Seq<char>) -> Seq<char>
    decreases s.len(),
{
    if prefix.len() > 0 && prefix.is_prefix_of(s) {
        without_prefixes(s.skip(prefix.len() as int), prefix)
    } else {
        s
    }
}

/// The text without all leading repetitions of `prefix`.
pub fn strip_prefixes(s: &str, prefix: &str) -> (r: String)
    ensures
        r@ == without_prefixes(s@, prefix@),
{
    let mut rest = s.to_owned();
    let n = char_count(prefix);
    while n > 0 && begins(rest.as_str(), prefix)
        invariant
            n == prefix@.len(),
            without_prefixes(rest@, prefix@) == without_prefixes(s@, prefix@),
        decreases rest@.len(),
    {
        let v = chars_of(rest.as_str());
        let shorter = string_of(&v, n, v.len());
        proof {
            assert(shorter@ =~= rest@.skip(n as int));
        }
        rest = shorter;
    }
    rest
}

/// A text between quotation marks, with escapes for what would not be readable.
pub uninterp spec fn quoted(text: Seq<char>) -> Seq<char>;

/// A text between quotation marks.
///
/// Calls the `Debug` formatting of `str`. Claimed: what it writes depends on the
/// text alone.
#[verifier::external_body]
pub(crate) fn quote(text: &str) -> (r: String)
    ensures
        r@ == quoted(text@),
{
    format!("{text:?}")
}

} // verus!
