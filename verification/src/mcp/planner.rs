//! A survey of a project, and what it suggests for the team that works on it.

use vstd::prelude::*;

use crate::order::{sort_stably, sorted, sorted_images, Ranked, Rule};
use crate::text::{
    before, before_is_an_order, begins, char_count, chars_of, contains, count_of, decimal,
    end_is_a_part, is_before, is_one_of, is_run, is_trim, is_white, is_word_char, lines, lines_hold_no_feed, lines_of, lower,
    lower_has_no_capital, parts_have_parts, same, split, split_text, string_of, strip_cr, strip_prefixes, texts,
    to_lower, trim, trim_forgets_white_end, trim_is_a_part, trim_is_trim, trim_keeps, trimmed, without_prefixes,
    words, words_are_runs, words_of, written, written_lines_come_back,
};

verus! {

broadcast use vstd::string::group_string_axioms;

/// Files that tell what a directory is built with.
pub open spec fn is_manifest(name: Seq<char>) -> bool {
    name == "package.json"@ || name == "pnpm-workspace.yaml"@ || name == "tsconfig.json"@ || name
        == "go.mod"@ || name == "go.sum"@ || name == "Cargo.toml"@ || name == "pyproject.toml"@
        || name == "requirements.txt"@ || name == "Gemfile"@ || name == "pom.xml"@ || name
        == "build.gradle"@ || name == "build.gradle.kts"@ || name == "main.tf"@ || name
        == "terragrunt.hcl"@ || name == "Dockerfile"@ || name == "docker-compose.yml"@ || name
        == "docker-compose.yaml"@
}

fn names_manifest(name: &str) -> (r: bool)
    ensures
        r == is_manifest(name@),
{
    same(name, "package.json") || same(name, "pnpm-workspace.yaml") || same(name, "tsconfig.json")
        || same(name, "go.mod") || same(name, "go.sum") || same(name, "Cargo.toml") || same(
        name,
        "pyproject.toml",
    ) || same(name, "requirements.txt") || same(name, "Gemfile") || same(name, "pom.xml") || same(
        name,
        "build.gradle",
    ) || same(name, "build.gradle.kts") || same(name, "main.tf") || same(name, "terragrunt.hcl")
        || same(name, "Dockerfile") || same(name, "docker-compose.yml") || same(
        name,
        "docker-compose.yaml",
    )
}

/// Names of directories that stand for a role, in capitals or not.
pub open spec fn is_role(name: Seq<char>) -> bool {
    let low = lower(name);
    low == "frontend"@ || low == "backend"@ || low == "api"@ || low == "web"@ || low == "ui"@
        || low == "client"@ || low == "server"@ || low == "cli"@ || low == "infra"@ || low
        == "infrastructure"@ || low == "platform"@ || low == "devops"@ || low == "ops"@ || low
        == "docs"@ || low == "qa"@ || low == "testing"@ || low == "mobile"@
}

fn names_role(name: &str) -> (r: bool)
    ensures
        r == is_role(name@),
{
    let text = to_lower(name);
    let low = text.as_str();
    same(low, "frontend") || same(low, "backend") || same(low, "api") || same(low, "web") || same(
        low,
        "ui",
    ) || same(low, "client") || same(low, "server") || same(low, "cli") || same(low, "infra")
        || same(low, "infrastructure") || same(low, "platform") || same(low, "devops") || same(
        low,
        "ops",
    ) || same(low, "docs") || same(low, "qa") || same(low, "testing") || same(low, "mobile")
}

/// Directories that no workspace is made of: hidden ones, and those that tools
/// fill.
pub open spec fn is_passed_over(name: Seq<char>) -> bool {
    (name.len() > 0 && name[0] == '.') || name == ".git"@ || name == ".ax"@ || name == ".github"@
        || name == ".vscode"@ || name == ".idea"@ || name == ".venv"@ || name == "venv"@ || name
        == "node_modules"@ || name == "target"@ || name == "dist"@ || name == "build"@ || name
        == "out"@ || name == ".next"@ || name == "__pycache__"@ || name == ".pytest_cache"@
        || name == ".mypy_cache"@ || name == ".ruff_cache"@ || name == ".terraform"@
}

/// A hidden entry of a directory.
fn is_hidden(name: &str) -> (r: bool)
    ensures
        r == (name@.len() > 0 && name@[0] == '.'),
{
    let v = chars_of(name);
    v.len() > 0 && v[0] == '.'
}

fn names_passed_over(name: &str) -> (r: bool)
    ensures
        r == is_passed_over(name@),
{
    is_hidden(name) || same(name, ".git") || same(name, ".ax") || same(name, ".github") || same(
        name,
        ".vscode",
    ) || same(name, ".idea") || same(name, ".venv") || same(name, "venv") || same(
        name,
        "node_modules",
    ) || same(name, "target") || same(name, "dist") || same(name, "build") || same(name, "out")
        || same(name, ".next") || same(name, "__pycache__") || same(name, ".pytest_cache") || same(
        name,
        ".mypy_cache",
    ) || same(name, ".ruff_cache") || same(name, ".terraform")
}

/// What a directory of the project looks like.
#[derive(Debug, Clone)]
pub struct DirSummary {
    pub name: String,
    pub file_count: u64,
    pub manifests: Vec<String>,
    pub has_readme: bool,
    pub looks_role_like: bool,
}

/// What a directory looks like, as a value.
pub struct DirFacts {
    pub name: Seq<char>,
    pub file_count: int,
    pub manifests: Seq<Seq<char>>,
    pub has_readme: bool,
    pub looks_role_like: bool,
}

impl View for DirSummary {
    type V = DirFacts;

    open spec fn view(&self) -> DirFacts {
        DirFacts {
            name: self.name@,
            file_count: self.file_count as int,
            manifests: texts(self.manifests@),
            has_readme: self.has_readme,
            looks_role_like: self.looks_role_like,
        }
    }
}

/// What directories look like.
pub open spec fn dir_facts(dirs: Seq<DirSummary>) -> Seq<DirFacts> {
    dirs.map_values(|d: DirSummary| d@)
}

/// Directories go by name.
impl Rule for DirFacts {
    open spec fn goes_before(&self, other: &Self) -> bool {
        before(self.name, other.name)
    }

    proof fn rule_is_strict_weak_order() {
        before_is_an_order();
        assert forall|a: Self, b: Self, c: Self|
            #![trigger a.goes_before(&c), a.goes_before(&b)]
            a.goes_before(&c) implies a.goes_before(&b) || b.goes_before(&c) by {
            assert(before(a.name, b.name) || before(b.name, a.name) || a.name == b.name);
        }
    }
}

/// Directories go by name.
impl Rule for DirSummary {
    open spec fn goes_before(&self, other: &Self) -> bool {
        before(self.name@, other.name@)
    }

    proof fn rule_is_strict_weak_order() {
        before_is_an_order();
        assert forall|a: Self, b: Self, c: Self|
            #![trigger a.goes_before(&c), a.goes_before(&b)]
            a.goes_before(&c) implies a.goes_before(&b) || b.goes_before(&c) by {
            assert(before(a.name@, b.name@) || before(b.name@, a.name@) || a.name@ == b.name@);
        }
    }
}

impl Ranked for DirSummary {
    fn is_ahead_of(&self, other: &Self) -> bool {
        is_before(self.name.as_str(), other.name.as_str())
    }
}

/// A file or a directory within a directory.
#[derive(Debug, Clone)]
pub struct ChildEntry {
    pub name: String,
    pub is_file: bool,
}

/// What was found within the project: a file, or a directory with what it
/// holds. What a directory that cannot be read holds is not known.
#[derive(Debug, Clone)]
pub struct DirListing {
    pub name: String,
    pub is_dir: bool,
    pub children: Vec<ChildEntry>,
}

/// How many of the entries are files.
pub open spec fn files_among(children: Seq<ChildEntry>) -> int
    decreases children.len(),
{
    if children.len() == 0 {
        0
    } else {
        files_among(children.drop_last()) + if children.last().is_file { 1int } else { 0 }
    }
}

/// A file that explains the directory.
pub open spec fn is_readme(name: Seq<char>) -> bool {
    lower(name) == "readme.md"@ || lower(name) == "readme"@
}

/// One of the entries is a file that explains the directory.
pub open spec fn readme_among(children: Seq<ChildEntry>) -> bool {
    exists|i: int|
        0 <= i < children.len() && (#[trigger] children[i]).is_file && is_readme(children[i].name@)
}

/// The files among the entries that tell what the directory is built with.
pub open spec fn manifests_among(children: Seq<ChildEntry>) -> Seq<Seq<char>>
    decreases children.len(),
{
    if children.len() == 0 {
        Seq::empty()
    } else if children.last().is_file && is_manifest(children.last().name@) {
        manifests_among(children.drop_last()).push(children.last().name@)
    } else {
        manifests_among(children.drop_last())
    }
}

/// What a directory looks like.
pub open spec fn looks(listing: DirListing) -> DirFacts {
    DirFacts {
        name: listing.name@,
        file_count: files_among(listing.children@),
        manifests: manifests_among(listing.children@),
        has_readme: readme_among(listing.children@),
        looks_role_like: is_role(listing.name@),
    }
}

/// What a directory looks like.
pub fn summarize_dir(listing: &DirListing) -> (r: DirSummary)
    ensures
        r@ == looks(*listing),
{
    let children = &listing.children;
    let mut file_count: u64 = 0;
    let mut manifests: Vec<String> = Vec::new();
    let mut has_readme = false;
    let mut i: usize = 0;
    proof {
        assert(texts(manifests@) =~= Seq::empty());
    }
    while i < children.len()
        invariant
            i <= children@.len(),
            file_count <= i,
            file_count == files_among(children@.take(i as int)),
            texts(manifests@) == manifests_among(children@.take(i as int)),
            has_readme == readme_among(children@.take(i as int)),
        decreases children@.len() - i,
    {
        let child = &children[i];
        let ghost seen = children@.take(i as int);
        let ghost now = children@.take(i + 1);
        proof {
            assert(now.drop_last() =~= seen);
            assert(now.last() == *child);
            assert(readme_among(now) == (readme_among(seen) || (child.is_file && is_readme(
                child.name@,
            )))) by {
                if readme_among(seen) {
                    let j = choose|j: int|
                        0 <= j < seen.len() && (#[trigger] seen[j]).is_file && is_readme(
                            seen[j].name@,
                        );
                    assert(now[j] == seen[j]);
                }
                if child.is_file && is_readme(child.name@) {
                    assert(now[i as int] == *child);
                }
                if readme_among(now) {
                    let j = choose|j: int|
                        0 <= j < now.len() && (#[trigger] now[j]).is_file && is_readme(
                            now[j].name@,
                        );
                    if j < i {
                        assert(seen[j] == now[j]);
                    }
                }
            }
        }
        if child.is_file {
            file_count = file_count + 1;
            let low = to_lower(child.name.as_str());
            if same(low.as_str(), "readme.md") || same(low.as_str(), "readme") {
                has_readme = true;
            }
            if names_manifest(child.name.as_str()) {
                let ghost pre = manifests@;
                manifests.push(child.name.clone());
                proof {
                    assert(texts(manifests@) =~= texts(pre).push(child.name@));
                }
            }
        }
        i = i + 1;
    }
    proof {
        assert(children@.take(children@.len() as int) =~= children@);
    }
    DirSummary {
        name: listing.name.clone(),
        file_count,
        manifests,
        has_readme,
        looks_role_like: names_role(listing.name.as_str()),
    }
}

/// What the directories look like that a workspace could be made of.
pub open spec fn candidates(found: Seq<DirListing>) -> Seq<DirFacts>
    decreases found.len(),
{
    if found.len() == 0 {
        Seq::empty()
    } else if found.last().is_dir && !is_passed_over(found.last().name@) {
        candidates(found.drop_last()).push(looks(found.last()))
    } else {
        candidates(found.drop_last())
    }
}

/// The directories that a workspace could be made of, by name.
pub open spec fn surveyed(found: Seq<DirListing>) -> Seq<DirFacts> {
    sorted(candidates(found))
}

/// The directories that a workspace could be made of, by name.
pub fn scan_toplevel(found: &Vec<DirListing>) -> (r: Vec<DirSummary>)
    ensures
        dir_facts(r@) == surveyed(found@),
{
    let mut out: Vec<DirSummary> = Vec::new();
    let mut i: usize = 0;
    proof {
        assert(dir_facts(out@) =~= candidates(found@.take(0)));
    }
    while i < found.len()
        invariant
            i <= found@.len(),
            dir_facts(out@) == candidates(found@.take(i as int)),
        decreases found@.len() - i,
    {
        let listing = &found[i];
        proof {
            assert(found@.take(i + 1).drop_last() =~= found@.take(i as int));
        }
        if listing.is_dir && !names_passed_over(listing.name.as_str()) {
            let ghost pre = out@;
            let summary = summarize_dir(listing);
            out.push(summary);
            proof {
                assert(dir_facts(out@) =~= dir_facts(pre).push(summary@));
            }
        }
        i = i + 1;
    }
    let ghost unsorted = out@;
    sort_stably(&mut out);
    proof {
        assert(found@.take(found@.len() as int) =~= found@);
        let f = |d: DirSummary| d@;
        assert forall|a: DirSummary, b: DirSummary|
            #![trigger f(a).goes_before(&f(b))]
            #![trigger a.goes_before(&b)]
            a.goes_before(&b) == f(a).goes_before(&f(b)) by {}
        sorted_images(out@, unsorted, f);
    }
    out
}

/// How many of the directories stand for a role.
pub open spec fn role_like(dirs: Seq<DirFacts>) -> int
    decreases dirs.len(),
{
    if dirs.len() == 0 {
        0
    } else {
        role_like(dirs.drop_last()) + if dirs.last().looks_role_like { 1int } else { 0 }
    }
}

/// How many of the directories are explained.
pub open spec fn explained(dirs: Seq<DirFacts>) -> int
    decreases dirs.len(),
{
    if dirs.len() == 0 {
        0
    } else {
        explained(dirs.drop_last()) + if dirs.last().has_readme { 1int } else { 0 }
    }
}

/// The axis along which a team could be cut, and what speaks for it: by role
/// where most directories stand for roles, by domain where several that do not
/// explain themselves, by both where both are there.
pub open spec fn axis_of(dirs: Seq<DirFacts>) -> (Seq<char>, Seq<char>) {
    let roles = role_like(dirs);
    let others = dirs.len() - roles;
    if roles >= 2 && roles >= others {
        (
            "role"@,
            decimal(roles as nat) + " top-level directory name(s) match known role labels"@,
        )
    } else if others >= 2 && explained(dirs) >= 2 && roles == 0 {
        (
            "domain"@,
            decimal(explained(dirs) as nat)
                + " top-level non-role directories carry their own README (bounded-context shape)"@,
        )
    } else if roles >= 1 && others >= 2 {
        (
            "hybrid"@,
            "mix of "@ + decimal(roles as nat) + " role-shaped and "@ + decimal(others as nat)
                + " non-role directories suggests hybrid"@,
        )
    } else {
        (
            "domain"@,
            "no strong axis signal from directory layout; default to domain with explicit rationale"@,
        )
    }
}

/// How many of the directories stand for a role, and how many are explained.
fn count_dirs(dirs: &Vec<DirSummary>) -> (r: (usize, usize))
    ensures
        r.0 == role_like(dir_facts(dirs@)),
        r.0 <= dirs@.len(),
        r.1 == explained(dir_facts(dirs@)),
{
    let ghost facts = dir_facts(dirs@);
    let mut roles: usize = 0;
    let mut readmes: usize = 0;
    let mut i: usize = 0;
    while i < dirs.len()
        invariant
            i <= dirs@.len(),
            facts == dir_facts(dirs@),
            roles <= i,
            readmes <= i,
            roles == role_like(facts.take(i as int)),
            readmes == explained(facts.take(i as int)),
        decreases dirs@.len() - i,
    {
        proof {
            assert(facts.take(i + 1).drop_last() =~= facts.take(i as int));
            assert(facts.take(i + 1).last() == dirs@[i as int]@);
        }
        if dirs[i].looks_role_like {
            roles = roles + 1;
        }
        if dirs[i].has_readme {
            readmes = readmes + 1;
        }
        i = i + 1;
    }
    proof {
        assert(facts.take(facts.len() as int) =~= facts);
    }
    (roles, readmes)
}

/// The axis along which a team could be cut, and what speaks for it.
pub fn infer_axis(dirs: &Vec<DirSummary>) -> (r: (String, Vec<String>))
    ensures
        r.0@ == axis_of(dir_facts(dirs@)).0,
        texts(r.1@) == seq![axis_of(dir_facts(dirs@)).1],
{
    let (roles, readmes) = count_dirs(dirs);
    let others = dirs.len() - roles;
    let (axis, signal) = if roles >= 2 && roles >= others {
        (
            "role",
            count_of(roles).concat(" top-level directory name(s) match known role labels"),
        )
    } else if others >= 2 && readmes >= 2 && roles == 0 {
        (
            "domain",
            count_of(readmes).concat(
                " top-level non-role directories carry their own README (bounded-context shape)",
            ),
        )
    } else if roles >= 1 && others >= 2 {
        (
            "hybrid",
            "mix of ".to_owned().concat(count_of(roles).as_str()).concat(
                " role-shaped and ",
            ).concat(count_of(others).as_str()).concat(" non-role directories suggests hybrid"),
        )
    } else {
        (
            "domain",
            "no strong axis signal from directory layout; default to domain with explicit rationale".to_owned(),
        )
    };
    let signals = vec![signal];
    proof {
        assert(texts(signals@) =~= seq![signal@]);
    }
    (axis.to_owned(), signals)
}

/// Bytes that a character takes in UTF-8.
pub open spec fn utf8_width(c: char) -> int {
    let n = c as u32;
    if n < 0x80 {
        1
    } else if n < 0x800 {
        2
    } else if n < 0x10000 {
        3
    } else {
        4
    }
}

/// Bytes that a text takes in UTF-8.
pub open spec fn utf8_len(s: Seq<char>) -> int
    decreases s.len(),
{
    if s.len() == 0 {
        0
    } else {
        utf8_len(s.drop_last()) + utf8_width(s.last())
    }
}

/// As many leading characters, from the first `n` on, as fit into `max` bytes.
pub open spec fn fitting_chars(s: Seq<char>, n: int, max: int) -> int
    decreases s.len() - n,
{
    if n >= s.len() || utf8_len(s.take(n + 1)) > max {
        n
    } else {
        fitting_chars(s, n + 1, max)
    }
}

/// The start of a text, at most `max` bytes of it, with an ellipsis for what is
/// left out; nothing where the text says nothing.
pub open spec fn excerpt(body: Seq<char>, max: int) -> Option<Seq<char>> {
    let s = trim(body);
    let n = fitting_chars(s, 0, max);
    if s.len() == 0 {
        None
    } else if n == s.len() {
        Some(s)
    } else {
        Some(s.take(n).push('…'))
    }
}

/// The text of an optional string.
pub open spec fn opt(s: Option<String>) -> Option<Seq<char>> {
    match s {
        Some(t) => Some(t@),
        None => None,
    }
}

/// The start of a text, at most `max_bytes` bytes of it.
pub fn read_excerpt(body: &str, max_bytes: usize) -> (r: Option<String>)
    ensures
        opt(r) == excerpt(body@, max_bytes as int),
{
    let text = trimmed(body);
    if text.as_str().is_empty() {
        return None;
    }
    let v = chars_of(text.as_str());
    let ghost s = text@;
    let mut n: usize = 0;
    let mut used: usize = 0;
    while n < v.len()
        invariant_except_break
            fitting_chars(s, n as int, max_bytes as int) == fitting_chars(s, 0, max_bytes as int),
        invariant
            v@ == s,
            n <= v@.len(),
            used == utf8_len(s.take(n as int)),
            used <= max_bytes,
        ensures
            n == fitting_chars(s, 0, max_bytes as int),
        decreases v@.len() - n,
    {
        let code = v[n] as u32;
        let width: usize = if code < 0x80 {
            1
        } else if code < 0x800 {
            2
        } else if code < 0x10000 {
            3
        } else {
            4
        };
        proof {
            assert(s.take(n + 1).drop_last() =~= s.take(n as int));
        }
        if width > max_bytes - used {
            break;
        }
        used = used + width;
        n = n + 1;
    }
    if n == v.len() {
        return Some(text);
    }
    let mut out = string_of(&v, 0, n);
    out.push('…');
    proof {
        assert(s.subrange(0, n as int) =~= s.take(n as int));
    }
    Some(out)
}

/// What the head of a configuration says of the team.
pub struct AxisHead {
    pub axis: Option<Seq<char>>,
    pub rationale: Option<Seq<char>>,
}

/// What is known after one more line. Only comments count, and of each kind the
/// first that says something.
pub open spec fn after_head_line(head: AxisHead, line: Seq<char>) -> AxisHead {
    if line.len() == 0 || line[0] != '#' {
        head
    } else {
        let body = trim(line.skip(1));
        if head.axis is None && "axis:"@.is_prefix_of(lower(body)) {
            let said = words(lower(body).skip("axis:"@.len() as int));
            AxisHead {
                axis: if said.len() > 0 {
                    Some(said[0])
                } else {
                    None
                },
                ..head
            }
        } else if head.rationale is None && "rationale:"@.is_prefix_of(lower(body)) {
            let said = trim(body.skip("rationale:"@.len() as int));
            AxisHead {
                rationale: if said.len() > 0 {
                    Some(said)
                } else {
                    None
                },
                ..head
            }
        } else {
            head
        }
    }
}

/// What lines say of the team.
pub open spec fn head_of(all: Seq<Seq<char>>) -> AxisHead
    decreases all.len(),
{
    if all.len() == 0 {
        AxisHead { axis: None, rationale: None }
    } else {
        after_head_line(head_of(all.drop_last()), all.last())
    }
}

/// The first fifteen lines of a text.
pub open spec fn head_lines(yaml: Seq<char>) -> Seq<Seq<char>> {
    let all = lines(yaml);
    if all.len() > 15 {
        all.take(15)
    } else {
        all
    }
}

/// What the first fifteen lines of a configuration say of the team.
pub open spec fn axis_head(yaml: Seq<char>) -> AxisHead {
    head_of(head_lines(yaml))
}

/// A line that begins with `#`.
pub open spec fn is_comment(line: Seq<char>) -> bool {
    line.len() > 0 && line[0] == '#'
}

/// The lines that begin with `#`.
pub open spec fn comments_among(all: Seq<Seq<char>>) -> Seq<Seq<char>>
    decreases all.len(),
{
    if all.len() == 0 {
        Seq::empty()
    } else {
        let front = comments_among(all.drop_last());
        if is_comment(all.last()) {
            front.push(all.last())
        } else {
            front
        }
    }
}

proof fn comments_are_lines(all: Seq<Seq<char>>)
    ensures
        comments_among(all).len() <= all.len(),
        forall|i: int|
            0 <= i < comments_among(all).len() ==> is_comment(#[trigger] comments_among(all)[i])
                && all.contains(comments_among(all)[i]),
    decreases all.len(),
{
    if all.len() > 0 {
        let less = all.drop_last();
        comments_are_lines(less);
        let found = comments_among(all);
        assert forall|i: int| 0 <= i < found.len() implies is_comment(#[trigger] found[i])
            && all.contains(found[i]) by {
            if i < comments_among(less).len() {
                let line = comments_among(less)[i];
                assert(found[i] == line);
                let j = choose|j: int| 0 <= j < less.len() && less[j] == line;
                assert(all[j] == line);
            } else {
                assert(all[all.len() - 1] == found[i]);
            }
        }
    }
}

proof fn other_lines_say_nothing(all: Seq<Seq<char>>)
    ensures
        head_of(comments_among(all)) == head_of(all),
    decreases all.len(),
{
    if all.len() > 0 {
        other_lines_say_nothing(all.drop_last());
        let front = comments_among(all.drop_last());
        assert(front.push(all.last()).drop_last() =~= front);
    }
}

proof fn returns_say_nothing(all: Seq<Seq<char>>)
    requires
        forall|i: int| 0 <= i < all.len() ==> is_comment(#[trigger] all[i]),
    ensures
        head_of(all.map_values(|l: Seq<char>| strip_cr(l))) == head_of(all),
    decreases all.len(),
{
    let strip = |l: Seq<char>| strip_cr(l);
    if all.len() > 0 {
        let less = all.drop_last();
        assert forall|i: int| 0 <= i < less.len() implies is_comment(#[trigger] less[i]) by {
            assert(is_comment(all[i]));
        }
        returns_say_nothing(less);
        assert(all.map_values(strip).drop_last() =~= less.map_values(strip));
        let line = all[all.len() - 1];
        assert(is_comment(line));
        if line.last() == '\r' {
            assert(line.len() > 1);
            let body = line.skip(1);
            assert(body.last() == '\r');
            trim_forgets_white_end(body);
            assert(strip_cr(line).skip(1) =~= body.drop_last());
        }
    }
}

/// Only the comments among the first fifteen lines matter: a text of which they
/// are the lines says the same of the team.
pub proof fn only_comments_of_the_head_count(yaml: Seq<char>, other: Seq<char>)
    requires
        lines(other) == comments_among(head_lines(yaml)),
    ensures
        axis_head(other) == axis_head(yaml),
{
    comments_are_lines(head_lines(yaml));
    other_lines_say_nothing(head_lines(yaml));
}

/// A configuration of which nothing is left but the comments among its first
/// fifteen lines says the same of the team.
pub proof fn rest_can_be_left_out(yaml: Seq<char>)
    ensures
        axis_head(written(comments_among(head_lines(yaml)))) == axis_head(yaml),
{
    let head = head_lines(yaml);
    let found = comments_among(head);
    comments_are_lines(head);
    lines_hold_no_feed(yaml);
    assert forall|i: int| 0 <= i < found.len() implies !(#[trigger] found[i]).contains('\n') by {
        let j = choose|j: int| 0 <= j < head.len() && head[j] == found[i];
        assert(head[j] == lines(yaml)[j]);
    }
    written_lines_come_back(found);
    returns_say_nothing(found);
    other_lines_say_nothing(head);
}

/// A line that says what the team is divided by.
pub open spec fn says_axis(line: Seq<char>, axis: Seq<char>) -> bool {
    let body = lower(trim(line.skip(1)));
    &&& is_comment(line)
    &&& "axis:"@.is_prefix_of(body)
    &&& words(body.skip("axis:"@.len() as int)).len() > 0
    &&& axis == words(body.skip("axis:"@.len() as int))[0]
}

/// A line that says why.
pub open spec fn says_rationale(line: Seq<char>, rationale: Seq<char>) -> bool {
    let body = trim(line.skip(1));
    &&& is_comment(line)
    &&& "rationale:"@.is_prefix_of(lower(body))
    &&& rationale == trim(body.skip("rationale:"@.len() as int))
    &&& rationale.len() > 0
}

proof fn head_is_said(all: Seq<Seq<char>>)
    ensures
        head_of(all).axis matches Some(a) ==> exists|i: int|
            0 <= i < all.len() && says_axis(#[trigger] all[i], a),
        head_of(all).rationale matches Some(r) ==> exists|i: int|
            0 <= i < all.len() && says_rationale(#[trigger] all[i], r),
    decreases all.len(),
{
    if all.len() > 0 {
        let less = all.drop_last();
        head_is_said(less);
        let line = all[all.len() - 1];
        if let Some(a) = head_of(all).axis {
            if head_of(less).axis == Some(a) {
                let i = choose|i: int| 0 <= i < less.len() && says_axis(#[trigger] less[i], a);
                assert(says_axis(all[i], a));
            } else {
                assert(says_axis(line, a));
            }
        }
        if let Some(r) = head_of(all).rationale {
            if head_of(less).rationale == Some(r) {
                let i = choose|i: int| 0 <= i < less.len() && says_rationale(#[trigger] less[i], r);
                assert(says_rationale(all[i], r));
            } else {
                assert(says_rationale(line, r));
            }
        }
    }
}

/// The axis is one word, not empty and without capital letters of ASCII, that a
/// comment among the first fifteen lines gives.
pub proof fn axis_is_one_small_word(yaml: Seq<char>)
    ensures
        axis_head(yaml).axis matches Some(a) ==> {
            &&& a.len() > 0
            &&& forall|j: int|
                0 <= j < a.len() ==> !is_white(#[trigger] a[j]) && !('A' <= a[j] && a[j] <= 'Z')
            &&& exists|i: int|
                0 <= i < head_lines(yaml).len() && says_axis(#[trigger] head_lines(yaml)[i], a)
        },
{
    head_is_said(head_lines(yaml));
    if let Some(a) = axis_head(yaml).axis {
        let all = head_lines(yaml);
        let i = choose|i: int| 0 <= i < all.len() && says_axis(#[trigger] all[i], a);
        let body = lower(trim(all[i].skip(1)));
        let rest = body.skip("axis:"@.len() as int);
        words_are_runs(rest);
        lower_has_no_capital(trim(all[i].skip(1)));
        assert(is_run(rest, words(rest)[0]));
        assert forall|j: int| 0 <= j < a.len() implies !is_white(#[trigger] a[j]) && !('A' <= a[j]
            && a[j] <= 'Z') by {
            assert(is_word_char(rest, a[j]));
            let k = choose|k: int| 0 <= k < rest.len() && rest[k] == a[j];
            assert(body[k + "axis:"@.len()] == a[j]);
            assert(body.contains(a[j]));
        }
    }
}

/// The rationale is not empty, has no white space at either end, and stands as it
/// is, capital letters and all, in a comment among the first fifteen lines.
pub proof fn rationale_is_as_written(yaml: Seq<char>)
    ensures
        axis_head(yaml).rationale matches Some(r) ==> {
            &&& r.len() > 0
            &&& is_trim(r)
            &&& trim(r) == r
            &&& exists|i: int|
                0 <= i < head_lines(yaml).len() && says_rationale(#[trigger] head_lines(yaml)[i], r)
                    && contains(head_lines(yaml)[i], r)
        },
{
    head_is_said(head_lines(yaml));
    if let Some(r) = axis_head(yaml).rationale {
        let all = head_lines(yaml);
        let i = choose|i: int| 0 <= i < all.len() && says_rationale(#[trigger] all[i], r);
        let body = trim(all[i].skip(1));
        let rest = body.skip("rationale:"@.len() as int);
        trim_is_trim(rest);
        trim_keeps(r);
        end_is_a_part(all[i], 1);
        trim_is_a_part(all[i].skip(1));
        parts_have_parts(all[i], all[i].skip(1), body);
        end_is_a_part(body, "rationale:"@.len() as int);
        parts_have_parts(all[i], body, rest);
        trim_is_a_part(rest);
        parts_have_parts(all[i], rest, r);
    }
}

fn rest_of(s: &str, prefix: &str) -> (r: String)
    requires
        prefix@.len() <= s@.len(),
    ensures
        r@ == s@.skip(prefix@.len() as int),
{
    let v = chars_of(s);
    let n = char_count(prefix);
    let rest = string_of(&v, n, v.len());
    proof {
        assert(rest@ =~= s@.skip(prefix@.len() as int));
    }
    rest
}

/// What the head of a configuration says of the team.
pub fn parse_axis_headers(yaml: &str) -> (r: (Option<String>, Option<String>))
    ensures
        opt(r.0) == axis_head(yaml@).axis,
        opt(r.1) == axis_head(yaml@).rationale,
{
    let all = lines_of(yaml);
    let ghost told = texts(all@);
    let n: usize = if all.len() > 15 {
        15
    } else {
        all.len()
    };
    let mut axis: Option<String> = None;
    let mut rationale: Option<String> = None;
    let mut i: usize = 0;
    while i < n
        invariant
            i <= n <= all@.len(),
            told == texts(all@),
            opt(axis) == head_of(told.take(i as int)).axis,
            opt(rationale) == head_of(told.take(i as int)).rationale,
        decreases n - i,
    {
        let line = all[i].as_str();
        proof {
            assert(told.take(i + 1).drop_last() =~= told.take(i as int));
            assert(told.take(i + 1).last() == all@[i as int]@);
        }
        let chars = chars_of(line);
        if chars.len() > 0 && chars[0] == '#' {
            let raw = string_of(&chars, 1, chars.len());
            proof {
                assert(raw@ =~= line@.skip(1));
            }
            let body = trimmed(raw.as_str());
            let low = to_lower(body.as_str());
            if axis.is_none() && begins(low.as_str(), "axis:") {
                let said = words_of(rest_of(low.as_str(), "axis:").as_str());
                if said.len() > 0 {
                    proof {
                        assert(texts(said@)[0] == said@[0]@);
                    }
                    axis = Some(said[0].clone());
                }
            } else if rationale.is_none() && begins(low.as_str(), "rationale:") {
                let said = trimmed(rest_of(body.as_str(), "rationale:").as_str());
                if !said.as_str().is_empty() {
                    rationale = Some(said);
                }
            }
        }
        i = i + 1;
    }
    proof {
        assert(told.take(n as int) =~= if told.len() > 15 {
            told.take(15)
        } else {
            told
        });
    }
    (axis, rationale)
}

/// The directory of a workspace: that of the project where none is given, an
/// absolute one as it is, else one within that of the project.
pub open spec fn dir_of_workspace(project: Seq<char>, dir: Seq<char>) -> Seq<char> {
    let raw = trim(dir);
    if raw.len() == 0 {
        project
    } else if raw[0] == '/' {
        raw
    } else if project.len() == 0 || project.last() == '/' {
        project + raw
    } else {
        project + "/"@ + raw
    }
}

/// The directory of a workspace.
pub fn resolve_workspace_dir(project_dir: &str, ws_dir: &str) -> (r: String)
    ensures
        r@ == dir_of_workspace(project_dir@, ws_dir@),
{
    let raw = trimmed(ws_dir);
    let v = chars_of(raw.as_str());
    if v.len() == 0 {
        return project_dir.to_owned();
    }
    if v[0] == '/' {
        return raw;
    }
    let p = chars_of(project_dir);
    if p.len() == 0 || p[p.len() - 1] == '/' {
        project_dir.to_owned().concat(raw.as_str())
    } else {
        project_dir.to_owned().concat("/").concat(raw.as_str())
    }
}

/// The first directory on the way to a workspace, where the way names one.
pub open spec fn first_part(dir: Seq<char>) -> Option<Seq<char>> {
    let first = split(without_prefixes(trim(dir), "./"@), '/')[0];
    if first.len() == 0 || first == "."@ {
        None
    } else {
        Some(first)
    }
}

/// The first directory on the way to a workspace, where the way names one.
pub fn first_path_component(ws_dir: &str) -> (r: Option<String>)
    ensures
        opt(r) == first_part(ws_dir@),
{
    let stripped = strip_prefixes(trimmed(ws_dir).as_str(), "./");
    let parts = split_text(stripped.as_str(), '/');
    proof {
        split_is_not_empty(stripped@, '/');
        assert(texts(parts@)[0] == parts@[0]@);
    }
    let first = parts[0].as_str();
    if first.is_empty() || same(first, ".") {
        None
    } else {
        Some(first.to_owned())
    }
}

proof fn split_is_not_empty(s: Seq<char>, sep: char)
    ensures
        split(s, sep).len() > 0,
    decreases s.len(),
{
    if s.len() > 0 {
        split_is_not_empty(s.drop_last(), sep);
    }
}

/// One of the names is not hidden.
pub open spec fn shows_something(names: Seq<Seq<char>>) -> bool {
    exists|i: int|
        0 <= i < names.len() && !((#[trigger] names[i]).len() > 0 && names[i][0] == '.')
}

/// Whether a directory holds anything that is not hidden.
pub fn directory_non_empty(names: &Vec<String>) -> (r: bool)
    ensures
        r == shows_something(texts(names@)),
{
    let ghost all = texts(names@);
    let mut i: usize = 0;
    while i < names.len()
        invariant
            i <= names@.len(),
            all == texts(names@),
            forall|j: int| 0 <= j < i ==> (#[trigger] all[j]).len() > 0 && all[j][0] == '.',
        decreases names@.len() - i,
    {
        proof {
            assert(all[i as int] == names@[i as int]@);
        }
        if !is_hidden(names[i].as_str()) {
            return true;
        }
        i = i + 1;
    }
    false
}

/// A plan for a new team.
#[derive(Debug, Clone)]
pub struct InitialTeamPlan {
    pub project_dir: String,
    pub suggested_axis: String,
    pub axis_signals: Vec<String>,
    pub toplevel_dirs: Vec<DirSummary>,
    pub readme_excerpt: Option<String>,
}

/// A plan for a new team, from what was found in the project and its README.
pub fn plan_initial_team(
    project_dir: &str,
    found: &Vec<DirListing>,
    readme: Option<&str>,
) -> (r: InitialTeamPlan)
    ensures
        r.project_dir@ == project_dir@,
        dir_facts(r.toplevel_dirs@) == surveyed(found@),
        r.suggested_axis@ == axis_of(surveyed(found@)).0,
        texts(r.axis_signals@) == seq![axis_of(surveyed(found@)).1],
        opt(r.readme_excerpt) == match readme {
            Some(body) => excerpt(body@, 400),
            None => None,
        },
{
    let toplevel_dirs = scan_toplevel(found);
    let (suggested_axis, axis_signals) = infer_axis(&toplevel_dirs);
    let readme_excerpt = match readme {
        Some(body) => read_excerpt(body, 400),
        None => None,
    };
    InitialTeamPlan {
        project_dir: project_dir.to_owned(),
        suggested_axis,
        axis_signals,
        toplevel_dirs,
        readme_excerpt,
    }
}

/// A workspace of the configuration, and what was found in its directory.
#[derive(Debug, Clone)]
pub struct SurveyedWorkspace {
    pub name: String,
    pub dir: String,
    pub description: String,
    pub exists: bool,
    pub entries: Vec<String>,
}

/// A workspace of the configuration, and whether there is anything in it.
#[derive(Debug, Clone)]
pub struct WorkspaceSummary {
    pub name: String,
    pub dir: String,
    pub description: String,
    pub exists: bool,
    pub non_empty: bool,
}

/// A workspace of the configuration, as a value.
pub struct WorkspaceFacts {
    pub name: Seq<char>,
    pub dir: Seq<char>,
    pub description: Seq<char>,
    pub exists: bool,
    pub non_empty: bool,
}

impl View for WorkspaceSummary {
    type V = WorkspaceFacts;

    open spec fn view(&self) -> WorkspaceFacts {
        WorkspaceFacts {
            name: self.name@,
            dir: self.dir@,
            description: self.description@,
            exists: self.exists,
            non_empty: self.non_empty,
        }
    }
}

/// What is said of workspaces.
pub open spec fn workspace_facts(v: Seq<WorkspaceSummary>) -> Seq<WorkspaceFacts> {
    v.map_values(|w: WorkspaceSummary| w@)
}

/// What is said of a workspace after a look into its directory.
pub open spec fn judged(w: SurveyedWorkspace) -> WorkspaceFacts {
    WorkspaceFacts {
        name: w.name@,
        dir: w.dir@,
        description: w.description@,
        exists: w.exists,
        non_empty: w.exists && shows_something(texts(w.entries@)),
    }
}

/// The directories of the project that belong to a workspace.
pub open spec fn covered(workspaces: Seq<SurveyedWorkspace>) -> Seq<Seq<char>>
    decreases workspaces.len(),
{
    if workspaces.len() == 0 {
        Seq::empty()
    } else {
        match first_part(workspaces.last().dir@) {
            Some(first) => covered(workspaces.drop_last()).push(first),
            None => covered(workspaces.drop_last()),
        }
    }
}

/// The names of the directories that belong to no workspace.
pub open spec fn orphans(dirs: Seq<DirFacts>, owned: Seq<Seq<char>>) -> Seq<Seq<char>>
    decreases dirs.len(),
{
    if dirs.len() == 0 {
        Seq::empty()
    } else if owned.contains(dirs.last().name) {
        orphans(dirs.drop_last(), owned)
    } else {
        orphans(dirs.drop_last(), owned).push(dirs.last().name)
    }
}

/// The names of the workspaces without anything in them.
pub open spec fn hollow(workspaces: Seq<WorkspaceFacts>) -> Seq<Seq<char>>
    decreases workspaces.len(),
{
    if workspaces.len() == 0 {
        Seq::empty()
    } else if !workspaces.last().exists || !workspaces.last().non_empty {
        hollow(workspaces.drop_last()).push(workspaces.last().name)
    } else {
        hollow(workspaces.drop_last())
    }
}

/// A plan for a team that is there already.
#[derive(Debug, Clone)]
pub struct ReconfigureTeamPlan {
    pub project_dir: String,
    pub current_axis: Option<String>,
    pub current_rationale: Option<String>,
    pub current_workspaces: Vec<WorkspaceSummary>,
    pub toplevel_dirs: Vec<DirSummary>,
    pub orphan_dirs: Vec<String>,
    pub empty_workspaces: Vec<String>,
}

fn find_orphans(dirs: &Vec<DirSummary>, owned: &Vec<String>) -> (r: Vec<String>)
    ensures
        texts(r@) == orphans(dir_facts(dirs@), texts(owned@)),
{
    let ghost facts = dir_facts(dirs@);
    let mut out: Vec<String> = Vec::new();
    let mut i: usize = 0;
    proof {
        assert(texts(out@) =~= Seq::empty());
    }
    while i < dirs.len()
        invariant
            i <= dirs@.len(),
            facts == dir_facts(dirs@),
            texts(out@) == orphans(facts.take(i as int), texts(owned@)),
        decreases dirs@.len() - i,
    {
        proof {
            assert(facts.take(i + 1).drop_last() =~= facts.take(i as int));
            assert(facts.take(i + 1).last() == dirs@[i as int]@);
        }
        if !is_one_of(dirs[i].name.as_str(), owned) {
            let ghost pre = out@;
            out.push(dirs[i].name.clone());
            proof {
                assert(texts(out@) =~= texts(pre).push(dirs@[i as int].name@));
            }
        }
        i = i + 1;
    }
    proof {
        assert(facts.take(facts.len() as int) =~= facts);
    }
    out
}

fn find_hollow(workspaces: &Vec<WorkspaceSummary>) -> (r: Vec<String>)
    ensures
        texts(r@) == hollow(workspace_facts(workspaces@)),
{
    let ghost facts = workspace_facts(workspaces@);
    let mut out: Vec<String> = Vec::new();
    let mut i: usize = 0;
    proof {
        assert(texts(out@) =~= Seq::empty());
    }
    while i < workspaces.len()
        invariant
            i <= workspaces@.len(),
            facts == workspace_facts(workspaces@),
            texts(out@) == hollow(facts.take(i as int)),
        decreases workspaces@.len() - i,
    {
        let w = &workspaces[i];
        proof {
            assert(facts.take(i + 1).drop_last() =~= facts.take(i as int));
            assert(facts.take(i + 1).last() == w@);
        }
        if !w.exists || !w.non_empty {
            let ghost pre = out@;
            out.push(w.name.clone());
            proof {
                assert(texts(out@) =~= texts(pre).push(w.name@));
            }
        }
        i = i + 1;
    }
    proof {
        assert(facts.take(facts.len() as int) =~= facts);
    }
    out
}

/// A plan for a team that is there already, from the text of its configuration,
/// its workspaces and what was found in the project.
pub fn plan_team_reconfigure(
    project_dir: &str,
    config: &str,
    workspaces: &Vec<SurveyedWorkspace>,
    found: &Vec<DirListing>,
) -> (r: ReconfigureTeamPlan)
    ensures
        r.project_dir@ == project_dir@,
        opt(r.current_axis) == axis_head(config@).axis,
        opt(r.current_rationale) == axis_head(config@).rationale,
        workspace_facts(r.current_workspaces@) == workspaces@.map_values(
            |w: SurveyedWorkspace| judged(w),
        ),
        dir_facts(r.toplevel_dirs@) == surveyed(found@),
        texts(r.orphan_dirs@) == orphans(surveyed(found@), covered(workspaces@)),
        texts(r.empty_workspaces@) == hollow(
            workspaces@.map_values(|w: SurveyedWorkspace| judged(w)),
        ),
{
    let (current_axis, current_rationale) = parse_axis_headers(config);
    let toplevel_dirs = scan_toplevel(found);
    let mut summaries: Vec<WorkspaceSummary> = Vec::new();
    let mut owned: Vec<String> = Vec::new();
    let ghost judge = |w: SurveyedWorkspace| judged(w);
    let mut i: usize = 0;
    proof {
        assert(texts(owned@) =~= Seq::empty());
        assert(workspace_facts(summaries@) =~= workspaces@.take(0).map_values(judge));
    }
    while i < workspaces.len()
        invariant
            i <= workspaces@.len(),
            judge == (|w: SurveyedWorkspace| judged(w)),
            texts(owned@) == covered(workspaces@.take(i as int)),
            workspace_facts(summaries@) == workspaces@.take(i as int).map_values(judge),
        decreases workspaces@.len() - i,
    {
        let w = &workspaces[i];
        proof {
            assert(workspaces@.take(i + 1).drop_last() =~= workspaces@.take(i as int));
        }
        let ghost owned_before = owned@;
        let ghost summaries_before = summaries@;
        if let Some(first) = first_path_component(w.dir.as_str()) {
            owned.push(first);
            proof {
                assert(texts(owned@) =~= texts(owned_before).push(first@));
            }
        }
        let summary = WorkspaceSummary {
            name: w.name.clone(),
            dir: w.dir.clone(),
            description: w.description.clone(),
            exists: w.exists,
            non_empty: w.exists && directory_non_empty(&w.entries),
        };
        summaries.push(summary);
        proof {
            assert(workspace_facts(summaries@) =~= workspace_facts(summaries_before).push(
                summary@,
            ));
            assert(workspaces@.take(i + 1).map_values(judge) =~= workspaces@.take(
                i as int,
            ).map_values(judge).push(judged(*w)));
        }
        i = i + 1;
    }
    proof {
        assert(workspaces@.take(workspaces@.len() as int) =~= workspaces@);
    }
    let orphan_dirs = find_orphans(&toplevel_dirs, &owned);
    let empty_workspaces = find_hollow(&summaries);
    ReconfigureTeamPlan {
        project_dir: project_dir.to_owned(),
        current_axis,
        current_rationale,
        current_workspaces: summaries,
        toplevel_dirs,
        orphan_dirs,
        empty_workspaces,
    }
}

} // verus!
