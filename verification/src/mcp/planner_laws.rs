//! What holds of every suggestion for a team.

use vstd::prelude::*;

use crate::mcp::planner::{
    axis_head, axis_of, candidates, covered, dir_of_workspace, excerpt, explained, files_among,
    first_part, fitting_chars, head_lines, head_of, hollow, is_manifest, is_passed_over, is_role,
    judged, looks, manifests_among, orphans, role_like, shows_something, surveyed, utf8_len,
    utf8_width, ChildEntry, DirFacts, DirListing, SurveyedWorkspace, WorkspaceFacts,
};
use crate::order::sorting_only_moves;
use crate::text::{before, before_is_an_order, decimal, lines, lower, split, texts, trim, words};
use crate::text_laws::{prefixes_go, splitting_is_undone_by_joining};

verus! {

/// The directories that stand for a role.
pub open spec fn role_dirs(dirs: Seq<DirFacts>) -> Seq<DirFacts> {
    dirs.filter(|d: DirFacts| d.looks_role_like)
}

/// The directories that do not stand for a role.
pub open spec fn other_dirs(dirs: Seq<DirFacts>) -> Seq<DirFacts> {
    dirs.filter(|d: DirFacts| !d.looks_role_like)
}

/// The directories that are explained.
pub open spec fn explained_dirs(dirs: Seq<DirFacts>) -> Seq<DirFacts> {
    dirs.filter(|d: DirFacts| d.has_readme)
}

proof fn dirs_are_counted(dirs: Seq<DirFacts>)
    ensures
        role_like(dirs) == role_dirs(dirs).len(),
        dirs.len() - role_like(dirs) == other_dirs(dirs).len(),
        explained(dirs) == explained_dirs(dirs).len(),
    decreases dirs.len(),
{
    reveal(Seq::filter);
    if dirs.len() > 0 {
        dirs_are_counted(dirs.drop_last());
    }
}

/// A team is cut by role exactly where at least two directories stand for a role
/// and at least as many do as do not, by both exactly where it is not cut by role
/// and one directory stands for a role and two do not, and by domain otherwise.
pub proof fn axis_follows_the_majority(dirs: Seq<DirFacts>)
    ensures
        ({
            let roles = role_dirs(dirs).len();
            let others = other_dirs(dirs).len();
            &&& axis_of(dirs).0 == "role"@ <==> roles >= 2 && roles >= others
            &&& roles < others ==> axis_of(dirs).0 != "role"@
            &&& axis_of(dirs).0 == "hybrid"@ <==> roles >= 1 && others >= 2 && !(roles >= 2 && roles
                >= others)
            &&& axis_of(dirs).0 == "domain"@ <==> !(roles >= 2 && roles >= others) && !(roles >= 1
                && others >= 2)
            &&& axis_of(dirs).0 == "role"@ || axis_of(dirs).0 == "hybrid"@ || axis_of(dirs).0
                == "domain"@
        }),
{
    dirs_are_counted(dirs);
    reveal_strlit("role");
    reveal_strlit("hybrid");
    reveal_strlit("domain");
    assert("role"@.len() == 4 && "hybrid"@.len() == 6 && "domain"@.len() == 6);
    assert("hybrid"@[0] == 'h' && "domain"@[0] == 'd');
}

/// What speaks for an axis gives the numbers of directories that do.
pub proof fn signals_give_the_numbers(dirs: Seq<DirFacts>)
    ensures
        ({
            let roles = role_dirs(dirs).len();
            let others = other_dirs(dirs).len();
            let readmes = explained_dirs(dirs).len();
            &&& roles >= 2 && roles >= others ==> axis_of(dirs).1 == decimal(roles)
                + " top-level directory name(s) match known role labels"@
            &&& roles == 0 && others >= 2 && readmes >= 2 ==> axis_of(dirs).1 == decimal(readmes)
                + " top-level non-role directories carry their own README (bounded-context shape)"@
            &&& roles == 0 && !(others >= 2 && readmes >= 2) ==> axis_of(dirs).1
                == "no strong axis signal from directory layout; default to domain with explicit rationale"@
            &&& roles >= 1 && others >= 2 && roles < others ==> axis_of(dirs).1 == "mix of "@
                + decimal(roles) + " role-shaped and "@ + decimal(others)
                + " non-role directories suggests hybrid"@
        }),
{
    dirs_are_counted(dirs);
}

/// A name stands for a role whether it is written in capitals or not, and only
/// where it is one of these words.
pub proof fn roles_are_these(name: Seq<char>)
    ensures
        is_role(name) <==> seq![
            "frontend"@,
            "backend"@,
            "api"@,
            "web"@,
            "ui"@,
            "client"@,
            "server"@,
            "cli"@,
            "infra"@,
            "infrastructure"@,
            "platform"@,
            "devops"@,
            "ops"@,
            "docs"@,
            "qa"@,
            "testing"@,
            "mobile"@,
        ].contains(lower(name)),
{
    let all = seq![
        "frontend"@,
        "backend"@,
        "api"@,
        "web"@,
        "ui"@,
        "client"@,
        "server"@,
        "cli"@,
        "infra"@,
        "infrastructure"@,
        "platform"@,
        "devops"@,
        "ops"@,
        "docs"@,
        "qa"@,
        "testing"@,
        "mobile"@,
    ];
    assert(all[0] == "frontend"@ && all[1] == "backend"@ && all[2] == "api"@ && all[3] == "web"@);
    assert(all[4] == "ui"@ && all[5] == "client"@ && all[6] == "server"@ && all[7] == "cli"@);
    assert(all[8] == "infra"@ && all[9] == "infrastructure"@ && all[10] == "platform"@);
    assert(all[11] == "devops"@ && all[12] == "ops"@ && all[13] == "docs"@ && all[14] == "qa"@);
    assert(all[15] == "testing"@ && all[16] == "mobile"@);
}

/// These directories, and all hidden ones, are passed over, and no other.
pub proof fn passed_over_are_these(name: Seq<char>)
    ensures
        name.len() > 0 && name[0] == '.' ==> is_passed_over(name),
        !(name.len() > 0 && name[0] == '.') ==> (is_passed_over(name) <==> seq![
            "venv"@,
            "node_modules"@,
            "target"@,
            "dist"@,
            "build"@,
            "out"@,
            "__pycache__"@,
        ].contains(name)),
{
    reveal_strlit(".git");
    reveal_strlit(".ax");
    reveal_strlit(".github");
    reveal_strlit(".vscode");
    reveal_strlit(".idea");
    reveal_strlit(".venv");
    reveal_strlit(".next");
    reveal_strlit(".pytest_cache");
    reveal_strlit(".mypy_cache");
    reveal_strlit(".ruff_cache");
    reveal_strlit(".terraform");
    let all = seq![
        "venv"@,
        "node_modules"@,
        "target"@,
        "dist"@,
        "build"@,
        "out"@,
        "__pycache__"@,
    ];
    assert(all[0] == "venv"@ && all[1] == "node_modules"@ && all[2] == "target"@ && all[3]
        == "dist"@ && all[4] == "build"@ && all[5] == "out"@ && all[6] == "__pycache__"@);
}

/// These files tell what a directory is built with, and no other.
pub proof fn manifests_are_these(name: Seq<char>)
    ensures
        is_manifest(name) <==> seq![
            "package.json"@,
            "pnpm-workspace.yaml"@,
            "tsconfig.json"@,
            "go.mod"@,
            "go.sum"@,
            "Cargo.toml"@,
            "pyproject.toml"@,
            "requirements.txt"@,
            "Gemfile"@,
            "pom.xml"@,
            "build.gradle"@,
            "build.gradle.kts"@,
            "main.tf"@,
            "terragrunt.hcl"@,
            "Dockerfile"@,
            "docker-compose.yml"@,
            "docker-compose.yaml"@,
        ].contains(name),
{
    let all = seq![
        "package.json"@,
        "pnpm-workspace.yaml"@,
        "tsconfig.json"@,
        "go.mod"@,
        "go.sum"@,
        "Cargo.toml"@,
        "pyproject.toml"@,
        "requirements.txt"@,
        "Gemfile"@,
        "pom.xml"@,
        "build.gradle"@,
        "build.gradle.kts"@,
        "main.tf"@,
        "terragrunt.hcl"@,
        "Dockerfile"@,
        "docker-compose.yml"@,
        "docker-compose.yaml"@,
    ];
    assert(all[0] == "package.json"@ && all[1] == "pnpm-workspace.yaml"@ && all[2]
        == "tsconfig.json"@ && all[3] == "go.mod"@ && all[4] == "go.sum"@);
    assert(all[5] == "Cargo.toml"@ && all[6] == "pyproject.toml"@ && all[7] == "requirements.txt"@
        && all[8] == "Gemfile"@ && all[9] == "pom.xml"@);
    assert(all[10] == "build.gradle"@ && all[11] == "build.gradle.kts"@ && all[12] == "main.tf"@
        && all[13] == "terragrunt.hcl"@ && all[14] == "Dockerfile"@);
    assert(all[15] == "docker-compose.yml"@ && all[16] == "docker-compose.yaml"@);
}

/// One more entry of a directory is counted where it is a file, and told where it
/// is a file that tells what the directory is built with.
pub proof fn one_more_entry_is_counted(children: Seq<ChildEntry>, child: ChildEntry)
    ensures
        files_among(children.push(child)) == files_among(children) + if child.is_file {
            1int
        } else {
            0
        },
        child.is_file && is_manifest(child.name@) ==> manifests_among(children.push(child))
            == manifests_among(children).push(child.name@),
        !(child.is_file && is_manifest(child.name@)) ==> manifests_among(children.push(child))
            == manifests_among(children),
        files_among(Seq::empty()) == 0,
        manifests_among(Seq::empty()).len() == 0,
{
    assert(children.push(child).drop_last() =~= children);
    assert(children.push(child).last() == child);
}

/// A directory is told by its name, and it is explained exactly where one of its
/// files is called `readme.md` or `readme`, in capitals or not.
pub proof fn directories_are_told_by_name(listing: DirListing)
    ensures
        looks(listing).name == listing.name@,
        looks(listing).looks_role_like <==> is_role(listing.name@),
        looks(listing).has_readme <==> exists|i: int|
            0 <= i < listing.children@.len() && (#[trigger] listing.children@[i]).is_file && (lower(
                listing.children@[i].name@,
            ) == "readme.md"@ || lower(listing.children@[i].name@) == "readme"@),
        looks(listing).file_count == files_among(listing.children@),
        looks(listing).manifests == manifests_among(listing.children@),
{
}

/// One more entry of the project is a candidate exactly where it is a directory
/// that is not passed over.
pub proof fn one_more_directory_is_surveyed(found: Seq<DirListing>, dir: DirListing)
    ensures
        dir.is_dir && !is_passed_over(dir.name@) ==> candidates(found.push(dir)) == candidates(
            found,
        ).push(looks(dir)),
        !dir.is_dir || is_passed_over(dir.name@) ==> candidates(found.push(dir)) == candidates(
            found,
        ),
        candidates(Seq::empty()).len() == 0,
{
    assert(found.push(dir).drop_last() =~= found);
    assert(found.push(dir).last() == dir);
}

/// Directories are told by name, from the first to the last, and none is lost.
pub proof fn directories_go_by_name(found: Seq<DirListing>, i: int, j: int)
    requires
        0 <= i < j < candidates(found).len(),
    ensures
        surveyed(found).len() == candidates(found).len(),
        forall|d: DirFacts| #[trigger] surveyed(found).contains(d) <==> candidates(found).contains(
            d,
        ),
        surveyed(found)[i].name == surveyed(found)[j].name || before(
            surveyed(found)[i].name,
            surveyed(found)[j].name,
        ),
{
    let order = sorting_only_moves(candidates(found));
    before_is_an_order();
    let a = surveyed(found)[i].name;
    let b = surveyed(found)[j].name;
    assert(before(a, b) || before(b, a) || a == b);
}

/// A directory belongs to no workspace exactly where none of the directories that
/// do has its name; nothing else is told.
pub proof fn orphans_have_no_owner(dirs: Seq<DirFacts>, owned: Seq<Seq<char>>, name: Seq<char>)
    ensures
        orphans(dirs, owned).contains(name) <==> !owned.contains(name) && exists|i: int|
            0 <= i < dirs.len() && (#[trigger] dirs[i]).name == name,
        orphans(dirs, owned).len() <= dirs.len(),
    decreases dirs.len(),
{
    if dirs.len() > 0 {
        let front = dirs.drop_last();
        orphans_have_no_owner(front, owned, name);
        let old = orphans(front, owned);
        let new = orphans(dirs, owned);
        assert forall|i: int| 0 <= i < front.len() implies #[trigger] front[i] == dirs[i] by {}
        if old.contains(name) {
            let i = choose|i: int| 0 <= i < old.len() && old[i] == name;
            assert(new[i] == name);
            let k = choose|k: int| 0 <= k < front.len() && (#[trigger] front[k]).name == name;
            assert(dirs[k].name == name);
        }
        if new.contains(name) && !old.contains(name) {
            let i = choose|i: int| 0 <= i < new.len() && new[i] == name;
            if i < old.len() {
                assert(old[i] == name);
            }
            assert(dirs[dirs.len() - 1].name == name);
        }
        if !owned.contains(name) && exists|i: int|
            0 <= i < dirs.len() && (#[trigger] dirs[i]).name == name {
            let i = choose|i: int| 0 <= i < dirs.len() && (#[trigger] dirs[i]).name == name;
            if i < front.len() {
                assert(front[i].name == name);
            } else {
                assert(new[old.len() as int] == name);
            }
        }
    }
}

/// One more workspace covers the first directory on its way, where it names one.
pub proof fn workspaces_cover_their_directory(
    workspaces: Seq<SurveyedWorkspace>,
    ws: SurveyedWorkspace,
)
    ensures
        first_part(ws.dir@) is Some ==> covered(workspaces.push(ws)) == covered(workspaces).push(
            first_part(ws.dir@)->0,
        ),
        first_part(ws.dir@) is None ==> covered(workspaces.push(ws)) == covered(workspaces),
        covered(Seq::empty()).len() == 0,
{
    assert(workspaces.push(ws).drop_last() =~= workspaces);
    assert(workspaces.push(ws).last() == ws);
}

/// One more workspace is told to be empty exactly where its directory is not
/// there or holds nothing.
pub proof fn hollow_workspaces_hold_nothing(workspaces: Seq<WorkspaceFacts>, ws: WorkspaceFacts)
    ensures
        !ws.exists || !ws.non_empty ==> hollow(workspaces.push(ws)) == hollow(workspaces).push(
            ws.name,
        ),
        ws.exists && ws.non_empty ==> hollow(workspaces.push(ws)) == hollow(workspaces),
        hollow(Seq::empty()).len() == 0,
{
    assert(workspaces.push(ws).drop_last() =~= workspaces);
    assert(workspaces.push(ws).last() == ws);
}

/// The directory of a workspace is that of the project where none is given, is
/// left as it is where it is absolute, and lies within that of the project
/// otherwise.
pub proof fn workspace_directory_lies_in_project(project: Seq<char>, dir: Seq<char>)
    ensures
        ({
            let raw = trim(dir);
            let full = dir_of_workspace(project, dir);
            &&& raw.len() == 0 ==> full == project
            &&& raw.len() > 0 && raw[0] == '/' ==> full == raw
            &&& raw.len() > 0 && raw[0] != '/' ==> project.is_prefix_of(full) && raw.is_suffix_of(
                full,
            ) && full.len() == project.len() + raw.len() + if project.len() > 0 && project.last()
                != '/' {
                1int
            } else {
                0
            }
            &&& raw.len() > 0 && raw[0] != '/' && project.len() > 0 && project.last() != '/'
                ==> full[project.len() as int] == '/'
        }),
{
    reveal_strlit("/");
    let raw = trim(dir);
    let full = dir_of_workspace(project, dir);
    if raw.len() > 0 && raw[0] != '/' {
        assert(project =~= full.subrange(0, project.len() as int));
        assert(raw =~= full.subrange(full.len() - raw.len(), full.len() as int));
    }
}

proof fn fitting_is_most(s: Seq<char>, n: int, max: int)
    requires
        0 <= n <= s.len(),
        n > 0 ==> utf8_len(s.take(n)) <= max,
    ensures
        n <= fitting_chars(s, n, max) <= s.len(),
        fitting_chars(s, n, max) > 0 ==> utf8_len(s.take(fitting_chars(s, n, max))) <= max,
        fitting_chars(s, n, max) < s.len() ==> utf8_len(s.take(fitting_chars(s, n, max) + 1)) > max,
    decreases s.len() - n,
{
    if n < s.len() && utf8_len(s.take(n + 1)) <= max {
        fitting_is_most(s, n + 1, max);
    }
}

/// There is no excerpt exactly where the text says nothing. An excerpt is the
/// whole text where it fits, and else as many of its first characters as fit,
/// none more and none fewer, with an ellipsis after them.
pub proof fn excerpt_is_as_much_as_fits(body: Seq<char>, max: int)
    ensures
        excerpt(body, max) is None <==> trim(body).len() == 0,
        excerpt(body, max) is Some ==> excerpt(body, max)->0 == trim(body) || ({
            let kept = excerpt(body, max)->0.drop_last();
            &&& excerpt(body, max)->0.len() > 0
            &&& excerpt(body, max)->0.last() == '…'
            &&& kept.is_prefix_of(trim(body))
            &&& kept.len() < trim(body).len()
            &&& kept.len() > 0 ==> utf8_len(kept) <= max
            &&& utf8_len(trim(body).take(kept.len() as int + 1)) > max
        }),
        trim(body).len() > 0 && excerpt(body, max)->0 == trim(body) && trim(body).last() != '…'
            ==> utf8_len(trim(body)) <= max,
{
    let s = trim(body);
    fitting_is_most(s, 0, max);
    let n = fitting_chars(s, 0, max);
    assert(s.take(s.len() as int) =~= s);
    if s.len() > 0 && n < s.len() {
        let kept = s.take(n);
        assert(excerpt(body, max)->0.drop_last() =~= kept);
        assert(kept =~= s.subrange(0, n));
    }
}

/// A workspace has something in it exactly where its directory is there and holds
/// an entry that is not hidden; what else is told of it is as it was found.
pub proof fn hidden_entries_do_not_count(w: SurveyedWorkspace)
    ensures
        judged(w).exists == w.exists,
        judged(w).name == w.name@,
        judged(w).dir == w.dir@,
        judged(w).description == w.description@,
        judged(w).non_empty <==> w.exists && exists|i: int|
            0 <= i < w.entries@.len() && ((#[trigger] w.entries@[i])@.len() == 0
                || w.entries@[i]@[0] != '.'),
{
    let names = texts(w.entries@);
    if shows_something(names) {
        let i = choose|i: int|
            0 <= i < names.len() && !((#[trigger] names[i]).len() > 0 && names[i][0] == '.');
        assert(names[i] == w.entries@[i]@);
    }
    if exists|i: int|
        0 <= i < w.entries@.len() && ((#[trigger] w.entries@[i])@.len() == 0 || w.entries@[i]@[0]
            != '.') {
        let i = choose|i: int|
            0 <= i < w.entries@.len() && ((#[trigger] w.entries@[i])@.len() == 0
                || w.entries@[i]@[0] != '.');
        assert(names[i] == w.entries@[i]@);
    }
}

/// A character takes one byte up to the end of ASCII, two up to U+07FF, three up
/// to U+FFFF and four beyond; a text takes the bytes of its characters.
pub proof fn characters_take_their_bytes(s: Seq<char>, c: char)
    ensures
        utf8_len(s.push(c)) == utf8_len(s) + utf8_width(c),
        utf8_len(Seq::empty()) == 0,
        c as u32 <= 0x7F <==> utf8_width(c) == 1,
        0x80 <= c as u32 <= 0x7FF <==> utf8_width(c) == 2,
        0x800 <= c as u32 <= 0xFFFF <==> utf8_width(c) == 3,
        0x10000 <= c as u32 <==> utf8_width(c) == 4,
{
    assert(s.push(c).drop_last() =~= s);
    assert(s.push(c).last() == c);
}

/// The first directory on the way to a workspace is what stands before its first
/// slash, without what stands for the place itself; a way that names no directory
/// has none.
pub proof fn way_begins_with_a_directory(name: Seq<char>, rest: Seq<char>)
    requires
        name.len() > 0,
        !name.contains('/'),
        name != "."@,
        trim(name) == name,
        trim(name + "/"@ + rest) == name + "/"@ + rest,
    ensures
        first_part(name) == Some(name),
        first_part(name + "/"@ + rest) == Some(name),
{
    reveal_strlit("/");
    reveal_strlit("./");
    reveal_strlit(".");
    assert("/"@ =~= seq!['/'] && "./"@ =~= seq!['.', '/'] && "."@ =~= seq!['.']);
    let whole = name + "/"@ + rest;
    assert(!"./"@.is_prefix_of(name)) by {
        if "./"@.is_prefix_of(name) {
            assert(name[1] == '/');
            assert(name.contains('/'));
        }
    }
    assert(!"./"@.is_prefix_of(whole)) by {
        if "./"@.is_prefix_of(whole) {
            assert(whole[0] == '.' && whole[1] == '/');
            if name.len() > 1 {
                assert(name[1] == '/');
                assert(name.contains('/'));
            } else {
                assert(name[0] == whole[0]);
                assert(name =~= "."@);
            }
        }
    }
    prefixes_go(name, "./"@);
    prefixes_go(whole, "./"@);
    first_piece(name, Seq::empty());
    first_piece(name, "/"@ + rest);
    assert(name + Seq::<char>::empty() =~= name);
    assert(name + ("/"@ + rest) =~= whole);
}

proof fn first_piece(name: Seq<char>, rest: Seq<char>)
    requires
        !name.contains('/'),
        rest.len() > 0 ==> rest[0] == '/',
    ensures
        split(name + rest, '/').len() > 0,
        split(name + rest, '/')[0] == name,
        rest.len() == 0 ==> split(name + rest, '/').len() == 1,
    decreases rest.len() + name.len(),
{
    let whole = name + rest;
    if rest.len() > 0 {
        let front = rest.drop_last();
        first_piece(name, front);
        assert(whole.drop_last() =~= name + front);
        assert(whole.last() == rest.last());
        let before = split(name + front, '/');
        if rest.last() != '/' {
            assert(front.len() > 0);
            if before.len() == 1 {
                whole_has_two(name, front);
            }
        }
    } else if name.len() > 0 {
        let front = name.drop_last();
        assert(!front.contains('/')) by {
            if front.contains('/') {
                let i = choose|i: int| 0 <= i < front.len() && front[i] == '/';
                assert(name[i] == '/');
            }
        }
        first_piece(front, Seq::empty());
        assert(whole =~= name);
        assert(whole.drop_last() =~= front + Seq::<char>::empty());
        assert(name[name.len() - 1] != '/');
        assert(split(whole, '/')[0] =~= name);
    } else {
        assert(whole =~= Seq::empty());
        assert(split(whole, '/')[0] =~= name);
    }
}

proof fn whole_has_two(name: Seq<char>, rest: Seq<char>)
    requires
        rest.len() > 0,
        rest[0] == '/',
    ensures
        split(name + rest, '/').len() > 1,
    decreases rest.len(),
{
    let whole = name + rest;
    let front = rest.drop_last();
    assert(whole.drop_last() =~= name + front);
    assert(whole.last() == rest.last());
    splitting_is_undone_by_joining(name + front, '/');
    if rest.len() > 1 {
        assert(front[0] == '/');
        whole_has_two(name, front);
    }
}

/// What a configuration says of the team stands in its first fifteen lines, and
/// the first line that says it counts: later ones change nothing, and a line that
/// is no comment says nothing.
pub proof fn first_word_on_the_team_counts(all: Seq<Seq<char>>, line: Seq<char>)
    ensures
        ({
            let former = head_of(all);
            let latter = head_of(all.push(line));
            let comment = line.len() > 0 && line[0] == '#';
            &&& former.axis is Some ==> latter.axis == former.axis
            &&& former.rationale is Some ==> latter.rationale == former.rationale
            &&& !comment ==> latter == former
            &&& head_of(Seq::empty()).axis is None
            &&& head_of(Seq::empty()).rationale is None
            &&& comment && former.axis is None && "axis:"@.is_prefix_of(
                lower(trim(line.skip(1))),
            ) && words(
                lower(trim(line.skip(1))).skip("axis:"@.len() as int),
            ).len() > 0 ==> latter.axis == Some(
                words(lower(trim(line.skip(1))).skip("axis:"@.len() as int))[0],
            )
            &&& comment && former.rationale is None && "rationale:"@.is_prefix_of(
                lower(trim(line.skip(1))),
            ) && trim(trim(line.skip(1)).skip("rationale:"@.len() as int)).len() > 0
                ==> latter.rationale == Some(
                trim(trim(line.skip(1)).skip("rationale:"@.len() as int)),
            )
        }),
{
    assert(all.push(line).drop_last() =~= all);
    assert(all.push(line).last() == line);
    reveal_strlit("axis:");
    reveal_strlit("rationale:");
    assert("axis:"@[0] == 'a' && "rationale:"@[0] == 'r');
    assert("axis:"@.len() == 5 && "rationale:"@.len() == 10);
}

/// No line after the fifteenth is looked at, and every line before it is.
pub proof fn fifteen_lines_are_looked_at(yaml: Seq<char>)
    ensures
        head_lines(yaml).is_prefix_of(lines(yaml)),
        lines(yaml).len() <= 15 ==> head_lines(yaml)
            == lines(yaml),
        lines(yaml).len() > 15 ==> head_lines(yaml).len() == 15,
        axis_head(yaml) == head_of(
            head_lines(yaml),
        ),
{
    let head = head_lines(yaml);
    assert(head =~= lines(yaml).subrange(0, head.len() as int));
}

} // verus!
