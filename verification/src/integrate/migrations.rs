//! The number of a migration a rebased run adds, where `main` took it
//! meanwhile.

use crate::integrate::land::Renumbering;
use crate::json;
use crate::json::{Fields, Json};
use crate::text;
use vstd::prelude::*;
use vstd::string::*;

verus! {

/// A migration: its file's name in the directory of migrations, and its
/// number.
pub struct Migration {
    pub name: String,
    pub number: u32,
}

/// The name of a path in the directory of migrations.
pub open spec fn name_in(path: Seq<char>, directory: Seq<char>) -> Option<Seq<char>> {
    match text::without_prefix(path, directory) {
        Some(rest) => text::without_prefix(rest, "/"@),
        None => None,
    }
}

/// The name of a path in the directory of migrations, if it is there.
pub fn in_directory(path: &str, directory: &str) -> (r: Option<String>)
    ensures
        text::opt_view(r) == name_in(path@, directory@),
{
    match text::strip_prefix(path, directory) {
        Some(rest) => text::strip_prefix(rest.as_str(), "/"),
        None => None,
    }
}

/// Whether one of `list` has this name.
pub open spec fn has_name(list: Seq<Migration>, name: Seq<char>) -> bool {
    exists|i: int| 0 <= i < list.len() && (#[trigger] list[i]).name@ == name
}

/// Whether another file of the rebased tree, one the run did not add, has
/// this number.
pub open spec fn is_taken(added: Seq<Migration>, tree: Seq<Migration>, number: u32) -> bool {
    exists|i: int|
        0 <= i < tree.len() && (#[trigger] tree[i]).number == number && !has_name(
            added,
            tree[i].name@,
        )
}

/// The migrations the run adds whose number is taken, by name.
pub open spec fn taken_names(added: Seq<Migration>, tree: Seq<Migration>, n: int) -> Seq<Seq<char>>
    decreases n,
{
    if n <= 0 {
        Seq::empty()
    } else if is_taken(added, tree, added[n - 1].number) {
        taken_names(added, tree, n - 1).push(added[n - 1].name@)
    } else {
        taken_names(added, tree, n - 1)
    }
}

/// The highest number among the first `n` files of the tree the run did not
/// add; 0 of none.
pub open spec fn highest(added: Seq<Migration>, tree: Seq<Migration>, n: int) -> nat
    decreases n,
{
    if n <= 0 {
        0
    } else {
        let before = highest(added, tree, n - 1);
        if !has_name(added, tree[n - 1].name@) && tree[n - 1].number > before {
            tree[n - 1].number as nat
        } else {
            before
        }
    }
}

/// What is to be done about the migrations a run adds.
pub enum Plan {
    /// None of them has a number that is taken.
    Unchanged,
    /// Several are added: none is moved.
    Several { taken: Vec<String>, next: u32 },
    /// The only one moves from its number to `next`, unless the run's other
    /// changes mention it.
    Move { name: String, number: u32, next: u32 },
}

/// Whether one of `list` has this name.
fn holds_name(list: &Vec<Migration>, name: &str) -> (r: bool)
    ensures
        r == has_name(list@, name@),
{
    let mut i: usize = 0;
    while i < list.len()
        invariant
            i <= list@.len(),
            forall|j: int| 0 <= j < i ==> (#[trigger] list@[j]).name@ != name@,
        decreases list@.len() - i,
    {
        if text::same(list[i].name.as_str(), name) {
            return true;
        }
        i += 1;
    }
    false
}

/// Whether the number is taken by a file the run did not add.
fn taken_number(added: &Vec<Migration>, tree: &Vec<Migration>, number: u32) -> (r: bool)
    ensures
        r == is_taken(added@, tree@, number),
{
    let mut i: usize = 0;
    while i < tree.len()
        invariant
            i <= tree@.len(),
            forall|j: int|
                0 <= j < i ==> (#[trigger] tree@[j]).number != number || has_name(
                    added@,
                    tree@[j].name@,
                ),
        decreases tree@.len() - i,
    {
        if tree[i].number == number && !holds_name(added, tree[i].name.as_str()) {
            return true;
        }
        i += 1;
    }
    false
}

/// The migrations the run adds whose number is taken.
fn names_taken(added: &Vec<Migration>, tree: &Vec<Migration>) -> (r: Vec<String>)
    ensures
        text::views(r@) == taken_names(added@, tree@, added@.len() as int),
        r@.len() == taken_names(added@, tree@, added@.len() as int).len(),
{
    let mut taken: Vec<String> = Vec::new();
    let mut i: usize = 0;
    assert(text::views(taken@) =~= taken_names(added@, tree@, 0));
    while i < added.len()
        invariant
            i <= added@.len(),
            text::views(taken@) == taken_names(added@, tree@, i as int),
        decreases added@.len() - i,
    {
        if taken_number(added, tree, added[i].number) {
            let ghost had = text::views(taken@);
            taken.push(added[i].name.clone());
            assert(text::views(taken@) =~= had.push(added@[i as int].name@));
        }
        i += 1;
    }
    assert(text::views(taken@).len() == taken@.len());
    taken
}

/// The highest number of the files the run did not add.
fn highest_number(added: &Vec<Migration>, tree: &Vec<Migration>) -> (r: u32)
    ensures
        r == highest(added@, tree@, tree@.len() as int),
{
    let mut top: u32 = 0;
    let mut k: usize = 0;
    while k < tree.len()
        invariant
            k <= tree@.len(),
            top == highest(added@, tree@, k as int),
        decreases tree@.len() - k,
    {
        if !holds_name(added, tree[k].name.as_str()) && tree[k].number > top {
            top = tree[k].number;
        }
        k += 1;
    }
    top
}

/// Whether the next free number, where a collision needs one, is a number.
pub fn has_next_number(added: &Vec<Migration>, tree: &Vec<Migration>) -> (r: bool)
    ensures
        r == (taken_names(added@, tree@, added@.len() as int).len() > 0 ==> highest(
            added@,
            tree@,
            tree@.len() as int,
        ) < u32::MAX),
{
    names_taken(added, tree).len() == 0 || highest_number(added, tree) < u32::MAX
}

/// The next number free on `main`, and what the run's added migrations need.
/// Judged on the rebased tree: a migration the run renames or replaces keeps
/// its number without a collision.
pub fn plan(added: &Vec<Migration>, tree: &Vec<Migration>) -> (r: Plan)
    requires
        taken_names(added@, tree@, added@.len() as int).len() > 0 ==> highest(
            added@,
            tree@,
            tree@.len() as int,
        ) < u32::MAX,
    ensures
        ({
            let taken = taken_names(added@, tree@, added@.len() as int);
            let free = highest(added@, tree@, tree@.len() as int) + 1;
            match r {
                Plan::Unchanged => taken.len() == 0,
                Plan::Several { taken: names, next } => taken.len() > 0 && added@.len() > 1
                    && text::views(names@) == taken && next == free,
                Plan::Move { name, number, next } => taken.len() > 0 && added@.len() == 1 && name
                    == added@[0].name && number == added@[0].number && next == free,
            }
        }),
{
    let taken = names_taken(added, tree);
    if taken.len() == 0 {
        return Plan::Unchanged;
    }
    let next: u32 = highest_number(added, tree) + 1;
    if added.len() > 1 {
        Plan::Several { taken, next }
    } else {
        Plan::Move { name: added[0].name.clone(), number: added[0].number, next }
    }
}

/// The number a migration moves to is above every number of `main`, so it is
/// free.
pub proof fn next_number_is_free(added: Seq<Migration>, tree: Seq<Migration>, n: int)
    requires
        0 <= n <= tree.len(),
    ensures
        forall|i: int|
            0 <= i < n && !has_name(added, (#[trigger] tree[i]).name@) ==> tree[i].number
                < highest(added, tree, n) + 1,
    decreases n,
{
    if n > 0 {
        next_number_is_free(added, tree, n - 1);
    }
}

/// A run is left alone exactly when no migration it adds has a number another
/// file of the rebased tree has.
pub proof fn unchanged_iff_nothing_collides(added: Seq<Migration>, tree: Seq<Migration>, n: int)
    requires
        0 <= n <= added.len(),
    ensures
        taken_names(added, tree, n).len() == 0 <==> forall|i: int|
            0 <= i < n ==> !is_taken(added, tree, (#[trigger] added[i]).number),
    decreases n,
{
    if n > 0 {
        unchanged_iff_nothing_collides(added, tree, n - 1);
    }
}

/// The path of a migration's file.
pub open spec fn path_of(directory: Seq<char>, name: Seq<char>) -> Seq<char> {
    directory + "/"@ + name
}

/// The paths of migrations' files.
pub open spec fn paths_of(directory: Seq<char>, names: Seq<Seq<char>>) -> Seq<Seq<char>> {
    names.map_values(|name: Seq<char>| path_of(directory, name))
}

/// The path of a migration's file.
pub fn migration_path(directory: &str, name: &str) -> (r: String)
    ensures
        r@ == path_of(directory@, name@),
{
    directory.to_owned().concat("/").concat(name)
}

/// The paths of migrations' files.
pub fn migration_paths(directory: &str, names: &Vec<String>) -> (r: Vec<String>)
    ensures
        text::views(r@) == paths_of(directory@, text::views(names@)),
{
    let mut out: Vec<String> = Vec::new();
    let mut i: usize = 0;
    let ghost all = paths_of(directory@, text::views(names@));
    while i < names.len()
        invariant
            i <= names@.len(),
            all == paths_of(directory@, text::views(names@)),
            text::views(out@) == all.take(i as int),
        decreases names@.len() - i,
    {
        let ghost had = text::views(out@);
        let path = migration_path(directory, names[i].as_str());
        let ghost seen = path@;
        out.push(path);
        assert(text::views(out@) =~= had.push(seen));
        assert(all.take(i + 1) =~= all.take(i as int).push(all[i as int]));
        i += 1;
    }
    assert(all.take(names@.len() as int) =~= all);
    out
}

/// Why several added migrations are not moved.
pub open spec fn several_reason(count: nat) -> Seq<char> {
    "the run adds "@ + text::decimal(count)
        + " migrations, which are not renumbered mechanically"@
}

/// Why several added migrations are not moved.
pub fn several(count: usize) -> (r: String)
    ensures
        r@ == several_reason(count as nat),
{
    let n = text::number(count as u64);
    "the run adds ".to_owned().concat(n.as_str()).concat(
        " migrations, which are not renumbered mechanically",
    )
}

/// Why a migration whose number the run's other changes mention is not moved.
pub open spec fn referring_reason(digits: Seq<char>, referring: Seq<Seq<char>>) -> Seq<char> {
    "the run's other changes mention "@ + digits + " ("@ + text::joined(referring, ", "@) + ")"@
}

/// Why a migration whose number the run's other changes mention is not moved.
pub fn referred_to(digits: &str, referring: &Vec<String>) -> (r: String)
    ensures
        r@ == referring_reason(digits@, text::views(referring@)),
{
    let list = text::join(referring, ", ");
    "the run's other changes mention ".to_owned().concat(digits).concat(" (").concat(
        list.as_str(),
    ).concat(")")
}

/// The collision left to a session: why it is not moved, and the numbers.
/// `added` and `taken` are paths, `digits` the next free number as migrations
/// write it, and `referring` the other changed files that mention the number,
/// where that is why.
pub fn blocked(
    why: &str,
    main: &str,
    rebased: &str,
    added: &Vec<String>,
    taken: &Vec<String>,
    digits: &str,
    referring: &Option<Vec<String>>,
) -> (r: Renumbering)
    ensures
        r matches Renumbering::Blocked { reason, detail } && {
            &&& reason@ == why@ + "; main "@ + main@ + " already has the number of "@
                + text::joined(text::views(taken@), ", "@) + ", and the next free number is "@
                + digits@ + ": renumber the run's migrations from "@ + digits@
                + " (git mv), update what refers to their numbers, rerun the verification commands, and rewrite the receipt with the new head"@
            &&& detail@ == json::Value::Object(
                blocked_detail(
                    main@,
                    rebased@,
                    text::views(added@),
                    text::views(taken@),
                    digits@,
                    match *referring {
                        Some(list) => Some(text::views(list@)),
                        None => None,
                    },
                ),
            )
        },
{
    let list = text::join(taken, ", ");
    let reason = why.to_owned().concat("; main ").concat(main).concat(
        " already has the number of ",
    ).concat(list.as_str()).concat(", and the next free number is ").concat(digits).concat(
        ": renumber the run's migrations from ",
    ).concat(digits).concat(
        " (git mv), update what refers to their numbers, rerun the verification commands, and rewrite the receipt with the new head",
    );
    let fields = Fields::new().text("main", main).text("head", rebased).texts(
        "migrations",
        added,
    ).texts("taken", taken).text("next_number", digits);
    let detail = match referring {
        Some(list) => fields.texts("referring", list).done(),
        None => fields.done(),
    };
    Renumbering::Blocked { reason, detail }
}

/// What is recorded of a collision left to a session.
pub open spec fn blocked_detail(
    main: Seq<char>,
    rebased: Seq<char>,
    added: Seq<Seq<char>>,
    taken: Seq<Seq<char>>,
    digits: Seq<char>,
    referring: Option<Seq<Seq<char>>>,
) -> Seq<(Seq<char>, json::Value)> {
    let base = json::none().push(("main"@, json::Value::Text(main))).push(
        ("head"@, json::Value::Text(rebased)),
    ).push(("migrations"@, json::list_of(added))).push(("taken"@, json::list_of(taken))).push(
        ("next_number"@, json::Value::Text(digits)),
    );
    match referring {
        Some(list) => base.push(("referring"@, json::list_of(list))),
        None => base,
    }
}

/// The paragraphs of the commit that moves a migration.
pub fn renumber_message(
    main: &str,
    old_digits: &str,
    next_digits: &str,
    old: &str,
    new: &str,
) -> (r: (String, String))
    ensures
        r.0@ == "fix: renumber migration "@ + old_digits@ + " to "@ + next_digits@,
        r.1@ == "main "@ + main@ + " took number "@ + old_digits@
            + " while the run was open, so dagq integrate moved "@ + old@ + " to "@ + new@
            + " (ADR-0067)."@,
{
    (
        "fix: renumber migration ".to_owned().concat(old_digits).concat(" to ").concat(
            next_digits,
        ),
        "main ".to_owned().concat(main).concat(" took number ").concat(old_digits).concat(
            " while the run was open, so dagq integrate moved ",
        ).concat(old).concat(" to ").concat(new).concat(" (ADR-0067)."),
    )
}

/// The paths among `changed` other than the migration's own.
pub open spec fn others_of(changed: Seq<Seq<char>>, own: Seq<char>) -> Seq<Seq<char>>
    decreases changed.len(),
{
    if changed.len() == 0 {
        Seq::empty()
    } else {
        let before = others_of(changed.drop_last(), own);
        if changed.last() != own {
            before.push(changed.last())
        } else {
            before
        }
    }
}

/// The changed paths in which a mention of the migration's number is looked
/// for: all but its own.
pub fn other_changes(changed: &Vec<String>, own: &str) -> (r: Vec<String>)
    ensures
        text::views(r@) == others_of(text::views(changed@), own@),
{
    let mut out: Vec<String> = Vec::new();
    let mut i: usize = 0;
    let ghost all = text::views(changed@);
    assert(text::views(out@) =~= others_of(all.take(0), own@));
    while i < changed.len()
        invariant
            i <= changed@.len(),
            all == text::views(changed@),
            text::views(out@) == others_of(all.take(i as int), own@),
        decreases changed@.len() - i,
    {
        proof {
            assert(all.take(i + 1).drop_last() =~= all.take(i as int));
            assert(all.take(i + 1).last() == changed@[i as int]@);
        }
        if !text::same(changed[i].as_str(), own) {
            let ghost had = text::views(out@);
            out.push(changed[i].clone());
            assert(text::views(out@) =~= had.push(changed@[i as int]@));
        }
        i += 1;
    }
    assert(all.take(all.len() as int) =~= all);
    out
}

/// How the numbers of a move are written.
pub struct Digits {
    /// The number that is taken.
    pub old: String,
    /// The next free one.
    pub next: String,
    /// The name of the migration with the next free number.
    pub renamed: String,
}

/// What has been done and observed of a renumbering so far.
#[derive(Default)]
pub struct Seen {
    /// The migrations the run adds.
    pub added: Option<Vec<Migration>>,
    /// The migrations of the rebased tree.
    pub tree: Option<Vec<Migration>>,
    pub digits: Option<Digits>,
    /// What the run changed.
    pub changed: Option<Vec<String>>,
    /// The other changes that mention the number.
    pub referring: Option<Vec<String>>,
    /// The head after the move.
    pub head: Option<String>,
    pub recorded: bool,
}

/// What a renumbering does or looks at next, or what it came to.
pub enum Step {
    AddedMigrations,
    TreeMigrations,
    /// How `number` of `name` and `next` are written; `number` is 0 where
    /// several migrations are added.
    Write { name: String, number: u32, next: u32 },
    ChangedPaths,
    PathsContaining { digits: String, among: Vec<String> },
    RenameAndCommit { from: String, to: String, title: String, body: String },
    Record { kind: &'static str, payload: Json },
    Finished(Renumbering),
}

impl Seen {
    /// Whether the next free number, where one is needed, is a number.
    pub open spec fn fits(self) -> bool {
        self.added is Some && self.tree is Some && self.taken().len() > 0 ==> highest(
            self.added->0@,
            self.tree->0@,
            self.tree->0@.len() as int,
        ) < u32::MAX
    }

    /// The migrations the run adds whose number is taken.
    pub open spec fn taken(self) -> Seq<Seq<char>> {
        taken_names(self.added->0@, self.tree->0@, self.added->0@.len() as int)
    }

    /// The next free number.
    pub open spec fn next(self) -> nat {
        highest(self.added->0@, self.tree->0@, self.tree->0@.len() as int) + 1
    }
}

/// The names of migrations.
pub open spec fn names(list: Seq<Migration>) -> Seq<Seq<char>> {
    list.map_values(|m: Migration| m.name@)
}

/// The names of migrations.
fn names_of(list: &Vec<Migration>) -> (r: Vec<String>)
    ensures
        text::views(r@) == names(list@),
{
    let mut out: Vec<String> = Vec::new();
    let mut i: usize = 0;
    while i < list.len()
        invariant
            i <= list@.len(),
            text::views(out@) == names(list@).take(i as int),
        decreases list@.len() - i,
    {
        let ghost had = text::views(out@);
        out.push(list[i].name.clone());
        assert(text::views(out@) =~= had.push(list@[i as int].name@));
        assert(names(list@).take(i + 1) =~= names(list@).take(i as int).push(
            list@[i as int].name@,
        ));
        i += 1;
    }
    assert(names(list@).take(list@.len() as int) =~= names(list@));
    out
}

/// Whether the collision is left to a session, for this reason.
pub open spec fn left_to_session(
    main: Seq<char>,
    rebased: Seq<char>,
    directory: Seq<char>,
    seen: Seen,
    why: Seq<char>,
    referring: Option<Seq<Seq<char>>>,
    r: Step,
) -> bool {
    let digits = seen.digits->0.next@;
    let taken = paths_of(directory, seen.taken());
    r matches Step::Finished(Renumbering::Blocked { reason, detail }) && {
        &&& reason@ == why + "; main "@ + main + " already has the number of "@ + text::joined(
            taken,
            ", "@,
        ) + ", and the next free number is "@ + digits + ": renumber the run's migrations from "@
            + digits
            + " (git mv), update what refers to their numbers, rerun the verification commands, and rewrite the receipt with the new head"@
        &&& detail@ == json::Value::Object(
            blocked_detail(
                main,
                rebased,
                paths_of(directory, names(seen.added->0@)),
                taken,
                digits,
                referring,
            ),
        )
    }
}

/// What a renumbering comes to with what has been done and observed.
pub open spec fn renumbers(
    main: Seq<char>,
    rebased: Seq<char>,
    directory: Seq<char>,
    seen: Seen,
    r: Step,
) -> bool {
    if seen.added is None {
        r is AddedMigrations
    } else if seen.added->0@.len() == 0 {
        r == Step::Finished(Renumbering::Unchanged)
    } else if seen.tree is None {
        r is TreeMigrations
    } else if seen.taken().len() == 0 {
        r == Step::Finished(Renumbering::Unchanged)
    } else if seen.digits is None {
        r matches Step::Write { name, number, next } && next == seen.next() && name
            == seen.added->0@[0].name && number == (if seen.added->0@.len() > 1 {
            0
        } else {
            seen.added->0@[0].number
        })
    } else if seen.added->0@.len() > 1 {
        left_to_session(
            main,
            rebased,
            directory,
            seen,
            several_reason(seen.added->0@.len()),
            None,
            r,
        )
    } else {
        let old = path_of(directory, seen.added->0@[0].name@);
        let new = path_of(directory, seen.digits->0.renamed@);
        let from = seen.digits->0.old@;
        let to = seen.digits->0.next@;
        if seen.changed is None {
            r is ChangedPaths
        } else if seen.referring is None {
            r matches Step::PathsContaining { digits, among } && digits == seen.digits->0.old
                && text::views(among@) == others_of(text::views(seen.changed->0@), old)
        } else if seen.referring->0@.len() > 0 {
            left_to_session(
                main,
                rebased,
                directory,
                seen,
                referring_reason(from, text::views(seen.referring->0@)),
                Some(text::views(seen.referring->0@)),
                r,
            )
        } else if seen.head is None {
            r matches Step::RenameAndCommit { from: a, to: b, title, body } && a@ == old && b@
                == new && title@ == "fix: renumber migration "@ + from + " to "@ + to && body@
                == "main "@ + main + " took number "@ + from
                + " while the run was open, so dagq integrate moved "@ + old + " to "@ + new
                + " (ADR-0067)."@
        } else if !seen.recorded {
            r matches Step::Record { kind, payload } && kind@ == "migration_renumbered"@ && payload@
                == json::Value::Object(
                json::none().push(("main"@, json::Value::Text(main))).push(
                    ("from"@, json::Value::Text(old)),
                ).push(("to"@, json::Value::Text(new))).push(
                    ("old_number"@, json::Value::Text(from)),
                ).push(("new_number"@, json::Value::Text(to))).push(
                    ("head_before"@, json::Value::Text(rebased)),
                ).push(("head_after"@, json::Value::Text(seen.head->0@))),
            )
        } else {
            r == Step::Finished(Renumbering::Renumbered { head: seen.head->0 })
        }
    }
}

/// Renumber the migration the rebased run adds when `main` already has its
/// number, that is when another file of the rebased tree, one the run did not
/// add, has it: moved to the next number free on `main` and committed on the
/// run branch. Only a run that adds exactly one migration, whose number none
/// of the run's other changed files mentions, is moved; any other collision
/// is left to a session with the next free number.
pub fn renumber_migration(main: &str, rebased: &str, directory: &str, seen: &Seen) -> (r: Step)
    requires
        seen.fits(),
    ensures
        renumbers(main@, rebased@, directory@, *seen, r),
{
    let added = match &seen.added {
        Some(added) => added,
        None => return Step::AddedMigrations,
    };
    if added.len() == 0 {
        return Step::Finished(Renumbering::Unchanged);
    }
    let tree = match &seen.tree {
        Some(tree) => tree,
        None => return Step::TreeMigrations,
    };
    let found = plan(added, tree);
    let (next, number, taken_names): (u32, u32, Vec<String>) = match found {
        Plan::Unchanged => return Step::Finished(Renumbering::Unchanged),
        Plan::Several { taken, next } => (next, 0, taken),
        Plan::Move { name, number, next } => {
            let mut only: Vec<String> = Vec::new();
            only.push(name);
            assert(text::views(only@) =~= seen.taken()) by {
                assert(taken_names(added@, tree@, 0).len() == 0);
                assert(taken_names(added@, tree@, 1) =~= seq![added@[0].name@]);
            }
            (next, number, only)
        },
    };
    let digits = match &seen.digits {
        Some(digits) => digits,
        None => return Step::Write { name: added[0].name.clone(), number, next },
    };
    let taken = migration_paths(directory, &taken_names);
    let all = names_of(added);
    let all_paths = migration_paths(directory, &all);
    if added.len() > 1 {
        let why = several(added.len());
        return Step::Finished(
            blocked(why.as_str(), main, rebased, &all_paths, &taken, digits.next.as_str(), &None),
        );
    }
    let old = migration_path(directory, added[0].name.as_str());
    let changed = match &seen.changed {
        Some(changed) => changed,
        None => return Step::ChangedPaths,
    };
    let referring = match &seen.referring {
        Some(referring) => referring,
        None => {
            let among = other_changes(changed, old.as_str());
            return Step::PathsContaining { digits: digits.old.clone(), among };
        },
    };
    if referring.len() > 0 {
        let why = referred_to(digits.old.as_str(), referring);
        let list = Some(text::copied(referring));
        return Step::Finished(
            blocked(why.as_str(), main, rebased, &all_paths, &taken, digits.next.as_str(), &list),
        );
    }
    let new = migration_path(directory, digits.renamed.as_str());
    let head = match &seen.head {
        Some(head) => head,
        None => {
            let (title, body) = renumber_message(
                main,
                digits.old.as_str(),
                digits.next.as_str(),
                old.as_str(),
                new.as_str(),
            );
            return Step::RenameAndCommit { from: old, to: new, title, body };
        },
    };
    if !seen.recorded {
        let payload = Fields::new().text("main", main).text("from", old.as_str()).text(
            "to",
            new.as_str(),
        ).text("old_number", digits.old.as_str()).text("new_number", digits.next.as_str()).text(
            "head_before",
            rebased,
        ).text("head_after", head.as_str()).done();
        return Step::Record { kind: "migration_renumbered", payload };
    }
    Step::Finished(Renumbering::Renumbered { head: head.clone() })
}

/// A name stands in a directory where the path is the directory, a slash and
/// the name.
pub proof fn a_name_is_what_follows_the_directory(
    path: Seq<char>,
    directory: Seq<char>,
    name: Seq<char>,
)
    ensures
        name_in(directory + "/"@ + name, directory) == Some(name),
        name_in(path, directory) matches Some(of) ==> path == directory + "/"@ + of,
{
    reveal_strlit("/");
    let whole = directory + "/"@ + name;
    let rest = "/"@ + name;
    assert(whole.take(directory.len() as int) =~= directory);
    assert(whole.skip(directory.len() as int) =~= rest);
    assert(rest.take(1) =~= "/"@);
    assert(rest.skip(1) =~= name);
    text::a_prefix_is_cut_off(path, directory);
    if let Some(after) = text::without_prefix(path, directory) {
        text::a_prefix_is_cut_off(after, "/"@);
        if let Some(of) = text::without_prefix(after, "/"@) {
            assert(directory + ("/"@ + of) =~= directory + "/"@ + of);
        }
    }
}

/// A migration the run adds is taken exactly where the tree has another one of
/// its number that the run does not add.
pub proof fn a_number_is_taken_by_another(
    added: Seq<Migration>,
    tree: Seq<Migration>,
    number: u32,
    i: int,
)
    requires
        0 <= i < tree.len(),
        tree[i].number == number,
    ensures
        (forall|j: int| 0 <= j < added.len() ==> (#[trigger] added[j]).name@ != tree[i].name@)
            ==> is_taken(added, tree, number),
        tree.len() == 1 && (exists|j: int|
            0 <= j < added.len() && (#[trigger] added[j]).name@ == tree[i].name@) ==> !is_taken(
            added,
            tree,
            number,
        ),
{
}

/// The number a migration is moved to is free: greater than that of every
/// migration of the tree that the run does not add, and next after the
/// greatest of them.
proof fn highest_is_greatest(added: Seq<Migration>, tree: Seq<Migration>, n: int)
    requires
        0 <= n <= tree.len(),
    ensures
        forall|i: int|
            0 <= i < n && !has_name(added, (#[trigger] tree[i]).name@) ==> tree[i].number
                <= highest(added, tree, n),
        highest(added, tree, n) > 0 ==> exists|i: int|
            0 <= i < n && (#[trigger] tree[i]).number == highest(added, tree, n) && !has_name(
                added,
                tree[i].name@,
            ),
    decreases n,
{
    if n > 0 {
        highest_is_greatest(added, tree, n - 1);
        let before = highest(added, tree, n - 1);
        if !has_name(added, tree[n - 1].name@) && tree[n - 1].number > before {
            assert(tree[n - 1].number == highest(added, tree, n));
        } else if before > 0 {
            let i = choose|i: int|
                0 <= i < n - 1 && (#[trigger] tree[i]).number == before && !has_name(
                    added,
                    tree[i].name@,
                );
            assert(tree[i].number == highest(added, tree, n));
        }
    }
}

/// A run's one migration whose number the tree has is moved, under its own
/// name, to a number no other migration of the tree has or is past; where the
/// run adds several they are left to the session, and where no number is taken
/// nothing changes.
pub proof fn a_taken_migration_moves_to_a_free_number(
    added: &Vec<Migration>,
    tree: &Vec<Migration>,
    r: Plan,
)
    requires
        call_ensures(plan, (added, tree), r),
    ensures
        r is Unchanged <==> forall|i: int|
            0 <= i < added@.len() ==> !is_taken(added@, tree@, (#[trigger] added@[i]).number),
        r matches Plan::Move { name, number, next } ==> added@.len() == 1 && name@
            == added@[0].name@ && number == added@[0].number && forall|i: int|
            0 <= i < tree@.len() && !has_name(added@, (#[trigger] tree@[i]).name@)
                ==> tree@[i].number < next,
        r matches Plan::Several { next, .. } ==> added@.len() > 1 && forall|i: int|
            0 <= i < tree@.len() && !has_name(added@, (#[trigger] tree@[i]).name@)
                ==> tree@[i].number < next,
{
    unchanged_iff_nothing_collides(added@, tree@, added@.len() as int);
    highest_is_greatest(added@, tree@, tree@.len() as int);
}

/// What else the run changed is every changed path but the migration's own.
pub proof fn other_changes_are_all_but_its_own(
    changed: Seq<Seq<char>>,
    own: Seq<char>,
    path: Seq<char>,
)
    ensures
        others_of(changed, own).contains(path) <==> path != own && changed.contains(path),
    decreases changed.len(),
{
    if changed.len() > 0 {
        let front = changed.drop_last();
        other_changes_are_all_but_its_own(front, own, path);
        let before = others_of(front, own);
        if changed.contains(path) {
            let i = choose|i: int| 0 <= i < changed.len() && changed[i] == path;
            if i < front.len() {
                assert(front[i] == path);
            } else {
                assert(changed.last() == path);
            }
        }
        if front.contains(path) {
            let i = choose|i: int| 0 <= i < front.len() && front[i] == path;
            assert(changed[i] == path);
        }
        if changed.last() == path {
            assert(changed[changed.len() - 1] == path);
        }
        if changed.last() != own {
            assert(others_of(changed, own) == before.push(changed.last()));
            if before.contains(path) {
                let i = choose|i: int| 0 <= i < before.len() && before[i] == path;
                assert(before.push(changed.last())[i] == path);
            }
            if changed.last() == path {
                assert(before.push(changed.last())[before.len() as int] == path);
            }
            if before.push(changed.last()).contains(path) {
                let i = choose|i: int|
                    0 <= i < before.push(changed.last()).len() && before.push(changed.last())[i]
                        == path;
                if i < before.len() {
                    assert(before[i] == path);
                }
            }
        }
    }
}

/// A migration is renamed only where the run adds one alone, its number is
/// taken and nothing else the run changed mentions it; it is recorded, with
/// the heads before and after, before the run goes on with the new head.
pub proof fn a_migration_is_renamed_only_when_safe(
    main: Seq<char>,
    rebased: Seq<char>,
    directory: Seq<char>,
    seen: Seen,
    r: Step,
)
    requires
        renumbers(main, rebased, directory, seen, r),
    ensures
        r is RenameAndCommit || (r matches Step::Finished(Renumbering::Renumbered { .. })) || r
            is Record ==> {
            &&& seen.added->0@.len() == 1
            &&& is_taken(seen.added->0@, seen.tree->0@, seen.added->0@[0].number)
            &&& seen.referring is Some && seen.referring->0@.len() == 0
        },
        r matches Step::RenameAndCommit { from, to, .. } ==> seen.head is None && from@ == directory
            + "/"@ + seen.added->0@[0].name@ && to@ == directory + "/"@ + seen.digits->0.renamed@,
        r matches Step::Finished(Renumbering::Renumbered { head }) ==> seen.head == Some(head)
            && seen.recorded,
        r == Step::Finished(Renumbering::Unchanged) <==> seen.added is Some && (
        seen.added->0@.len() == 0 || (seen.tree is Some && forall|i: int|
            0 <= i < seen.added->0@.len() ==> !is_taken(
                seen.added->0@,
                seen.tree->0@,
                (#[trigger] seen.added->0@[i]).number,
            ))),
        r matches Step::Finished(Renumbering::Blocked { .. }) ==> seen.added->0@.len() > 1 || (
        seen.referring is Some && seen.referring->0@.len() > 0),
        r matches Step::PathsContaining { digits, among } ==> digits@ == seen.digits->0.old@
            && forall|path: Seq<char>|
            #![trigger text::views(among@).contains(path)]
            text::views(among@).contains(path) <==> path != directory + "/"@
                + seen.added->0@[0].name@ && text::views(seen.changed->0@).contains(path),
        r matches Step::Record { payload, .. } ==> payload@ is Object && payload@->Object_0[5] == (
            "head_before"@,
            json::Value::Text(rebased),
        ) && payload@->Object_0[6] == ("head_after"@, json::Value::Text(seen.head->0@)),
{
    if seen.added is Some && seen.tree is Some {
        unchanged_iff_nothing_collides(seen.added->0@, seen.tree->0@, seen.added->0@.len() as int);
    }
    if let Step::PathsContaining { digits, among } = r {
        let own = path_of(directory, seen.added->0@[0].name@);
        assert forall|path: Seq<char>|
            #![trigger text::views(among@).contains(path)]
            text::views(among@).contains(path) <==> path != own && text::views(
                seen.changed->0@,
            ).contains(path) by {
            other_changes_are_all_but_its_own(text::views(seen.changed->0@), own, path);
        }
    }
}

/// A renumbering that cannot be done says why first, and its detail names both
/// commits.
pub proof fn a_blocked_renumbering_says_why(
    why: &str,
    main: &str,
    rebased: &str,
    added: &Vec<String>,
    taken: &Vec<String>,
    digits: &str,
    referring: &Option<Vec<String>>,
    r: Renumbering,
)
    requires
        call_ensures(blocked, (why, main, rebased, added, taken, digits, referring), r),
    ensures
        r is Blocked,
        text::has_prefix(r->reason@, why@ + "; main "@ + main@),
        r->detail@ is Object,
{
    let head = why@ + "; main "@ + main@;
    assert(r->reason@.take(head.len() as int) =~= head);
}

/// The commit of a renumbering names both numbers, and its body both files and
/// the head that took the number.
pub proof fn a_renumbering_names_both_numbers(
    main: &str,
    old_digits: &str,
    next_digits: &str,
    old: &str,
    new: &str,
    r: (String, String),
)
    requires
        call_ensures(renumber_message, (main, old_digits, next_digits, old, new), r),
    ensures
        r.0@ == "fix: renumber migration "@ + old_digits@ + " to "@ + next_digits@,
        text::has_prefix(r.1@, "main "@ + main@ + " took number "@ + old_digits@),
        text::has_part(r.1@, old@ + " to "@ + new@),
{
    let head = "main "@ + main@ + " took number "@ + old_digits@;
    assert(r.1@.take(head.len() as int) =~= head);
    let before = head + " while the run was open, so dagq integrate moved "@;
    let part = old@ + " to "@ + new@;
    let after = " (ADR-0067)."@;
    assert(r.1@ =~= before + part + after);
    text::part_is_found(before, part, after);
}

} // verus!
