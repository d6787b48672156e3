//! Paths as text, with `/` between their components.

use crate::text;
use vstd::prelude::*;
use vstd::string::*;

verus! {

/// `name` under `dir`: `name` itself where it is absolute.
pub open spec fn under(dir: Seq<char>, name: Seq<char>) -> Seq<char> {
    if name.len() > 0 && name[0] == '/' {
        name
    } else if dir.len() == 0 || dir.last() == '/' {
        dir + name
    } else {
        dir + "/"@ + name
    }
}

/// `name` under `dir`.
pub fn join_path(dir: &str, name: &str) -> (r: String)
    ensures
        r@ == under(dir@, name@),
{
    proof {
        reveal_strlit("/");
        assert("/"@ =~= seq!['/']);
        if name@.len() > 0 {
            assert(name@.take(1) =~= seq![name@[0]]);
            assert(name@.take(1)[0] == name@[0]);
        }
        if dir@.len() > 0 {
            assert(dir@.skip(dir@.len() - 1) =~= seq![dir@.last()]);
            assert(dir@.skip(dir@.len() - 1)[0] == dir@.last());
        }
    }
    if text::starts_with(name, "/") {
        name.to_owned()
    } else if dir.is_empty() || text::strip_suffix(dir, "/").is_some() {
        dir.to_owned().concat(name)
    } else {
        dir.to_owned().concat("/").concat(name)
    }
}

/// The pieces of `s` between its slashes.
pub open spec fn pieces(s: Seq<char>) -> Seq<Seq<char>>
    decreases s.len(),
{
    if s.len() == 0 {
        seq![Seq::empty()]
    } else if s.last() == '/' {
        pieces(s.drop_last()).push(Seq::empty())
    } else {
        let before = pieces(s.drop_last());
        before.drop_last().push(before.last().push(s.last()))
    }
}

/// Whether piece `i` of a path is a component of it: not empty, and a dot
/// only in front of a relative path.
pub open spec fn counts(piece: Seq<char>, i: int) -> bool {
    piece.len() > 0 && (piece == "."@ ==> i == 0)
}

/// The first `n` pieces of a path that are components of it.
pub open spec fn kept(all: Seq<Seq<char>>, n: int) -> Seq<Seq<char>>
    decreases n,
{
    if n <= 0 {
        Seq::empty()
    } else if counts(all[n - 1], n - 1) {
        kept(all, n - 1).push(all[n - 1])
    } else {
        kept(all, n - 1)
    }
}

/// Whether a path starts at the root.
pub open spec fn is_absolute(s: Seq<char>) -> bool {
    s.len() > 0 && s[0] == '/'
}

/// The components of a path below its root, if it has one.
pub open spec fn names(s: Seq<char>) -> Seq<Seq<char>> {
    kept(pieces(s), pieces(s).len() as int)
}

/// The components of the path below its root.
pub fn components(path: &str) -> (r: Vec<String>)
    ensures
        text::views(r@) == names(path@),
{
    let chars = text::chars_of(path);
    let mut all: Vec<String> = Vec::new();
    all.push(String::new());
    assert(text::views(all@) =~= pieces(path@.take(0)));
    let mut i: usize = 0;
    while i < chars.len()
        invariant
            i <= chars@.len(),
            chars@ == path@,
            text::views(all@) == pieces(path@.take(i as int)),
            all@.len() > 0,
        decreases chars@.len() - i,
    {
        let c = chars[i];
        let ghost before = pieces(path@.take(i as int));
        proof {
            assert(path@.take(i + 1).drop_last() =~= path@.take(i as int));
            assert(path@.take(i + 1).last() == c);
        }
        if c == '/' {
            all.push(String::new());
            assert(text::views(all@) =~= before.push(Seq::empty()));
        } else {
            let mut last = match all.pop() {
                Some(last) => last,
                None => String::new(),
            };
            assert(text::views(all@) =~= before.drop_last());
            last.push(c);
            all.push(last);
            assert(text::views(all@) =~= before.drop_last().push(before.last().push(c)));
        }
        i += 1;
    }
    assert(path@.take(i as int) =~= path@);
    let mut out: Vec<String> = Vec::new();
    let mut n: usize = 0;
    while n < all.len()
        invariant
            n <= all@.len(),
            text::views(all@) == pieces(path@),
            text::views(out@) == kept(pieces(path@), n as int),
        decreases all@.len() - n,
    {
        assert(text::views(all@)[n as int] == all@[n as int]@);
        if !all[n].as_str().is_empty() && (!text::same(all[n].as_str(), ".") || n == 0) {
            let ghost had = text::views(out@);
            out.push(all[n].clone());
            assert(text::views(out@) =~= had.push(all@[n as int]@));
        }
        n += 1;
    }
    out
}

/// The last component of a path, unless it goes up or stays.
pub open spec fn file_name_of(s: Seq<char>) -> Option<Seq<char>> {
    let all = names(s);
    if all.len() > 0 && all.last() != ".."@ && all.last() != "."@ {
        Some(all.last())
    } else {
        None
    }
}

/// The name of the file a path ends in.
pub fn file_name(path: &str) -> (r: Option<String>)
    ensures
        text::opt_view(r) == file_name_of(path@),
{
    let mut all = components(path);
    let ghost had = all@;
    match all.pop() {
        Some(last) => {
            assert(text::views(had).last() == last@);
            if text::same(last.as_str(), "..") || text::same(last.as_str(), ".") {
                None
            } else {
                Some(last)
            }
        },
        None => None,
    }
}

/// The shortest start of `s`, of at least `n` characters, that has all its
/// components but the last.
pub open spec fn parent_from(s: Seq<char>, n: int) -> Option<Seq<char>>
    decreases s.len() - n + 1,
{
    if n < 0 || n > s.len() {
        None
    } else if is_absolute(s.take(n)) == is_absolute(s) && names(s.take(n)) == names(
        s,
    ).drop_last() {
        Some(s.take(n))
    } else {
        parent_from(s, n + 1)
    }
}

/// The directory a path with a last component is in.
pub open spec fn parent_of(s: Seq<char>) -> Option<Seq<char>> {
    if names(s).len() > 0 {
        parent_from(s, 0)
    } else {
        None
    }
}

/// Whether two lists of texts are the same, but for the last of the second.
fn same_but_last(a: &Vec<String>, b: &Vec<String>) -> (r: bool)
    requires
        b@.len() > 0,
    ensures
        r == (text::views(a@) == text::views(b@).drop_last()),
{
    if a.len() != b.len() - 1 {
        assert(text::views(a@).len() != text::views(b@).drop_last().len());
        return false;
    }
    let n = a.len();
    let mut i: usize = 0;
    while i < n
        invariant
            i <= n,
            n == a@.len(),
            n + 1 == b@.len(),
            forall|j: int| 0 <= j < i ==> a@[j]@ == b@[j]@,
        decreases n - i,
    {
        if !text::same(a[i].as_str(), b[i].as_str()) {
            assert(text::views(a@)[i as int] != text::views(b@).drop_last()[i as int]);
            return false;
        }
        i += 1;
    }
    assert(text::views(a@) =~= text::views(b@).drop_last());
    true
}

/// The directory the path is in.
pub fn parent(path: &str) -> (r: Option<String>)
    ensures
        text::opt_view(r) == parent_of(path@),
{
    let all = components(path);
    assert(text::views(all@).len() == all@.len());
    if all.len() == 0 {
        return None;
    }
    let chars = text::chars_of(path);
    let absolute = chars.len() > 0 && chars[0] == '/';
    let len = chars.len();
    let mut n: usize = 0;
    loop
        invariant
            n <= len,
            len == chars@.len(),
            chars@ == path@,
            absolute == is_absolute(path@),
            text::views(all@) == names(path@),
            all@.len() > 0,
            names(path@).len() > 0,
            parent_from(path@, 0) == parent_from(path@, n as int),
        decreases len - n,
    {
        let start = text::string_of(&chars, 0, n);
        assert(start@ =~= path@.take(n as int));
        let here = components(start.as_str());
        let rooted = n > 0 && chars[0] == '/';
        assert(rooted == is_absolute(path@.take(n as int)));
        if rooted == absolute && same_but_last(&here, &all) {
            return Some(start);
        }
        if n == len {
            assert(parent_from(path@, n + 1) is None);
            return None;
        }
        n += 1;
    }
}

/// Whether `base` is `path` or a directory above it, component by component. A
/// base without components, the empty one, is above every path.
pub open spec fn is_within(path: Seq<char>, base: Seq<char>) -> bool {
    &&& is_absolute(base) || names(base).len() > 0 ==> is_absolute(path) == is_absolute(base)
    &&& names(base).len() <= names(path).len()
    &&& names(path).take(names(base).len() as int) == names(base)
}

/// Whether `base` is `path` or a directory above it.
pub fn within(path: &str, base: &str) -> (r: bool)
    ensures
        r == is_within(path@, base@),
{
    proof {
        reveal_strlit("/");
        assert("/"@ =~= seq!['/']);
        if path@.len() > 0 {
            assert(path@.take(1) =~= seq![path@[0]]);
            assert(path@.take(1)[0] == path@[0]);
        }
        if base@.len() > 0 {
            assert(base@.take(1) =~= seq![base@[0]]);
            assert(base@.take(1)[0] == base@[0]);
        }
    }
    let inner = components(path);
    let outer = components(base);
    assert(text::views(inner@).len() == inner@.len());
    assert(text::views(outer@).len() == outer@.len());
    let rooted = text::starts_with(base, "/");
    if (rooted || outer.len() > 0) && text::starts_with(path, "/") != rooted {
        return false;
    }
    if outer.len() > inner.len() {
        return false;
    }
    let mut i: usize = 0;
    while i < outer.len()
        invariant
            i <= outer@.len() <= inner@.len(),
            rooted == is_absolute(base@),
            rooted || outer@.len() > 0 ==> is_absolute(path@) == is_absolute(base@),
            text::views(inner@) == names(path@),
            text::views(outer@) == names(base@),
            forall|j: int| 0 <= j < i ==> inner@[j]@ == outer@[j]@,
        decreases outer@.len() - i,
    {
        if !text::same(inner[i].as_str(), outer[i].as_str()) {
            assert(text::views(inner@).take(outer@.len() as int)[i as int] == inner@[i as int]@);
            assert(text::views(outer@)[i as int] == outer@[i as int]@);
            return false;
        }
        i += 1;
    }
    assert(names(path@).take(outer@.len() as int) =~= names(base@)) by {
        assert forall|j: int| 0 <= j < outer@.len() implies names(path@)[j] == names(base@)[j] by {
            assert(text::views(inner@)[j] == inner@[j]@);
            assert(text::views(outer@)[j] == outer@[j]@);
        }
    }
    true
}

/// A path is within itself.
pub proof fn within_itself(path: Seq<char>)
    ensures
        is_within(path, path),
{
    assert(names(path).take(names(path).len() as int) =~= names(path));
}

/// Every path is within the empty one.
pub proof fn within_the_empty_path(path: Seq<char>)
    ensures
        is_within(path, Seq::empty()),
{
    let none = Seq::<char>::empty();
    assert(pieces(none) =~= seq![Seq::empty()]);
    assert(kept(pieces(none), 0) =~= Seq::empty());
    assert(names(none) =~= kept(pieces(none), 0));
    assert(names(path).take(0) =~= Seq::empty());
}

/// What is within a directory is within every directory above it.
pub proof fn within_is_transitive(a: Seq<char>, b: Seq<char>, c: Seq<char>)
    requires
        is_within(a, b),
        is_within(b, c),
    ensures
        is_within(a, c),
{
    let n = names(c).len() as int;
    assert(names(a).take(n) =~= names(a).take(names(b).len() as int).take(n));
}

/// A name under a directory ends in the name, after the directory and one
/// slash; an absolute name stands for itself.
pub proof fn a_name_is_under_its_directory(dir: Seq<char>, name: Seq<char>)
    requires
        name.len() > 0,
    ensures
        name[0] == '/' ==> under(dir, name) == name,
        name[0] != '/' ==> {
            &&& under(dir, name).len() >= name.len()
            &&& under(dir, name).skip(under(dir, name).len() - name.len()) == name
            &&& under(dir, name).take(dir.len() as int) == dir
            &&& dir.len() > 0 ==> under(dir, name)[under(dir, name).len() - name.len() - 1] == '/'
            &&& under(dir, name).len() <= dir.len() + name.len() + 1
        },
{
    reveal_strlit("/");
    let whole = under(dir, name);
    if name[0] != '/' {
        assert(whole.skip(whole.len() - name.len()) =~= name);
        assert(whole.take(dir.len() as int) =~= dir);
    }
}

/// A path within a base has all components of the base first, and goes on.
pub proof fn within_starts_with_the_base(path: Seq<char>, base: Seq<char>)
    requires
        is_within(path, base),
    ensures
        names(path).len() >= names(base).len(),
        forall|i: int| 0 <= i < names(base).len() ==> #[trigger] names(path)[i] == names(base)[i],
        names(base).len() > 0 ==> is_absolute(path) == is_absolute(base),
{
    assert forall|i: int| 0 <= i < names(base).len() implies #[trigger] names(path)[i] == names(
        base,
    )[i] by {
        assert(names(path).take(names(base).len() as int)[i] == names(path)[i]);
    }
}

} // verus!
