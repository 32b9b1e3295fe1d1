//! The registry of named environments: where its file lives, what stands for
//! a file that cannot be read, and the lookup of a path by name.

use vstd::prelude::*;
use vstd::string::*;

verus! {

/// The directory of the registry, relative to the user's home directory.
pub const REGISTER_DIR: &'static str = ".pixi/register";

/// The name of the registry file inside its directory.
pub const REGISTRY_FILE: &'static str = "environments.json";

/// What stands for a registry file that is absent or cannot be read: an
/// empty array.
pub const EMPTY_REGISTRY: &'static str = "[]";

/// Whether a separator has to stand between `base` and what is joined to it:
/// not after an empty base, and not after one that ends in a separator.
pub open spec fn needs_separator(base: Seq<char>) -> bool {
    base.len() > 0 && base.last() != '/'
}

/// `part` below `base`, with exactly one separator between them where `base`
/// is a directory's name.
pub open spec fn joined(base: Seq<char>, part: Seq<char>) -> Seq<char> {
    if needs_separator(base) {
        base + "/"@ + part
    } else {
        base + part
    }
}

/// The registry's directory for the home directory `home`.
pub open spec fn registry_dir_of(home: Seq<char>) -> Seq<char> {
    joined(home, REGISTER_DIR@)
}

/// The registry's file for the home directory `home`.
pub open spec fn registry_path_of(home: Seq<char>) -> Seq<char> {
    joined(registry_dir_of(home), REGISTRY_FILE@)
}

/// The text that is parsed as the registry, given what reading the file gave.
pub open spec fn registry_text_of(contents: Option<String>) -> Seq<char> {
    match contents {
        Some(text) => text@,
        None => EMPTY_REGISTRY@,
    }
}

/// Joins `part` to `base` as a path component.
fn join(base: &str, part: &str) -> (path: String)
    ensures
        path@ == joined(base@, part@),
{
    let mut path = String::from_str(base);
    let n = base.unicode_len();
    if n > 0 && base.get_char(n - 1) != '/' {
        path.append("/");
    }
    path.append(part);
    path
}

/// The directory that holds the registry, below the home directory `home`.
/// The caller creates it, with its parents, where it is missing.
pub fn registry_dir(home: &str) -> (dir: String)
    ensures
        dir@ == registry_dir_of(home@),
{
    join(home, REGISTER_DIR)
}

/// The registry file, below the home directory `home`.
pub fn registry_path(home: &str) -> (file: String)
    ensures
        file@ == registry_path_of(home@),
{
    let dir = registry_dir(home);
    join(dir.as_str(), REGISTRY_FILE)
}

/// For a home directory that is named without a separator at its end, the
/// registry is `.pixi/register/environments.json` below it.
pub proof fn registry_path_below_home(home: Seq<char>)
    requires
        needs_separator(home),
    ensures
        registry_dir_of(home) == home + "/.pixi/register"@,
        registry_path_of(home) == home + "/.pixi/register/environments.json"@,
{
    reveal_strlit("/");
    reveal_strlit(".pixi/register");
    reveal_strlit("environments.json");
    reveal_strlit("/.pixi/register");
    reveal_strlit("/.pixi/register/environments.json");
    let dir = home + "/"@ + REGISTER_DIR@;
    assert(dir =~= home + "/.pixi/register"@);
    assert(dir.last() == 'r');
    assert(dir + "/"@ + REGISTRY_FILE@ =~= home + "/.pixi/register/environments.json"@);
}

/// The text to parse as the registry: the file's contents where it could be
/// read, and an empty array where it is absent or unreadable.
pub fn registry_text(contents: Option<String>) -> (text: String)
    ensures
        text@ == registry_text_of(contents),
{
    match contents {
        Some(text) => text,
        None => String::from_str(EMPTY_REGISTRY),
    }
}

/// An absent registry file is read as an explicitly empty array.
pub proof fn absent_registry_is_empty_array()
    ensures
        registry_text_of(None) == "[]"@,
        registry_text_of(None).len() == 2,
        registry_text_of(None)[0] == '[',
        registry_text_of(None)[1] == ']',
{
    reveal_strlit("[]");
}

/// One entry of the registry: a name and the location it stands for.
#[derive(Debug, Clone, PartialEq, Eq)]
pub struct RegisteredEnvironment {
    pub name: String,
    pub path: String,
}

/// Whether some entry of `records` is called `name`, letter for letter.
pub open spec fn appears(records: Seq<RegisteredEnvironment>, name: Seq<char>) -> bool {
    exists|i: int| 0 <= i < records.len() && #[trigger] records[i].name@ == name
}

/// Whether entry `i` of `records` is called `name` and no earlier entry is.
pub open spec fn is_first_match(
    records: Seq<RegisteredEnvironment>,
    name: Seq<char>,
    i: int,
) -> bool {
    &&& 0 <= i < records.len()
    &&& records[i].name@ == name
    &&& forall|j: int| 0 <= j < i ==> #[trigger] records[j].name@ != name
}

/// The path stored under `name`: that of the first entry with this name, if
/// there is one.
pub open spec fn stored_path(records: Seq<RegisteredEnvironment>, name: Seq<char>) -> Option<
    Seq<char>,
> {
    if appears(records, name) {
        Some(records[choose|i: int| is_first_match(records, name, i)].path@)
    } else {
        None
    }
}

/// The view of an optional string.
pub open spec fn text_of(s: Option<String>) -> Option<Seq<char>> {
    match s {
        Some(t) => Some(t@),
        None => None,
    }
}

/// At most one entry is the first match of a name.
pub proof fn first_match_is_unique(
    records: Seq<RegisteredEnvironment>,
    name: Seq<char>,
    i: int,
    k: int,
)
    requires
        is_first_match(records, name, i),
        is_first_match(records, name, k),
    ensures
        i == k,
{
    if i < k {
        assert(records[i].name@ == name);
    } else if k < i {
        assert(records[k].name@ == name);
    }
}

/// A name that appears has a first match.
pub proof fn appearing_name_has_first_match(
    records: Seq<RegisteredEnvironment>,
    name: Seq<char>,
    i: int,
) -> (first: int)
    requires
        0 <= i < records.len(),
        records[i].name@ == name,
    ensures
        is_first_match(records, name, first),
        first <= i,
    decreases i,
{
    if exists|j: int| 0 <= j < i && #[trigger] records[j].name@ == name {
        let j = choose|j: int| 0 <= j < i && #[trigger] records[j].name@ == name;
        appearing_name_has_first_match(records, name, j)
    } else {
        i
    }
}

/// Lookup by name: if `name` appears in `records`, the stored path is that of
/// the first entry called `name`; if it does not appear, there is none.
pub proof fn lookup_returns_first_match(
    records: Seq<RegisteredEnvironment>,
    name: Seq<char>,
)
    ensures
        forall|i: int|
            is_first_match(records, name, i) ==> stored_path(records, name) == Some(
                records[i].path@,
            ),
        appears(records, name) <==> stored_path(records, name) is Some,
        appears(records, name) <==> exists|i: int| is_first_match(records, name, i),
{
    assert forall|i: int| is_first_match(records, name, i) implies stored_path(records, name)
        == Some(records[i].path@) by {
        assert(records[i].name@ == name);
        let k = choose|k: int| is_first_match(records, name, k);
        first_match_is_unique(records, name, i, k);
    }
    if appears(records, name) {
        let i = choose|i: int| 0 <= i < records.len() && #[trigger] records[i].name@ == name;
        let first = appearing_name_has_first_match(records, name, i);
        assert(is_first_match(records, name, first));
    }
    if exists|i: int| is_first_match(records, name, i) {
        let i = choose|i: int| is_first_match(records, name, i);
        assert(records[i].name@ == name);
    }
}

/// Finds the path registered under `name`: the `path` of the first entry whose
/// `name` equals it exactly. A name that no entry has gives `None`.
pub fn find_path_by_name(records: &Vec<RegisteredEnvironment>, name: &str) -> (found: Option<
    String,
>)
    ensures
        text_of(found) == stored_path(records@, name@),
        found is Some <==> appears(records@, name@),
        forall|i: int|
            is_first_match(records@, name@, i) ==> text_of(found) == Some(records@[i].path@),
{
    proof {
        lookup_returns_first_match(records@, name@);
    }
    let wanted = name.to_owned();
    let mut i: usize = 0;
    while i < records.len()
        invariant
            i <= records.len(),
            wanted@ == name@,
            forall|j: int| 0 <= j < i ==> #[trigger] records@[j].name@ != name@,
        decreases records.len() - i,
    {
        if records[i].name == wanted {
            assert(is_first_match(records@, name@, i as int));
            return Some(records[i].path.clone());
        }
        i += 1;
    }
    None
}

} // verus!
