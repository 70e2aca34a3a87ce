use vstd::prelude::*;
use vstd::string::*;

verus! {

/// Extension of the artifacts that the symmetric envelope produces.
pub const VAULT_EXTENSION: &'static str = "vault";

/// Extension of the artifacts that the public-key envelope produces.
pub const PGP_EXTENSION: &'static str = "pgp";

/// Position of the last `.` among the first `n` characters of `s`.
pub open spec fn last_dot_before(s: Seq<char>, n: int) -> Option<int>
    decreases n,
{
    if n <= 0 {
        None
    } else if s[n - 1] == '.' {
        Some(n - 1)
    } else {
        last_dot_before(s, n - 1)
    }
}

/// Position of the dot that separates a file name's stem from its extension: the last dot,
/// unless it opens the name or the name is `..`.
pub open spec fn extension_dot(name: Seq<char>) -> Option<int> {
    if name == seq!['.', '.'] {
        None
    } else {
        match last_dot_before(name, name.len() as int) {
            Some(i) => if i == 0 { None } else { Some(i) },
            None => None,
        }
    }
}

/// A file name's extension: what follows its extension dot.
pub open spec fn extension_of(name: Seq<char>) -> Option<Seq<char>> {
    match extension_dot(name) {
        Some(i) => Some(name.subrange(i + 1, name.len() as int)),
        None => None,
    }
}

/// A file name's stem: what precedes its extension dot, or the whole name.
pub open spec fn stem_of(name: Seq<char>) -> Seq<char> {
    match extension_dot(name) {
        Some(i) => name.subrange(0, i),
        None => name,
    }
}

pub proof fn lemma_last_dot_bounds(s: Seq<char>, n: int)
    requires
        n <= s.len(),
    ensures
        last_dot_before(s, n) matches Some(i) ==> 0 <= i < n && s[i] == '.',
        last_dot_before(s, n) is None ==> forall|j: int| 0 <= j < n ==> s[j] != '.',
    decreases n,
{
    if n > 0 {
        lemma_last_dot_bounds(s, n - 1);
    }
}

/// Position of the extension dot of `name`, if it has one.
fn find_extension_dot(name: &str) -> (r: Option<usize>)
    ensures
        r matches Some(i) ==> extension_dot(name@) == Some(i as int),
        r is None ==> extension_dot(name@) is None,
        r matches Some(i) ==> 0 < i < name@.len(),
{
    let len = name.unicode_len();
    if len == 2 && name.get_char(0) == '.' && name.get_char(1) == '.' {
        assert(name@ =~= seq!['.', '.']);
        return None;
    }
    assert(name@ != seq!['.', '.']);
    let mut n: usize = len;
    while n > 0
        invariant
            n <= len,
            len == name@.len(),
            name@ != seq!['.', '.'],
            last_dot_before(name@, len as int) == last_dot_before(name@, n as int),
        decreases n,
    {
        if name.get_char(n - 1) == '.' {
            assert(last_dot_before(name@, n as int) == Some(n - 1));
            if n - 1 == 0 {
                return None;
            }
            return Some(n - 1);
        }
        n -= 1;
    }
    None
}

/// Whether `a` and `b` hold the same characters.
fn same_text(a: &str, b: &str) -> (r: bool)
    ensures
        r == (a@ == b@),
{
    let n = a.unicode_len();
    if n != b.unicode_len() {
        return false;
    }
    let mut i: usize = 0;
    while i < n
        invariant
            i <= n,
            n == a@.len(),
            n == b@.len(),
            a@.subrange(0, i as int) == b@.subrange(0, i as int),
        decreases n - i,
    {
        if a.get_char(i) != b.get_char(i) {
            return false;
        }
        assert(a@.subrange(0, i + 1) =~= a@.subrange(0, i as int).push(a@[i as int]));
        assert(b@.subrange(0, i + 1) =~= b@.subrange(0, i as int).push(b@[i as int]));
        i += 1;
    }
    assert(a@ =~= a@.subrange(0, n as int));
    assert(b@ =~= b@.subrange(0, n as int));
    true
}

/// The extension of the file name `name`, if it has one.
pub fn extension(name: &str) -> (r: Option<&str>)
    ensures
        match r {
            Some(e) => extension_of(name@) == Some(e@),
            None => extension_of(name@) is None,
        },
{
    match find_extension_dot(name) {
        Some(i) => {
            let len = name.unicode_len();
            Some(name.substring_char(i + 1, len))
        },
        None => None,
    }
}

/// The stem of the file name `name`.
pub fn file_stem(name: &str) -> (r: &str)
    ensures
        r@ == stem_of(name@),
{
    match find_extension_dot(name) {
        Some(i) => name.substring_char(0, i),
        None => name,
    }
}

/// Whether the file name `name` has the extension `ext`.
pub fn has_extension(name: &str, ext: &str) -> (r: bool)
    ensures
        r == (extension_of(name@) == Some(ext@)),
{
    match extension(name) {
        Some(e) => same_text(e, ext),
        None => false,
    }
}

/// Name of the symmetric artifact made from the file `file_name`: its stem with `.vault`.
pub fn vault_artifact_name(file_name: &str) -> (r: String)
    ensures
        r@ == stem_of(file_name@) + "."@ + VAULT_EXTENSION@,
{
    let stem = String::from_str(file_stem(file_name));
    let with_dot = stem.concat(".");
    with_dot.concat(VAULT_EXTENSION)
}

/// Name of the public-key artifact made from the file `file_name`: the whole name with `.pgp`.
pub fn pgp_artifact_name(file_name: &str) -> (r: String)
    ensures
        r@ == file_name@ + "."@ + PGP_EXTENSION@,
{
    let name = String::from_str(file_name);
    let with_dot = name.concat(".");
    with_dot.concat(PGP_EXTENSION)
}

} // verus!
