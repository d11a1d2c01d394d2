//! Path-name logic for the managed redirection directory.
//!
//! A path is modelled as its sequence of characters. The final component is
//! the maximal separator-free suffix once trailing separators are stripped;
//! the guard only ever acts on a path whose final component equals the fixed
//! expected directory name, and the backup sibling lives in the same
//! enclosing directory under that name plus a fixed suffix.

use vstd::prelude::*;
use vstd::string::StrSliceExecFns;
use vstd::string::StringExecFns;

verus! {

/// Separators recognised in a path: the Unix one and the Windows one, since
/// the managed directory may be given with either.
pub open spec fn is_sep(c: char) -> bool {
    c == '/' || c == '\\'
}

/// The fixed name the managed redirection directory must carry.
pub open spec fn expected_dir_name() -> Seq<char> {
    "hyperbolic-magnetism-beat-saber"@
}

/// The suffix (with its leading dot) that marks the sibling backup directory.
pub open spec fn backup_suffix() -> Seq<char> {
    ".bsmbak"@
}

/// Name of the sibling backup directory: the expected name plus the suffix.
pub open spec fn backup_dir_name() -> Seq<char> {
    expected_dir_name() + backup_suffix()
}

/// `p` with every trailing separator removed.
pub open spec fn strip_trailing_seps(p: Seq<char>) -> Seq<char>
    decreases p.len(),
{
    if p.len() > 0 && is_sep(p[p.len() - 1]) {
        strip_trailing_seps(p.drop_last())
    } else {
        p
    }
}

/// The maximal suffix of `p` that contains no separator.
pub open spec fn tail_component(p: Seq<char>) -> Seq<char>
    decreases p.len(),
{
    if p.len() == 0 {
        Seq::empty()
    } else if is_sep(p[p.len() - 1]) {
        Seq::empty()
    } else {
        tail_component(p.drop_last()).push(p[p.len() - 1])
    }
}

/// The final component of a path: the maximal separator-free suffix once
/// trailing separators are stripped. Empty when the path has no final
/// component at all (a bare root, an empty path).
pub open spec fn final_component(p: Seq<char>) -> Seq<char> {
    tail_component(strip_trailing_seps(p))
}

/// Whether a path names the managed redirection directory: its final
/// component equals the expected fixed name.
pub open spec fn path_names_expected(p: Seq<char>) -> bool {
    final_component(p) == expected_dir_name()
}

/// Everything before the final component, trailing separators stripped: the
/// enclosing directory together with the separator that follows it.
pub open spec fn slot_prefix(p: Seq<char>) -> Seq<char> {
    let q = strip_trailing_seps(p);
    q.take(q.len() - tail_component(q).len())
}

/// Path of the sibling backup directory: the final component's slot occupied
/// by the backup name.
pub open spec fn backup_path_of(p: Seq<char>) -> Seq<char> {
    slot_prefix(p) + backup_dir_name()
}

/// Path of the slot the managed directory occupies: the prefix plus the
/// expected name. This is where a restored backup is renamed to.
pub open spec fn slot_path_of(p: Seq<char>) -> Seq<char> {
    slot_prefix(p) + expected_dir_name()
}

/// The tail component is a suffix of the path it was taken from.
proof fn lemma_tail_component_is_suffix(p: Seq<char>)
    ensures
        tail_component(p).len() <= p.len(),
        tail_component(p) == p.subrange(p.len() - tail_component(p).len(), p.len() as int),
    decreases p.len(),
{
    if p.len() == 0 || is_sep(p[p.len() - 1]) {
        assert(tail_component(p) =~= p.subrange(p.len() as int, p.len() as int));
    } else {
        lemma_tail_component_is_suffix(p.drop_last());
        assert(tail_component(p) =~= p.subrange(p.len() - tail_component(p).len(), p.len() as int));
    }
}

/// Characterisation of the tail component by its start index: if nothing at
/// or after `s` is a separator and `s` sits at the start or right after a
/// separator, the tail component is exactly the suffix from `s`.
proof fn lemma_tail_component_from(p: Seq<char>, s: int)
    requires
        0 <= s <= p.len(),
        forall|i: int| s <= i < p.len() ==> !is_sep(p[i]),
        s == 0 || is_sep(p[s - 1]),
    ensures
        tail_component(p) == p.subrange(s, p.len() as int),
    decreases p.len(),
{
    if p.len() == 0 {
        assert(tail_component(p) =~= p.subrange(0, 0));
    } else if s == p.len() {
        assert(is_sep(p[p.len() - 1]));
        assert(tail_component(p) =~= p.subrange(s, p.len() as int));
    } else {
        assert(!is_sep(p[p.len() - 1]));
        lemma_tail_component_from(p.drop_last(), s);
        assert(tail_component(p) =~= p.subrange(s, p.len() as int));
    }
}

/// A path that names the expected directory decomposes into its slot prefix
/// followed by the expected name: the restore target is exactly the path the
/// torn-down link occupied (trailing separators stripped).
pub proof fn lemma_slot_path_matches_target(p: Seq<char>)
    requires
        path_names_expected(p),
    ensures
        slot_path_of(p) == strip_trailing_seps(p),
{
    let q = strip_trailing_seps(p);
    lemma_tail_component_is_suffix(q);
    assert(slot_path_of(p) =~= q);
}

/// Locates the final component inside `path`: returns `(s, e)` where the
/// stripped path is `path[..e]`, the final component is `path[s..e]`, and the
/// slot prefix is `path[..s]`.
fn component_bounds(path: &str) -> (r: (usize, usize))
    ensures
        r.0 <= r.1 <= path@.len(),
        strip_trailing_seps(path@) == path@.take(r.1 as int),
        final_component(path@) == path@.subrange(r.0 as int, r.1 as int),
        slot_prefix(path@) == path@.take(r.0 as int),
{
    let n = path.unicode_len();
    proof {
        assert(path@.take(n as int) =~= path@);
    }
    let mut e: usize = n;
    while e > 0 && is_sep_exec(path.get_char(e - 1))
        invariant
            e <= n,
            n == path@.len(),
            strip_trailing_seps(path@) == strip_trailing_seps(path@.take(e as int)),
        decreases e,
    {
        proof {
            assert(path@.take(e as int).drop_last() =~= path@.take(e - 1));
        }
        e = e - 1;
    }
    proof {
        if e > 0 {
            assert(path@.take(e as int)[e - 1] == path@[e - 1]);
        }
        assert(strip_trailing_seps(path@.take(e as int)) == path@.take(e as int));
    }
    let mut s: usize = e;
    while s > 0 && !is_sep_exec(path.get_char(s - 1))
        invariant
            s <= e <= n,
            n == path@.len(),
            forall|i: int| s <= i < e ==> !is_sep(path@[i]),
        decreases s,
    {
        s = s - 1;
    }
    proof {
        let q = path@.take(e as int);
        assert(forall|i: int| s <= i < e ==> q[i] == path@[i]);
        lemma_tail_component_from(q, s as int);
        assert(q.subrange(s as int, e as int) =~= path@.subrange(s as int, e as int));
        assert(q.take(q.len() - tail_component(q).len()) =~= path@.take(s as int));
    }
    (s, e)
}

/// Executable test for a separator character.
fn is_sep_exec(c: char) -> (r: bool)
    ensures
        r == is_sep(c),
{
    c == '/' || c == '\\'
}

/// Whether `path`'s final component equals the expected directory name: the
/// validation the guard performs before any polling begins.
pub fn validate_target_path(path: &str) -> (r: bool)
    ensures
        r == path_names_expected(path@),
{
    let (s, e) = component_bounds(path);
    let name = "hyperbolic-magnetism-beat-saber";
    let name_len = name.unicode_len();
    if e - s != name_len {
        proof {
            assert(final_component(path@).len() != expected_dir_name().len());
        }
        return false;
    }
    let mut i: usize = 0;
    while i < name_len
        invariant
            i <= name_len,
            name_len == name@.len(),
            name@ == expected_dir_name(),
            s + name_len == e <= path@.len(),
            final_component(path@) == path@.subrange(s as int, e as int),
            forall|j: int| 0 <= j < i ==> path@[s + j] == name@[j],
        decreases name_len - i,
    {
        if path.get_char(s + i) != name.get_char(i) {
            proof {
                assert(final_component(path@)[i as int] != expected_dir_name()[i as int]);
            }
            return false;
        }
        i = i + 1;
    }
    proof {
        assert(path@.subrange(s as int, e as int) =~= name@);
    }
    true
}

/// Builds the path of the sibling backup directory: the slot prefix followed
/// by the expected name and the backup suffix.
pub fn backup_path_for(path: &str) -> (r: String)
    ensures
        r@ == backup_path_of(path@),
{
    let (s, _e) = component_bounds(path);
    let prefix = path.substring_char(0, s);
    let mut r = String::from_str(prefix);
    r.append("hyperbolic-magnetism-beat-saber");
    r.append(".bsmbak");
    proof {
        assert(r@ =~= backup_path_of(path@));
    }
    r
}

/// Builds the path of the slot the managed directory occupies: the slot
/// prefix followed by the expected name. A successful restore renames the
/// backup directory to this path.
pub fn slot_path_for(path: &str) -> (r: String)
    ensures
        r@ == slot_path_of(path@),
{
    let (s, _e) = component_bounds(path);
    let prefix = path.substring_char(0, s);
    let mut r = String::from_str(prefix);
    r.append("hyperbolic-magnetism-beat-saber");
    proof {
        assert(r@ =~= slot_path_of(path@));
    }
    r
}

} // verus!
