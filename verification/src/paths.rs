//! File-system paths held as text, joined the way `std::path::Path::join`
//! joins them on Unix: an absolute part (one that starts with `/`) replaces
//! the base; otherwise the part is appended, with a `/` between the two unless
//! the base is empty or already ends with `/`.

use vstd::prelude::*;

verus! {

/// Whether a path starts at the root.
pub open spec fn is_absolute(p: Seq<char>) -> bool {
    p.len() > 0 && p[0] == '/'
}

/// `base` joined with `part`.
pub open spec fn path_join(base: Seq<char>, part: Seq<char>) -> Seq<char> {
    if is_absolute(part) {
        part
    } else if base.len() == 0 || base.last() == '/' {
        base + part
    } else {
        base + seq!['/'] + part
    }
}

/// Joins `part` onto `base`.
pub fn join_path(base: &str, part: &str) -> (res: String)
    ensures
        res@ == path_join(base@, part@),
{
    if part.unicode_len() > 0 && part.get_char(0) == '/' {
        return part.to_owned();
    }
    let mut res = base.to_owned();
    let base_len = base.unicode_len();
    if base_len > 0 && base.get_char(base_len - 1) != '/' {
        proof {
            reveal_strlit("/");
            assert("/"@ =~= seq!['/']);
        }
        res.append("/");
    }
    res.append(part);
    res
}

/// A joined path ends with the part that was joined on.
pub proof fn lemma_join_ends_with_part(base: Seq<char>, part: Seq<char>)
    ensures
        path_join(base, part).len() >= part.len(),
        path_join(base, part).subrange(
            path_join(base, part).len() - part.len(),
            path_join(base, part).len() as int,
        ) =~= part,
{
}

/// Joining a relative part keeps the base as a prefix; joining an absolute part replaces it.
pub proof fn lemma_join_keeps_base_unless_absolute(base: Seq<char>, part: Seq<char>)
    ensures
        is_absolute(part) ==> path_join(base, part) == part,
        !is_absolute(part) ==> path_join(base, part).subrange(0, base.len() as int) =~= base,
{
}

/// Joining a non-empty part gives a non-empty path.
pub proof fn lemma_join_nonempty(base: Seq<char>, part: Seq<char>)
    requires
        part.len() > 0,
    ensures
        path_join(base, part).len() > 0,
{
}

/// Joining a relative part onto a non-empty base that does not end in `/` puts
/// exactly one `/` between them; onto an empty base or one ending in `/`, none.
pub proof fn lemma_join_separator(base: Seq<char>, part: Seq<char>)
    requires
        !is_absolute(part),
    ensures
        base.len() > 0 && base.last() != '/' ==> path_join(base, part) =~= base + seq!['/'] + part,
        base.len() == 0 || base.last() == '/' ==> path_join(base, part) =~= base + part,
        path_join(base, part).len() == base.len() + part.len() + (if base.len() > 0 && base.last()
            != '/' {
            1int
        } else {
            0int
        }),
{
}

} // verus!
