//! Validation of the relative file names of a request, and joining them onto
//! the workspace root.

use vstd::prelude::*;

verus! {

/// The name is an absolute path: it starts at the root.
pub open spec fn is_absolute_name(name: Seq<char>) -> bool {
    name.len() > 0 && name[0] == '/'
}

/// A `..` component starts at index `i` of `name`: it is preceded by the
/// start or a separator, and followed by the end or a separator.
pub open spec fn parent_component_at(name: Seq<char>, i: int) -> bool {
    &&& 0 <= i
    &&& i + 2 <= name.len()
    &&& name[i] == '.'
    &&& name[i + 1] == '.'
    &&& (i == 0 || name[i - 1] == '/')
    &&& (i + 2 == name.len() || name[i + 2] == '/')
}

/// Some component of the name is the parent directory `..`.
pub open spec fn has_parent_component(name: Seq<char>) -> bool {
    exists|i: int| parent_component_at(name, i)
}

/// A file name is accepted when it is relative and never climbs out of the
/// directory it is joined onto. Symbolic links are not resolved.
pub open spec fn is_valid_name(name: Seq<char>) -> bool {
    !is_absolute_name(name) && !has_parent_component(name)
}

/// The path of relative `name` under `base`: a separator is put between
/// them unless `base` is empty or already ends with one.
pub open spec fn join_spec(base: Seq<char>, name: Seq<char>) -> Seq<char> {
    if base.len() == 0 || base.last() == '/' {
        base + name
    } else {
        base + seq!['/'] + name
    }
}

/// The message of the error for a rejected file name.
pub open spec fn invalid_name_message() -> Seq<char> {
    "invalid file name: must be a relative path without '..'"@
}

/// Decides whether `name` is acceptable as a workspace-relative file name.
pub fn is_valid_file_name(name: &str) -> (r: bool)
    ensures
        r == is_valid_name(name@),
{
    let n = name.unicode_len();
    if n > 0 && name.get_char(0) == '/' {
        return false;
    }
    // `seg` is where the current component starts.
    let mut seg: usize = 0;
    let mut i: usize = 0;
    while i < n
        invariant
            n == name@.len(),
            seg <= i <= n,
            seg == 0 || name@[seg - 1] == '/',
            forall|k: int| seg <= k < i ==> name@[k] != '/',
            forall|j: int| 0 <= j < seg ==> !#[trigger] parent_component_at(name@, j),
        decreases n - i,
    {
        if name.get_char(i) == '/' {
            if i - seg == 2 && name.get_char(seg) == '.' && name.get_char(seg + 1) == '.' {
                assert(parent_component_at(name@, seg as int));
                return false;
            }
            assert forall|j: int| 0 <= j < i + 1 implies !#[trigger] parent_component_at(
                name@,
                j,
            ) by {
                if seg <= j && j <= i && parent_component_at(name@, j) {
                    if j > seg {
                        assert(name@[j - 1] != '/');
                    }
                    if j + 2 < i {
                        assert(name@[j + 2] != '/');
                    }
                }
            }
            seg = i + 1;
        }
        i = i + 1;
    }
    if n - seg == 2 && name.get_char(seg) == '.' && name.get_char(seg + 1) == '.' {
        assert(parent_component_at(name@, seg as int));
        return false;
    }
    assert forall|j: int| 0 <= j implies !#[trigger] parent_component_at(name@, j) by {
        if seg <= j && parent_component_at(name@, j) {
            if j > seg {
                assert(name@[j - 1] != '/');
            }
            if j + 2 < n {
                assert(name@[j + 2] != '/');
            }
        }
    }
    true
}

/// Joins a relative `name` onto `base` as a path.
pub fn join_path(base: &str, name: &str) -> (r: String)
    ensures
        r@ == join_spec(base@, name@),
{
    let n = base.unicode_len();
    let mut out = String::from_str(base);
    if n > 0 && base.get_char(n - 1) != '/' {
        out.append("/");
        proof {
            reveal_strlit("/");
            assert("/"@ =~= seq!['/']);
        }
    }
    out.append(name);
    out
}

/// Checks `name` and joins it onto the workspace root `base`; an absolute
/// name, or one with a `..` component, is refused.
pub fn sanitize_and_join(base: &str, name: &str) -> (r: Result<String, String>)
    ensures
        is_valid_name(name@) <==> r is Ok,
        r matches Ok(p) ==> p@ == join_spec(base@, name@),
        r matches Err(m) ==> m@ == invalid_name_message(),
{
    if !is_valid_file_name(name) {
        return Err(String::from_str("invalid file name: must be a relative path without '..'"));
    }
    Ok(join_path(base, name))
}

} // verus!
