use vstd::prelude::*;

verus! {

/// A path with `child` joined to it, as `PathBuf::push` joins on Unix: an
/// absolute child replaces the path; otherwise a `/` separates the two unless
/// the path is empty or already ends with one.
pub open spec fn path_join(base: Seq<char>, child: Seq<char>) -> Seq<char> {
    if child.len() > 0 && child[0] == '/' {
        child
    } else if base.len() == 0 || base.last() == '/' {
        base + child
    } else {
        base + seq!['/'] + child
    }
}

/// Joins `child` to the path `base`.
pub fn join_path(base: &str, child: &str) -> (r: String)
    ensures
        r@ == path_join(base@, child@),
{
    let child_len = child.unicode_len();
    let base_len = base.unicode_len();
    if child_len > 0 && child.get_char(0) == '/' {
        let mut r = String::new();
        r.append(child);
        assert(r@ =~= child@);
        r
    } else if base_len == 0 || base.get_char(base_len - 1) == '/' {
        let mut r = String::new();
        r.append(base);
        r.append(child);
        assert(r@ =~= base@ + child@);
        r
    } else {
        let mut r = String::new();
        r.append(base);
        r.append("/");
        r.append(child);
        proof {
            reveal_strlit("/");
            assert(r@ =~= base@ + seq!['/'] + child@);
        }
        r
    }
}

/// The part of `path` below `base`: what `path_join` joined to `base` to
/// give `path`, when `path` is such a join of a child that does not start
/// with `/`; nothing otherwise.
pub open spec fn relative_part(base: Seq<char>, path: Seq<char>) -> Option<Seq<char>> {
    let start = if base.len() == 0 || base.last() == '/' { base.len() as int } else { base.len() + 1int };
    if start <= path.len() && path.subrange(0, base.len() as int) == base && (start == base.len() || path[base.len() as int]
        == '/') && !(start < path.len() && path[start] == '/') {
        Some(path.subrange(start, path.len() as int))
    } else {
        None
    }
}

/// Joining a child that does not start with `/` to a path, then taking the
/// part below that path, gives the child back.
pub proof fn law_relative_part_of_join(base: Seq<char>, child: Seq<char>)
    requires
        !(child.len() > 0 && child[0] == '/'),
    ensures
        relative_part(base, path_join(base, child)) == Some(child),
{
    let p = path_join(base, child);
    if base.len() == 0 || base.last() == '/' {
        assert(p == base + child);
        assert(p.subrange(0, base.len() as int) =~= base);
        assert(p.subrange(base.len() as int, p.len() as int) =~= child);
        if base.len() < p.len() {
            assert(p[base.len() as int] == child[0]);
        }
    } else {
        assert(p == base + seq!['/'] + child);
        assert(p.subrange(0, base.len() as int) =~= base);
        assert(p[base.len() as int] == '/');
        assert(p.subrange(base.len() + 1int, p.len() as int) =~= child);
        if base.len() + 1 < p.len() {
            assert(p[base.len() + 1int] == child[0]);
        }
    }
}

/// The part of `path` below `base`, if `path` lies below it.
pub fn relative_path(base: &str, path: &str) -> (r: Option<String>)
    ensures
        match r {
            Some(s) => relative_part(base@, path@) == Some(s@),
            None => relative_part(base@, path@) is None,
        },
{
    let base_len = base.unicode_len();
    let path_len = path.unicode_len();
    let separated = !(base_len == 0 || base.get_char(base_len - 1) == '/');
    if base_len > path_len || (separated && base_len == path_len) {
        return None;
    }
    let start = if separated { base_len + 1 } else { base_len };
    let mut i: usize = 0;
    while i < base_len
        invariant
            base_len == base@.len(),
            path_len == path@.len(),
            base_len <= start <= path_len,
            0 <= i <= base_len,
            forall|j: int| 0 <= j < i ==> path@[j] == base@[j],
        decreases base_len - i,
    {
        if path.get_char(i) != base.get_char(i) {
            assert(path@.subrange(0, base_len as int)[i as int] != base@[i as int]);
            return None;
        }
        i = i + 1;
    }
    assert(path@.subrange(0, base_len as int) =~= base@);
    if start > base_len && path.get_char(base_len) != '/' {
        return None;
    }
    if start < path_len && path.get_char(start) == '/' {
        return None;
    }
    Some(path.substring_char(start, path_len).to_string())
}

} // verus!
