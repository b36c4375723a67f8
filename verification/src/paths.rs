//! Paths as text, with `/` between their components.

use vstd::prelude::*;
use vstd::std_specs::iter::IteratorSpec;

verus! {

/// What follows the last `/` of `path`: all of it where it holds none, and
/// nothing where it ends in one.
pub open spec fn final_component(path: Seq<char>) -> Seq<char>
    decreases path.len(),
{
    if path.len() == 0 || path.last() == '/' {
        Seq::empty()
    } else {
        final_component(path.drop_last()).push(path.last())
    }
}

/// A component that can name a file: not empty, not `.` and not `..`.
pub open spec fn names_a_file(component: Seq<char>) -> bool {
    &&& component.len() > 0
    &&& component != seq!['.']
    &&& component != seq!['.', '.']
}

/// The name of the file that `path` leads to: its final component, where
/// that can name a file.
pub open spec fn file_name_of(path: Seq<char>) -> Option<Seq<char>> {
    if names_a_file(final_component(path)) {
        Some(final_component(path))
    } else {
        None
    }
}

/// `base` ends where a component can follow at once: it is empty or ends in
/// `/`.
pub open spec fn is_open_ended(base: Seq<char>) -> bool {
    base.len() == 0 || base.last() == '/'
}

/// `base` with `component` below it, a `/` between them where `base` does not
/// bring one.
pub open spec fn joined(base: Seq<char>, component: Seq<char>) -> Seq<char> {
    if is_open_ended(base) {
        base + component
    } else {
        base.push('/') + component
    }
}

/// The final component is the longest end of the path that holds no `/`.
pub proof fn lemma_final_component(path: Seq<char>)
    ensures
        final_component(path).len() <= path.len(),
        final_component(path) == path.subrange(
            path.len() - final_component(path).len(),
            path.len() as int,
        ),
        forall|i: int|
            0 <= i < final_component(path).len() ==> #[trigger] final_component(path)[i] != '/',
        final_component(path).len() < path.len() ==> path[path.len() - final_component(
            path,
        ).len() - 1] == '/',
    decreases path.len(),
{
    if path.len() == 0 || path.last() == '/' {
        assert(path.subrange(path.len() as int, path.len() as int) =~= Seq::<char>::empty());
    } else {
        let front = path.drop_last();
        lemma_final_component(front);
        let tail = final_component(front);
        assert(tail.push(path.last()) =~= path.subrange(
            path.len() - tail.len() - 1,
            path.len() as int,
        ));
    }
}

/// Below any directory, a component without `/` is the final component of
/// the path that leads to it.
pub proof fn lemma_final_component_of_joined(base: Seq<char>, component: Seq<char>)
    requires
        forall|i: int| 0 <= i < component.len() ==> component[i] != '/',
    ensures
        final_component(joined(base, component)) == component,
    decreases component.len(),
{
    let path = joined(base, component);
    if component.len() == 0 {
        if is_open_ended(base) {
            assert(path =~= base);
        }
    } else {
        let front = component.drop_last();
        lemma_final_component_of_joined(base, front);
        assert(path.drop_last() =~= joined(base, front));
        assert(path.last() == component.last());
        assert(front.push(component.last()) =~= component);
    }
}

/// The final component of `path`.
pub fn last_component(path: &str) -> (name: String)
    ensures
        name@ == final_component(path@),
{
    let mut name = String::new();
    for c in it: path.chars()
        invariant
            it.seq() == path@,
            name@ == final_component(path@.subrange(0, it.index() as int)),
    {
        if c == '/' {
            name = String::new();
        } else {
            name.push(c);
        }
        proof {
            let upto = path@.subrange(0, it.index() + 1);
            assert(upto.drop_last() =~= path@.subrange(0, it.index() as int));
            assert(upto.last() == c);
        }
    }
    proof {
        assert(path@.subrange(0, path@.len() as int) =~= path@);
    }
    name
}

/// The name of the file that `path` leads to, or `None` where the path ends
/// in `/`, `.` or `..`, or is empty.
pub fn file_name(path: &str) -> (name: Option<String>)
    ensures
        match name {
            Some(n) => file_name_of(path@) == Some(n@),
            None => file_name_of(path@) is None,
        },
{
    let name = last_component(path);
    let len = name.as_str().unicode_len();
    if len == 0 {
        return None;
    }
    let first_is_dot = name.as_str().get_char(0) == '.';
    if len == 1 && first_is_dot {
        assert(name@ =~= seq!['.']);
        return None;
    }
    if len == 2 && first_is_dot && name.as_str().get_char(1) == '.' {
        assert(name@ =~= seq!['.', '.']);
        return None;
    }
    proof {
        if name@ == seq!['.'] {
            assert(name@[0] == '.');
        }
        if name@ == seq!['.', '.'] {
            assert(name@[0] == '.' && name@[1] == '.');
        }
    }
    Some(name)
}

/// Tells whether `base` is empty or ends in `/`.
pub fn ends_open(base: &str) -> (open: bool)
    ensures
        open == is_open_ended(base@),
{
    let len = base.unicode_len();
    len == 0 || base.get_char(len - 1) == '/'
}

/// The path of `component` below `base`.
pub fn join(base: &str, component: &str) -> (path: String)
    ensures
        path@ == joined(base@, component@),
{
    let mut path = base.to_owned();
    if !ends_open(base) {
        path.push('/');
    }
    path.append(component);
    path
}

} // verus!
