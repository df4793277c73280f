use vstd::prelude::*;
use vstd::string::StrSliceExecFns;
use crate::text::chars_of;

verus! {

/// What follows the last `::` in `path`; all of `path` when it holds none.
pub open spec fn spec_last_segment(path: Seq<char>) -> Seq<char>
    decreases path.len(),
{
    if path.len() < 2 {
        path
    } else if path[path.len() - 2] == ':' && path[path.len() - 1] == ':' {
        Seq::empty()
    } else {
        spec_last_segment(path.drop_last()).push(path.last())
    }
}

/// The last segment of a `::`-separated path.
pub fn last_path_segment<'a>(path: &'a str) -> (segment: &'a str)
    ensures
        segment@ == spec_last_segment(path@),
{
    let chars = chars_of(path);
    let len = chars.len();
    let mut start: usize = len;
    assert(chars@.take(len as int) == chars@);
    assert(chars@.subrange(len as int, len as int) =~= Seq::<char>::empty());
    while start >= 2 && !(chars[start - 2] == ':' && chars[start - 1] == ':')
        invariant
            start <= len == chars@.len(),
            chars@ == path@,
            spec_last_segment(chars@) == spec_last_segment(chars@.take(start as int)) + chars@.subrange(
                start as int,
                len as int,
            ),
        decreases start,
    {
        let ghost prefix = chars@.take(start as int);
        assert(prefix.drop_last() == chars@.take(start - 1));
        assert(chars@.subrange(start - 1, len as int) == seq![chars@[start - 1]] + chars@.subrange(
            start as int,
            len as int,
        ));
        assert(spec_last_segment(prefix) == spec_last_segment(prefix.drop_last()).push(prefix.last()));
        assert(spec_last_segment(prefix.drop_last()).push(prefix.last()) + chars@.subrange(
            start as int,
            len as int,
        ) =~= spec_last_segment(chars@.take(start - 1)) + chars@.subrange(start - 1, len as int));
        start -= 1;
    }
    if start < 2 {
        assert(chars@.take(start as int) + chars@.subrange(start as int, len as int) =~= chars@);
        return path;
    }
    assert(spec_last_segment(chars@.take(start as int)).len() == 0);
    assert(Seq::<char>::empty() + chars@.subrange(start as int, len as int) =~= chars@.subrange(
        start as int,
        len as int,
    ));
    path.substring_char(start, len)
}

} // verus!
