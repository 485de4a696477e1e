//! The path model shared by the sanitizers: splitting into components,
//! resolving `.` and `..`, and joining the result.

use vstd::prelude::*;

verus! {

/// Both `/` and `\` separate path components.
pub open spec fn is_sep(c: char) -> bool {
    c == '/' || c == '\\'
}

/// The components of a path, split at every separator; empty components are kept.
pub open spec fn split_path(s: Seq<char>) -> Seq<Seq<char>>
    decreases s.len(),
{
    if s.len() == 0 {
        seq![Seq::<char>::empty()]
    } else if is_sep(s.last()) {
        split_path(s.drop_last()).push(Seq::<char>::empty())
    } else {
        let p = split_path(s.drop_last());
        p.update(p.len() - 1, p.last().push(s.last()))
    }
}

/// The views of a vector of character vectors.
pub open spec fn views(v: Seq<Vec<char>>) -> Seq<Seq<char>> {
    v.map_values(|x: Vec<char>| x@)
}

/// The component `.`.
pub open spec fn dot() -> Seq<char> {
    seq!['.']
}

/// The component `..`.
pub open spec fn dot_dot() -> Seq<char> {
    seq!['.', '.']
}

/// One resolution step: empty and `.` components vanish, `..` removes the last
/// kept component (escaping when there is none), anything else is kept.
pub open spec fn resolve_step(acc: Option<Seq<Seq<char>>>, c: Seq<char>) -> Option<Seq<Seq<char>>> {
    match acc {
        None => None,
        Some(st) => if c.len() == 0 || c == dot() {
            Some(st)
        } else if c == dot_dot() {
            if st.len() == 0 {
                None
            } else {
                Some(st.drop_last())
            }
        } else {
            Some(st.push(c))
        },
    }
}

/// Resolves `.` and `..` over components from left to right; `None` when a `..`
/// would climb above the start.
pub open spec fn resolve(comps: Seq<Seq<char>>) -> Option<Seq<Seq<char>>>
    decreases comps.len(),
{
    if comps.len() == 0 {
        Some(Seq::empty())
    } else {
        resolve_step(resolve(comps.drop_last()), comps.last())
    }
}

/// The components joined with `/`.
pub open spec fn join(st: Seq<Seq<char>>) -> Seq<char>
    decreases st.len(),
{
    if st.len() == 0 {
        Seq::empty()
    } else if st.len() == 1 {
        st[0]
    } else {
        join(st.drop_last()) + seq!['/'] + st.last()
    }
}

/// Splits a path into its components at `/` and `\`.
pub fn split_components(s: &[char]) -> (comps: Vec<Vec<char>>)
    ensures
        views(comps@) == split_path(s@),
{
    let mut comps: Vec<Vec<char>> = Vec::new();
    let mut cur: Vec<char> = Vec::new();
    let mut i: usize = 0;
    assert(s@.subrange(0, 0) =~= Seq::<char>::empty());
    assert(views(comps@).push(cur@) =~= split_path(s@.subrange(0, 0)));
    while i < s.len()
        invariant
            0 <= i <= s@.len(),
            views(comps@).push(cur@) == split_path(s@.subrange(0, i as int)),
        decreases s@.len() - i,
    {
        let c = s[i];
        let ghost before = s@.subrange(0, i as int);
        assert(s@.subrange(0, i + 1).drop_last() =~= before);
        assert(s@.subrange(0, i + 1).last() == c);
        if c == '/' || c == '\\' {
            let done = cur;
            comps.push(done);
            cur = Vec::new();
            assert(views(comps@).push(cur@) =~= split_path(before).push(Seq::<char>::empty()));
        } else {
            let ghost p = split_path(before);
            cur.push(c);
            assert(views(comps@).push(cur@) =~= p.update(p.len() - 1, p.last().push(c)));
        }
        i = i + 1;
    }
    assert(s@.subrange(0, s@.len() as int) =~= s@);
    comps.push(cur);
    proof {
        assert(views(comps@) =~= split_path(s@));
    }
    comps
}

/// Resolves `.` and `..` over components; `None` when the path escapes its start.
pub fn resolve_components(comps: &Vec<Vec<char>>) -> (r: Option<Vec<Vec<char>>>)
    ensures
        match r {
            None => resolve(views(comps@)) is None,
            Some(st) => resolve(views(comps@)) == Some(views(st@)),
        },
{
    let mut stack: Vec<Vec<char>> = Vec::new();
    let mut escaped = false;
    let mut k: usize = 0;
    assert(views(comps@).subrange(0, 0) =~= Seq::<Seq<char>>::empty());
    assert(views(stack@) =~= Seq::<Seq<char>>::empty());
    while k < comps.len()
        invariant
            0 <= k <= comps@.len(),
            escaped ==> resolve(views(comps@).subrange(0, k as int)) is None,
            !escaped ==> resolve(views(comps@).subrange(0, k as int)) == Some(views(stack@)),
        decreases comps@.len() - k,
    {
        let ghost pre = views(comps@).subrange(0, k as int);
        assert(views(comps@).subrange(0, k + 1).drop_last() =~= pre);
        assert(views(comps@).subrange(0, k + 1).last() == comps@[k as int]@);
        let c = &comps[k];
        if !escaped {
            let is_dot = c.len() == 1 && c[0] == '.';
            let is_dot_dot = c.len() == 2 && c[0] == '.' && c[1] == '.';
            proof {
                if c@.len() == 1 && c@[0] == '.' {
                    assert(c@ =~= dot());
                }
                if c@.len() == 2 && c@[0] == '.' && c@[1] == '.' {
                    assert(c@ =~= dot_dot());
                }
            }
            if c.len() == 0 || is_dot {
            } else if is_dot_dot {
                if stack.len() == 0 {
                    escaped = true;
                } else {
                    let ghost before_stack = stack@;
                    stack.pop();
                    assert(views(stack@) =~= views(before_stack).drop_last());
                }
            } else {
                let mut copy: Vec<char> = Vec::new();
                let mut j: usize = 0;
                while j < c.len()
                    invariant
                        0 <= j <= c@.len(),
                        copy@ == c@.subrange(0, j as int),
                    decreases c@.len() - j,
                {
                    copy.push(c[j]);
                    j = j + 1;
                    assert(copy@ =~= c@.subrange(0, j as int));
                }
                assert(copy@ =~= c@);
                let ghost before_stack = views(stack@);
                stack.push(copy);
                assert(views(stack@) =~= before_stack.push(c@));
            }
        }
        k = k + 1;
    }
    assert(views(comps@).subrange(0, comps@.len() as int) =~= views(comps@));
    if escaped {
        None
    } else {
        Some(stack)
    }
}

/// Joins components with `/`.
pub fn join_components(st: &Vec<Vec<char>>) -> (out: Vec<char>)
    ensures
        out@ == join(views(st@)),
{
    let mut out: Vec<char> = Vec::new();
    let mut k: usize = 0;
    assert(views(st@).subrange(0, 0) =~= Seq::<Seq<char>>::empty());
    while k < st.len()
        invariant
            0 <= k <= st@.len(),
            out@ == join(views(st@).subrange(0, k as int)),
        decreases st@.len() - k,
    {
        let ghost pre = views(st@).subrange(0, k as int);
        let ghost out0 = out@;
        assert(views(st@).subrange(0, k + 1).drop_last() =~= pre);
        assert(views(st@).subrange(0, k + 1).last() == st@[k as int]@);
        if k > 0 {
            out.push('/');
        }
        let ghost out1 = out@;
        let c = &st[k];
        let mut j: usize = 0;
        while j < c.len()
            invariant
                0 <= j <= c@.len(),
                out@ == out1 + c@.subrange(0, j as int),
            decreases c@.len() - j,
        {
            out.push(c[j]);
            j = j + 1;
            assert(out@ =~= out1 + c@.subrange(0, j as int));
        }
        assert(c@.subrange(0, c@.len() as int) =~= c@);
        proof {
            if k == 0 {
                assert(out@ =~= join(views(st@).subrange(0, 1)));
            } else {
                assert(out@ =~= join(pre) + seq!['/'] + c@);
            }
        }
        k = k + 1;
    }
    assert(views(st@).subrange(0, st@.len() as int) =~= views(st@));
    out
}

/// Whether an encoded separator (`%2F`, `%2f`, `%5C` or `%5c`) starts at position `i`.
pub open spec fn encoded_sep_at(s: Seq<char>, i: int) -> bool {
    &&& 0 <= i
    &&& i + 3 <= s.len()
    &&& s[i] == '%'
    &&& ((s[i + 1] == '2' && (s[i + 2] == 'F' || s[i + 2] == 'f')) || (s[i + 1] == '5' && (s[i + 2]
        == 'C' || s[i + 2] == 'c')))
}

/// The path with each percent-encoded separator replaced by `/`, scanning from the left.
pub open spec fn decode_separators(s: Seq<char>) -> Seq<char>
    decreases s.len(),
{
    if s.len() == 0 {
        Seq::empty()
    } else if encoded_sep_at(s, 0) {
        seq!['/'] + decode_separators(s.subrange(3, s.len() as int))
    } else {
        seq![s[0]] + decode_separators(s.subrange(1, s.len() as int))
    }
}

/// Replaces each percent-encoded separator with `/`.
pub fn decode_encoded_separators(s: &[char]) -> (out: Vec<char>)
    ensures
        out@ == decode_separators(s@),
{
    let mut out: Vec<char> = Vec::new();
    let mut i: usize = 0;
    assert(s@.subrange(0, s@.len() as int) =~= s@);
    assert(out@ + decode_separators(s@.subrange(0, s@.len() as int)) =~= decode_separators(s@));
    while i < s.len()
        invariant
            0 <= i <= s@.len(),
            out@ + decode_separators(s@.subrange(i as int, s@.len() as int)) == decode_separators(s@),
        decreases s@.len() - i,
    {
        let ghost rest = s@.subrange(i as int, s@.len() as int);
        let enc = s.len() - i >= 3 && s[i] == '%' && ((s[i + 1] == '2' && (s[i + 2] == 'F' || s[i
            + 2] == 'f')) || (s[i + 1] == '5' && (s[i + 2] == 'C' || s[i + 2] == 'c')));
        assert(enc == encoded_sep_at(rest, 0));
        if enc {
            out.push('/');
            assert(rest.subrange(3, rest.len() as int) =~= s@.subrange(i + 3, s@.len() as int));
            i = i + 3;
        } else {
            out.push(s[i]);
            assert(rest.subrange(1, rest.len() as int) =~= s@.subrange(i + 1, s@.len() as int));
            i = i + 1;
        }
    }
    assert(decode_separators(s@.subrange(i as int, s@.len() as int)) =~= Seq::<char>::empty());
    assert(out@ =~= decode_separators(s@));
    out
}

} // verus!
