//! What holds of every sanitized path: its components are plain names, a
//! second sanitization gives it back, and a plain relative path comes
//! through unchanged.

use crate::runtime::security::components::{
    decode_separators, dot, dot_dot, encoded_sep_at, is_sep, join, resolve, resolve_step,
    split_path,
};
use crate::runtime::security::error::PathTraversalError;
use crate::runtime::security::{is_absolute_path, reserved_component, sanitize_spec, windows_path_error};
use vstd::prelude::*;

verus! {

/// No character of `c` separates components.
pub open spec fn no_sep(c: Seq<char>) -> bool {
    forall|i: int| 0 <= i < c.len() ==> !is_sep(#[trigger] c[i])
}

/// A plain component: not empty, not `.` or `..`, without separators.
pub open spec fn is_normal(c: Seq<char>) -> bool {
    &&& c.len() > 0
    &&& c != dot()
    &&& c != dot_dot()
    &&& no_sep(c)
}

/// Every component is plain.
pub open spec fn all_normal(st: Seq<Seq<char>>) -> bool {
    forall|k: int| 0 <= k < st.len() ==> is_normal(#[trigger] st[k])
}

/// Each piece of a split is a range of the path, the last one reaching its end.
proof fn lemma_split_pieces(x: Seq<char>)
    ensures
        split_path(x).len() >= 1,
        forall|k: int|
            0 <= k < split_path(x).len() ==> exists|a: int, b: int|
                0 <= a <= b <= x.len() && #[trigger] split_path(x)[k] == x.subrange(a, b),
        exists|a: int| 0 <= a <= x.len() && split_path(x).last() == x.subrange(a, x.len() as int),
        forall|k: int| 0 <= k < split_path(x).len() ==> no_sep(#[trigger] split_path(x)[k]),
    decreases x.len(),
{
    if x.len() == 0 {
        assert(split_path(x) == seq![Seq::<char>::empty()]);
        assert(split_path(x)[0] == x.subrange(0, 0));
        assert(split_path(x).last() == x.subrange(0, 0));
    } else {
        let y = x.drop_last();
        lemma_split_pieces(y);
        let p = split_path(y);
        assert forall|k: int| 0 <= k < p.len() implies exists|a: int, b: int|
            0 <= a <= b <= x.len() && #[trigger] p[k] == x.subrange(a, b) by {
            let (a, b) = choose|a: int, b: int| 0 <= a <= b <= y.len() && p[k] == y.subrange(a, b);
            assert(y.subrange(a, b) =~= x.subrange(a, b));
        }
        let a0 = choose|a: int| 0 <= a <= y.len() && p.last() == y.subrange(a, y.len() as int);
        if is_sep(x.last()) {
            let q = split_path(x);
            assert(q == p.push(Seq::<char>::empty()));
            assert(q.last() == x.subrange(x.len() as int, x.len() as int));
            assert forall|k: int| 0 <= k < q.len() implies exists|a: int, b: int|
                0 <= a <= b <= x.len() && #[trigger] q[k] == x.subrange(a, b) by {
                if k < p.len() {
                    assert(q[k] == p[k]);
                } else {
                    assert(q[k] == x.subrange(x.len() as int, x.len() as int));
                }
            }
            assert forall|k: int| 0 <= k < q.len() implies no_sep(#[trigger] q[k]) by {
                if k < p.len() {
                    assert(q[k] == p[k]);
                }
            }
        } else {
            let q = split_path(x);
            let last = p.last().push(x.last());
            assert(q == p.update(p.len() - 1, last));
            assert(last =~= x.subrange(a0, x.len() as int));
            assert forall|k: int| 0 <= k < q.len() implies exists|a: int, b: int|
                0 <= a <= b <= x.len() && #[trigger] q[k] == x.subrange(a, b) by {
                if k < p.len() - 1 {
                    assert(q[k] == p[k]);
                } else {
                    assert(q[k] == x.subrange(a0, x.len() as int));
                }
            }
            assert forall|k: int| 0 <= k < q.len() implies no_sep(#[trigger] q[k]) by {
                if k < p.len() - 1 {
                    assert(q[k] == p[k]);
                } else {
                    assert forall|i: int| 0 <= i < last.len() implies !is_sep(#[trigger] last[i]) by {
                        if i < p.last().len() {
                            assert(last[i] == p.last()[i]);
                        }
                    }
                }
            }
        }
    }
}

/// A path without separators is a single piece.
proof fn lemma_split_single(x: Seq<char>)
    requires
        no_sep(x),
    ensures
        split_path(x) == seq![x],
    decreases x.len(),
{
    if x.len() == 0 {
        assert(x =~= Seq::<char>::empty());
    } else {
        let y = x.drop_last();
        assert(no_sep(y)) by {
            assert forall|i: int| 0 <= i < y.len() implies !is_sep(#[trigger] y[i]) by {
                assert(y[i] == x[i]);
            }
        }
        assert(!is_sep(x[x.len() - 1]));
        lemma_split_single(y);
        assert(y.push(x.last()) =~= x);
    }
}

/// Appending `/` and a piece without separators appends that piece.
proof fn lemma_split_append(x: Seq<char>, y: Seq<char>)
    requires
        no_sep(y),
    ensures
        split_path(x + seq!['/'] + y) == split_path(x).push(y),
    decreases y.len(),
{
    if y.len() == 0 {
        assert(x + seq!['/'] + y =~= x.push('/'));
        assert((x + seq!['/'] + y).drop_last() =~= x);
        assert(y =~= Seq::<char>::empty());
    } else {
        let y0 = y.drop_last();
        assert(no_sep(y0)) by {
            assert forall|i: int| 0 <= i < y0.len() implies !is_sep(#[trigger] y0[i]) by {
                assert(y0[i] == y[i]);
            }
        }
        assert(!is_sep(y[y.len() - 1]));
        lemma_split_append(x, y0);
        assert((x + seq!['/'] + y).drop_last() =~= x + seq!['/'] + y0);
        assert(y0.push(y.last()) =~= y);
    }
}

/// Joining pieces without separators and splitting again gives them back.
proof fn lemma_split_join(st: Seq<Seq<char>>)
    requires
        st.len() >= 1,
        forall|k: int| 0 <= k < st.len() ==> no_sep(#[trigger] st[k]),
    ensures
        split_path(join(st)) == st,
    decreases st.len(),
{
    if st.len() == 1 {
        lemma_split_single(st[0]);
        assert(seq![st[0]] =~= st);
    } else {
        let init = st.drop_last();
        assert forall|k: int| 0 <= k < init.len() implies no_sep(#[trigger] init[k]) by {
            assert(init[k] == st[k]);
        }
        lemma_split_join(init);
        assert(no_sep(st[st.len() - 1]));
        lemma_split_append(join(init), st.last());
        assert(init.push(st.last()) =~= st);
    }
}

/// No encoded separator starts anywhere in `x`.
pub open spec fn no_encoded_sep(x: Seq<char>) -> bool {
    forall|i: int| !#[trigger] encoded_sep_at(x, i)
}

/// What resolution keeps: plain, non-empty components taken from the input.
proof fn lemma_resolve_keeps(comps: Seq<Seq<char>>)
    ensures
        resolve(comps) matches Some(st) ==> forall|k: int|
            0 <= k < st.len() ==> {
                &&& (#[trigger] st[k]).len() > 0
                &&& st[k] != dot()
                &&& st[k] != dot_dot()
                &&& exists|j: int| 0 <= j < comps.len() && comps[j] == st[k]
            },
    decreases comps.len(),
{
    if comps.len() > 0 {
        let init = comps.drop_last();
        lemma_resolve_keeps(init);
        match resolve(init) {
            None => {},
            Some(st0) => {
                let c = comps.last();
                assert forall|k: int| 0 <= k < st0.len() implies exists|j: int|
                    0 <= j < comps.len() && comps[j] == #[trigger] st0[k] by {
                    let j = choose|j: int| 0 <= j < init.len() && init[j] == st0[k];
                    assert(comps[j] == init[j]);
                }
                if c.len() == 0 || c == dot() {
                } else if c == dot_dot() {
                    if st0.len() > 0 {
                        let st = st0.drop_last();
                        assert forall|k: int| 0 <= k < st.len() implies st[k] == #[trigger] st0[k] by {}
                    }
                } else {
                    let st = st0.push(c);
                    assert forall|k: int| 0 <= k < st.len() implies {
                        &&& (#[trigger] st[k]).len() > 0
                        &&& st[k] != dot()
                        &&& st[k] != dot_dot()
                        &&& exists|j: int| 0 <= j < comps.len() && comps[j] == st[k]
                    } by {
                        if k < st0.len() {
                            assert(st[k] == st0[k]);
                        } else {
                            assert(comps[comps.len() - 1] == st[k]);
                        }
                    }
                }
            },
        }
    }
}

/// Plain components resolve to themselves.
proof fn lemma_resolve_identity(comps: Seq<Seq<char>>)
    requires
        all_normal(comps),
    ensures
        resolve(comps) == Some(comps),
    decreases comps.len(),
{
    if comps.len() > 0 {
        let init = comps.drop_last();
        assert(all_normal(init)) by {
            assert forall|k: int| 0 <= k < init.len() implies is_normal(#[trigger] init[k]) by {
                assert(init[k] == comps[k]);
            }
        }
        lemma_resolve_identity(init);
        assert(is_normal(comps[comps.len() - 1]));
        assert(init.push(comps.last()) =~= comps);
    } else {
        assert(comps =~= Seq::<Seq<char>>::empty());
    }
}

/// Without encoded separators, decoding changes nothing.
proof fn lemma_decode_identity(x: Seq<char>)
    requires
        no_encoded_sep(x),
    ensures
        decode_separators(x) == x,
    decreases x.len(),
{
    if x.len() > 0 {
        let rest = x.subrange(1, x.len() as int);
        assert(!encoded_sep_at(x, 0));
        assert(no_encoded_sep(rest)) by {
            assert forall|i: int| !#[trigger] encoded_sep_at(rest, i) by {
                if encoded_sep_at(rest, i) {
                    assert(encoded_sep_at(x, i + 1));
                }
            }
        }
        lemma_decode_identity(rest);
        assert(seq![x[0]] + rest =~= x);
    }
}

/// The first character of a decoding.
proof fn lemma_decode_first(y: Seq<char>)
    requires
        y.len() > 0,
    ensures
        decode_separators(y).len() > 0,
        decode_separators(y)[0] == (if encoded_sep_at(y, 0) { '/' } else { y[0] }),
{
}

/// A decoding holds no encoded separator.
proof fn lemma_decode_clean(x: Seq<char>)
    ensures
        no_encoded_sep(decode_separators(x)),
    decreases x.len(),
{
    let d = decode_separators(x);
    if x.len() > 0 {
        if encoded_sep_at(x, 0) {
            let rest = x.subrange(3, x.len() as int);
            lemma_decode_clean(rest);
            assert forall|i: int| !#[trigger] encoded_sep_at(d, i) by {
                if encoded_sep_at(d, i) {
                    if i == 0 {
                        assert(d[0] == '/');
                    } else {
                        assert(encoded_sep_at(decode_separators(rest), i - 1));
                    }
                }
            }
        } else {
            let rest = x.subrange(1, x.len() as int);
            lemma_decode_clean(rest);
            let dr = decode_separators(rest);
            assert(d == seq![x[0]] + dr);
            assert forall|i: int| !#[trigger] encoded_sep_at(d, i) by {
                if encoded_sep_at(d, i) {
                    if i == 0 {
                        lemma_decode_first(rest);
                        assert(dr[0] == x[1]);
                        let r2 = rest.subrange(1, rest.len() as int);
                        assert(!encoded_sep_at(rest, 0));
                        assert(dr == seq![rest[0]] + decode_separators(r2));
                        lemma_decode_first(r2);
                        assert(decode_separators(r2)[0] == x[2]);
                        assert(encoded_sep_at(x, 0));
                    } else {
                        assert(encoded_sep_at(dr, i - 1));
                    }
                }
            }
        }
    }
}

/// A range of a path without encoded separators has none either.
proof fn lemma_subrange_clean(x: Seq<char>, a: int, b: int)
    requires
        no_encoded_sep(x),
        0 <= a <= b <= x.len(),
    ensures
        no_encoded_sep(x.subrange(a, b)),
{
    assert forall|i: int| !#[trigger] encoded_sep_at(x.subrange(a, b), i) by {
        if encoded_sep_at(x.subrange(a, b), i) {
            assert(encoded_sep_at(x, a + i));
        }
    }
}

/// Joining components without encoded separators makes none.
proof fn lemma_join_clean(st: Seq<Seq<char>>)
    requires
        st.len() >= 1,
        forall|k: int| 0 <= k < st.len() ==> no_encoded_sep(#[trigger] st[k]),
    ensures
        no_encoded_sep(join(st)),
    decreases st.len(),
{
    if st.len() == 1 {
        assert(no_encoded_sep(st[0]));
    } else {
        let init = st.drop_last();
        assert forall|k: int| 0 <= k < init.len() implies no_encoded_sep(#[trigger] init[k]) by {
            assert(init[k] == st[k]);
        }
        lemma_join_clean(init);
        let a = join(init);
        let y = st.last();
        assert(no_encoded_sep(st[st.len() - 1]));
        let j = a + seq!['/'] + y;
        assert(join(st) == j);
        assert forall|i: int| !#[trigger] encoded_sep_at(j, i) by {
            if encoded_sep_at(j, i) {
                if i + 3 <= a.len() {
                    assert(encoded_sep_at(a, i));
                } else if i > a.len() {
                    assert(encoded_sep_at(y, i - a.len() - 1));
                } else {
                    assert(j[a.len() as int] == '/');
                }
            }
        }
    }
}

/// The text the sanitizer splits into components.
pub open spec fn split_source(s: Seq<char>, decode: bool) -> Seq<char> {
    if decode {
        decode_separators(s)
    } else {
        s
    }
}

/// The components kept by resolution are plain, and each is a range of
/// the text that was split.
proof fn lemma_resolved_pieces(src: Seq<char>)
    ensures
        resolve(split_path(src)) matches Some(st) ==> all_normal(st) && forall|k: int|
            0 <= k < st.len() ==> exists|a: int, b: int|
                0 <= a <= b <= src.len() && #[trigger] st[k] == src.subrange(a, b),
{
    lemma_split_pieces(src);
    lemma_resolve_keeps(split_path(src));
    if let Some(st) = resolve(split_path(src)) {
        let comps = split_path(src);
        assert forall|k: int| 0 <= k < st.len() implies is_normal(#[trigger] st[k]) && exists|
            a: int,
            b: int,
        | 0 <= a <= b <= src.len() && st[k] == src.subrange(a, b) by {
            let j = choose|j: int| 0 <= j < comps.len() && comps[j] == st[k];
            assert(no_sep(comps[j]));
            let (a, b) = choose|a: int, b: int| 0 <= a <= b <= src.len() && comps[j] == src.subrange(a, b);
        }
    }
}

/// Every component of a sanitized path is a plain name: never empty, never
/// `.` or `..`, so the result cannot climb out of the base directory; and
/// the path is those components joined with `/`.
pub proof fn lemma_sanitized_components_are_plain(s: Seq<char>, decode: bool)
    requires
        sanitize_spec(s, decode) is Ok,
    ensures
        ({
            let p = sanitize_spec(s, decode)->Ok_0;
            &&& p.len() > 0
            &&& split_path(p).len() >= 1
            &&& all_normal(split_path(p))
            &&& join(split_path(p)) == p
        }),
{
    let src = split_source(s, decode);
    lemma_resolved_pieces(src);
    let st = resolve(split_path(src))->0;
    let p = join(st);
    assert(sanitize_spec(s, decode) == Ok::<Seq<char>, PathTraversalError>(p));
    assert forall|k: int| 0 <= k < st.len() implies no_sep(#[trigger] st[k]) by {
        assert(is_normal(st[k]));
    }
    lemma_split_join(st);
    lemma_join_starts_with_first(st);
}

/// A join starts with its first component.
proof fn lemma_join_starts_with_first(st: Seq<Seq<char>>)
    requires
        st.len() >= 1,
    ensures
        join(st).len() >= st[0].len(),
        join(st).subrange(0, st[0].len() as int) == st[0],
    decreases st.len(),
{
    if st.len() > 1 {
        let init = st.drop_last();
        lemma_join_starts_with_first(init);
        assert(init[0] == st[0]);
        let j = join(init) + seq!['/'] + st.last();
        assert(j.subrange(0, st[0].len() as int) =~= join(init).subrange(0, st[0].len() as int));
    }
}

/// Sanitizing is idempotent: whenever a sanitized path is sanitized again
/// and accepted, the result is that same path.
pub proof fn lemma_sanitize_idempotent(s: Seq<char>, decode: bool)
    requires
        sanitize_spec(s, decode) is Ok,
        sanitize_spec(sanitize_spec(s, decode)->Ok_0, decode) is Ok,
    ensures
        sanitize_spec(sanitize_spec(s, decode)->Ok_0, decode) == sanitize_spec(s, decode),
{
    let src = split_source(s, decode);
    lemma_resolved_pieces(src);
    let st = resolve(split_path(src))->0;
    let p = join(st);
    lemma_sanitized_components_are_plain(s, decode);
    assert(split_path(p) == st) by {
        assert forall|k: int| 0 <= k < st.len() implies no_sep(#[trigger] st[k]) by {
            assert(is_normal(st[k]));
        }
        lemma_split_join(st);
    }
    if decode {
        lemma_decode_clean(s);
        assert forall|k: int| 0 <= k < st.len() implies no_encoded_sep(#[trigger] st[k]) by {
            let (a, b) = choose|a: int, b: int| 0 <= a <= b <= src.len() && st[k] == src.subrange(a, b);
            lemma_subrange_clean(src, a, b);
        }
        lemma_join_clean(st);
        lemma_decode_identity(p);
    }
    assert(split_source(p, decode) == p);
    lemma_resolve_identity(st);
}

/// A path made of plain components (joined with `/`) that passes the
/// null-byte, Windows and absolute-path checks, and holds no percent-encoded
/// separator when those are decoded, comes back unchanged.
pub proof fn lemma_plain_relative_path_unchanged(comps: Seq<Seq<char>>, decode: bool)
    requires
        comps.len() >= 1,
        all_normal(comps),
        !join(comps).contains('\0'),
        windows_path_error(join(comps)) is None,
        !is_absolute_path(join(comps)),
        decode ==> no_encoded_sep(join(comps)),
    ensures
        sanitize_spec(join(comps), decode) == Ok::<Seq<char>, PathTraversalError>(join(comps)),
{
    let s = join(comps);
    lemma_join_starts_with_first(comps);
    assert(is_normal(comps[0]));
    assert(s.len() > 0);
    if decode {
        lemma_decode_identity(s);
    }
    assert forall|k: int| 0 <= k < comps.len() implies no_sep(#[trigger] comps[k]) by {
        assert(is_normal(comps[k]));
    }
    lemma_split_join(comps);
    lemma_resolve_identity(comps);
}

/// A path holding a null byte is always refused for it.
pub proof fn lemma_null_byte_rejected(s: Seq<char>, decode: bool)
    requires
        s.contains('\0'),
    ensures
        sanitize_spec(s, decode) == Err::<Seq<char>, PathTraversalError>(PathTraversalError::NullByte),
{
}

/// A path that starts with `/` or `\` is always refused.
pub proof fn lemma_rooted_path_rejected(s: Seq<char>, decode: bool)
    requires
        s.len() > 0,
        is_sep(s[0]),
    ensures
        sanitize_spec(s, decode) is Err,
{
}

} // verus!
