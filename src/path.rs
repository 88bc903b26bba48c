//! Path strings as sequences of components, compared component by component,
//! and expansion of a leading tilde.
use vstd::prelude::*;
use crate::error::NonoError;

verus! {

/// The character sequences held by a sequence of strings.
pub open spec fn views(v: Seq<String>) -> Seq<Seq<char>> {
    v.map_values(|x: String| x@)
}

/// The pieces of `s` between occurrences of `sep`, in order; a string without
/// `sep` is one piece, and an empty string gives one empty piece.
pub open spec fn split_on(s: Seq<char>, sep: char) -> Seq<Seq<char>>
    decreases s.len(),
{
    if s.len() == 0 {
        seq![Seq::<char>::empty()]
    } else {
        let prev = split_on(s.drop_last(), sep);
        if s.last() == sep {
            prev.push(Seq::<char>::empty())
        } else {
            prev.drop_last().push(prev.last().push(s.last()))
        }
    }
}

/// The pieces that name something: not empty and not the current directory.
pub open spec fn normal_parts(pieces: Seq<Seq<char>>) -> Seq<Seq<char>>
    decreases pieces.len(),
{
    if pieces.len() == 0 {
        Seq::empty()
    } else {
        let prev = normal_parts(pieces.drop_last());
        let p = pieces.last();
        if p.len() == 0 || p == seq!['.'] {
            prev
        } else {
            prev.push(p)
        }
    }
}

/// An absolute path: it starts with `/`.
pub open spec fn has_root(s: Seq<char>) -> bool {
    s.len() > 0 && s[0] == '/'
}

/// A path whose first component is the current directory: `.` or `./...`.
pub open spec fn leads_with_cur_dir(s: Seq<char>) -> bool {
    s == seq!['.'] || (s.len() >= 2 && s[0] == '.' && s[1] == '/')
}

/// Components of a Unix path: the root `/` if the path is absolute, `.` if the
/// path starts with the current directory, then every non-empty segment other
/// than `.`. Repeated and trailing separators carry no component.
pub open spec fn components(s: Seq<char>) -> Seq<Seq<char>> {
    (if has_root(s) { seq![seq!['/']] } else { Seq::empty() })
        + (if leads_with_cur_dir(s) { seq![seq!['.']] } else { Seq::empty() })
        + normal_parts(split_on(s, '/'))
}

/// `a` begins `b`.
pub open spec fn is_prefix(a: Seq<Seq<char>>, b: Seq<Seq<char>>) -> bool {
    a.len() <= b.len() && b.take(a.len() as int) == a
}

/// Two paths name the same location when their components agree.
pub open spec fn same_path(a: Seq<char>, b: Seq<char>) -> bool {
    components(a) == components(b)
}

/// `p` is `base` or lies under it: the components of `base` begin those of `p`.
pub open spec fn path_under(p: Seq<char>, base: Seq<char>) -> bool {
    is_prefix(components(base), components(p))
}

proof fn lemma_views_push(v: Seq<String>, x: String)
    ensures
        views(v.push(x)) == views(v).push(x@),
{
    assert(views(v.push(x)) =~= views(v).push(x@));
}

/// Splits `s` at every `sep`.
pub fn split_chars(s: &str, sep: char) -> (r: Vec<String>)
    ensures
        views(r@) == split_on(s@, sep),
{
    let n = s.unicode_len();
    let mut pieces: Vec<String> = Vec::new();
    let mut start: usize = 0;
    let mut i: usize = 0;
    assert(s@.take(0) =~= Seq::<char>::empty());
    assert(s@.subrange(0, 0) =~= Seq::<char>::empty());
    assert(views(pieces@) =~= Seq::<Seq<char>>::empty());
    while i < n
        invariant
            n == s@.len(),
            start <= i <= n,
            views(pieces@).push(s@.subrange(start as int, i as int)) == split_on(
                s@.take(i as int),
                sep,
            ),
        decreases n - i,
    {
        let c = s.get_char(i);
        let ghost prev = split_on(s@.take(i as int), sep);
        assert(s@.take(i + 1).drop_last() =~= s@.take(i as int));
        assert(s@.take(i + 1).last() == c);
        if c == sep {
            let piece = String::from_str(s.substring_char(start, i));
            proof {
                lemma_views_push(pieces@, piece);
            }
            pieces.push(piece);
            start = i + 1;
            assert(s@.subrange(start as int, i + 1) =~= Seq::<char>::empty());
        } else {
            assert(s@.subrange(start as int, i + 1) =~= s@.subrange(start as int, i as int).push(c));
            assert(prev.drop_last() =~= views(pieces@));
        }
        i = i + 1;
    }
    let last = String::from_str(s.substring_char(start, n));
    proof {
        lemma_views_push(pieces@, last);
    }
    pieces.push(last);
    assert(s@.take(n as int) =~= s@);
    pieces
}

/// The components of a path, as `components` describes them.
pub fn path_components(s: &str) -> (r: Vec<String>)
    ensures
        views(r@) == components(s@),
{
    let pieces = split_chars(s, '/');
    let n = s.unicode_len();
    let mut out: Vec<String> = Vec::new();
    proof {
        reveal_strlit("/");
        reveal_strlit(".");
    }
    assert(views(out@) =~= Seq::<Seq<char>>::empty());
    if n > 0 && s.get_char(0) == '/' {
        let root = String::from_str("/");
        assert(root@ =~= seq!['/']);
        proof {
            lemma_views_push(out@, root);
        }
        out.push(root);
    }
    let ghost root_part = if has_root(s@) { seq![seq!['/']] } else { Seq::<Seq<char>>::empty() };
    assert(views(out@) =~= root_part);
    let cur = if n == 1 {
        s.get_char(0) == '.'
    } else if n >= 2 {
        s.get_char(0) == '.' && s.get_char(1) == '/'
    } else {
        false
    };
    assert(cur == leads_with_cur_dir(s@)) by {
        if n == 1 && s@[0] == '.' {
            assert(s@ =~= seq!['.']);
        }
    }
    if cur {
        let dot = String::from_str(".");
        assert(dot@ =~= seq!['.']);
        proof {
            lemma_views_push(out@, dot);
        }
        out.push(dot);
    }
    let ghost head = views(out@);
    assert(head =~= root_part + (if cur { seq![seq!['.']] } else { Seq::empty() }));
    let mut j: usize = 0;
    assert(views(pieces@).take(0) =~= Seq::<Seq<char>>::empty());
    assert(head + normal_parts(Seq::empty()) =~= head);
    while j < pieces.len()
        invariant
            views(pieces@) == split_on(s@, '/'),
            j <= pieces@.len(),
            views(out@) == head + normal_parts(views(pieces@).take(j as int)),
        decreases pieces@.len() - j,
    {
        let piece = &pieces[j];
        let len = piece.as_str().unicode_len();
        let skip = len == 0 || (len == 1 && piece.as_str().get_char(0) == '.');
        assert(views(pieces@).take(j + 1).drop_last() =~= views(pieces@).take(j as int));
        assert(views(pieces@)[j as int] == piece@);
        assert(skip == (piece@.len() == 0 || piece@ == seq!['.'])) by {
            if len == 1 && piece@[0] == '.' {
                assert(piece@ =~= seq!['.']);
            }
        }
        if !skip {
            let part = piece.clone();
            proof {
                lemma_views_push(out@, part);
            }
            out.push(part);
            assert(views(out@) =~= head + normal_parts(views(pieces@).take(j + 1)));
        }
        j = j + 1;
    }
    assert(views(pieces@).take(pieces@.len() as int) =~= views(pieces@));
    out
}

/// Whether `a` is a prefix of `b`, element by element.
fn parts_prefix(a: &Vec<String>, b: &Vec<String>) -> (r: bool)
    ensures
        r == is_prefix(views(a@), views(b@)),
{
    if a.len() > b.len() {
        return false;
    }
    let mut i: usize = 0;
    while i < a.len()
        invariant
            a@.len() <= b@.len(),
            i <= a@.len(),
            forall|k: int| 0 <= k < i ==> a@[k]@ == b@[k]@,
        decreases a@.len() - i,
    {
        if a[i] != b[i] {
            assert(views(b@).take(a@.len() as int)[i as int] != views(a@)[i as int]);
            return false;
        }
        i = i + 1;
    }
    assert(views(b@).take(a@.len() as int) =~= views(a@));
    true
}

/// Whether two paths have the same components.
pub fn path_eq(a: &str, b: &str) -> (r: bool)
    ensures
        r == same_path(a@, b@),
{
    let ca = path_components(a);
    let cb = path_components(b);
    let r = ca.len() == cb.len() && parts_prefix(&ca, &cb);
    assert(r == (views(ca@) == views(cb@))) by {
        if views(ca@) == views(cb@) {
            assert(views(cb@).take(views(ca@).len() as int) =~= views(cb@));
        }
        if r {
            assert(views(cb@).take(views(ca@).len() as int) =~= views(cb@));
        }
    }
    r
}

/// Whether `p` is `base` or lies under it, by components: `/homeevil` does not
/// lie under `/home`, `/home/user` does.
pub fn path_starts_with(p: &str, base: &str) -> (r: bool)
    ensures
        r == path_under(p@, base@),
{
    let cp = path_components(p);
    let cb = path_components(base);
    parts_prefix(&cb, &cp)
}

/// A path that names the home directory: `~` alone or `~/` followed by the rest.
pub open spec fn needs_home(p: Seq<char>) -> bool {
    p == seq!['~'] || (p.len() >= 2 && p[0] == '~' && p[1] == '/')
}

/// An optional string as an optional character sequence.
pub open spec fn opt_view(o: Option<&str>) -> Option<Seq<char>> {
    match o {
        Some(h) => Some(h@),
        None => None,
    }
}

/// Tilde expansion against the value of the home variable, if any: a path
/// without a leading tilde is returned as it is whatever the home value; one
/// with it needs a home value that is set and absolute, which then replaces
/// the tilde. An error holds the reason.
pub open spec fn tilde_expansion(path: Seq<char>, home: Option<Seq<char>>) -> Result<
    Seq<char>,
    Seq<char>,
> {
    if !needs_home(path) {
        Ok(path)
    } else {
        match home {
            None => Err("not set (required for tilde expansion)"@),
            Some(h) => if !has_root(h) {
                Err("must be an absolute path, got: "@ + h)
            } else {
                Ok(h + path.drop_first())
            },
        }
    }
}

/// The error for a home variable that cannot be used, with the given reason.
pub open spec fn is_home_error(e: NonoError, reason: Seq<char>) -> bool {
    match e {
        NonoError::EnvVarValidation { var, reason: r } => var@ == "HOME"@ && r@ == reason,
        _ => false,
    }
}

/// Expands a leading `~` in `path` with `home`, the value of the home variable
/// (`None` when it is not set). The home value is looked at only when the path
/// needs it.
pub fn expand_tilde(path: &str, home: Option<&str>) -> (r: Result<String, NonoError>)
    ensures
        match r {
            Ok(s) => tilde_expansion(path@, opt_view(home)) == Ok::<Seq<char>, Seq<char>>(s@),
            Err(e) => exists|reason: Seq<char>|
                tilde_expansion(path@, opt_view(home)) == Err::<Seq<char>, Seq<char>>(reason)
                    && #[trigger] is_home_error(e, reason),
        },
{
    let n = path.unicode_len();
    let tilde = if n == 1 {
        path.get_char(0) == '~'
    } else if n >= 2 {
        path.get_char(0) == '~' && path.get_char(1) == '/'
    } else {
        false
    };
    assert(tilde == needs_home(path@)) by {
        if n == 1 && path@[0] == '~' {
            assert(path@ =~= seq!['~']);
        }
    }
    if !tilde {
        return Ok(String::from_str(path));
    }
    match home {
        None => {
            let reason = String::from_str("not set (required for tilde expansion)");
            let e = NonoError::EnvVarValidation { var: String::from_str("HOME"), reason };
            assert(is_home_error(e, reason@));
            Err(e)
        },
        Some(h) => {
            if !(h.unicode_len() > 0 && h.get_char(0) == '/') {
                let reason = String::from_str("must be an absolute path, got: ").concat(h);
                let e = NonoError::EnvVarValidation { var: String::from_str("HOME"), reason };
                assert(is_home_error(e, reason@));
                Err(e)
            } else {
                let rest = path.substring_char(1, n);
                assert(rest@ =~= path@.drop_first());
                Ok(String::from_str(h).concat(rest))
            }
        },
    }
}

} // verus!
