//! Character-level string helpers shared by the text widgets.
use vstd::prelude::*;

verus! {

broadcast use vstd::string::group_string_axioms;

/// `String::push`: appends one character.
#[verifier::external_body]
fn push_char(s: &mut String, c: char)
    ensures
        final(s)@ == old(s)@.push(c),
{
    s.push(c);
}

/// The characters of a string, in order.
pub fn chars_of(s: &str) -> (v: Vec<char>)
    ensures
        v@ == s@,
{
    let mut v: Vec<char> = Vec::new();
    for c in it: s.chars()
        invariant
            v@ == it.seq().take(it.index() as int),
    {
        v.push(c);
    }
    v
}

/// The string made of the given characters.
pub fn string_of(v: &[char]) -> (s: String)
    ensures
        s@ == v@,
{
    let mut s = String::new();
    let n = v.len();
    for i in 0..n
        invariant
            n == v@.len(),
            s@ == v@.take(i as int),
    {
        push_char(&mut s, v[i]);
        assert(v@.take(i + 1) == v@.take(i as int).push(v@[i as int]));
    }
    assert(v@.take(n as int) == v@);
    s
}

} // verus!

verus! {

/// A path separator on some platform: `/` everywhere, `\\` on Windows too.
pub open spec fn is_path_sep(c: char) -> bool {
    c == '/' || c == '\\'
}

/// A base path that joining extends the same way on every platform: not
/// empty, not ending in a separator or in `:` (a bare drive), and not
/// starting with `\\` or `//` (a Windows UNC, device or verbatim prefix).
pub open spec fn plain_join_base(base: Seq<char>) -> bool {
    &&& base.len() > 0
    &&& !is_path_sep(base.last())
    &&& base.last() != ':'
    &&& base[0] != '\\'
    &&& !(base.len() >= 2 && base[0] == '/' && base[1] == '/')
}

/// A path piece that is relative on every platform: it starts with no
/// separator and holds no `:` (so no Windows drive prefix).
pub open spec fn plain_relative(part: Seq<char>) -> bool {
    &&& (part.len() == 0 || !is_path_sep(part[0]))
    &&& !part.contains(':')
}

/// `r` is `part` joined onto `base` as `Path::join` does it, where that is
/// the same on every platform up to the separator: for a plain base and a
/// plain relative part, `r` is `base`, one separator, then `part`.
pub open spec fn joined_path(base: Seq<char>, part: Seq<char>, r: Seq<char>) -> bool {
    plain_join_base(base) && plain_relative(part) ==> {
        &&& r.len() == base.len() + 1 + part.len()
        &&& r.take(base.len() as int) == base
        &&& is_path_sep(r[base.len() as int])
        &&& r.skip(base.len() + 1int) == part
    }
}

/// `std::path::Path::join`, on paths given and returned as strings.
///
/// Claimed: when `base` is a plain base and `part` is relative on every
/// platform (see [`joined_path`]), the result is `base`, the platform's
/// separator, then `part`, as the documentation of `PathBuf::push` says of
/// pushing a relative path. Left unsaid: which separator (it depends on the
/// platform), and the result for absolute parts, Windows prefixes and bases
/// that end in a separator, where the platforms differ.
#[verifier::external_body]
pub(crate) fn join_path(base: &str, part: &str) -> (r: String)
    ensures
        joined_path(base@, part@, r@),
{
    std::path::Path::new(base).join(part).to_string_lossy().into_owned()
}

/// The characters of `a` followed by those of `b`.
pub fn concat_chars(a: &Vec<char>, b: &Vec<char>) -> (r: Vec<char>)
    ensures
        r@ == a@ + b@,
{
    let mut r = a.clone();
    let n = b.len();
    for i in 0..n
        invariant
            n == b@.len(),
            r@ == a@ + b@.take(i as int),
    {
        r.push(b[i]);
        assert(b@.take(i + 1) == b@.take(i as int).push(b@[i as int]));
    }
    assert(b@.take(n as int) == b@);
    r
}

} // verus!

verus! {

/// The pieces of `s` between newlines, as `str::split('\n')` gives them:
/// always at least one, and empty pieces where newlines are adjacent or at
/// either end.
pub open spec fn split_lines(s: Seq<char>) -> Seq<Seq<char>>
    decreases s.len(),
{
    if s.len() == 0 {
        seq![Seq::<char>::empty()]
    } else {
        let r = split_lines(s.drop_last());
        if s.last() == '\n' {
            r.push(Seq::<char>::empty())
        } else {
            r.update(r.len() - 1, r.last().push(s.last()))
        }
    }
}

/// The lines joined with a newline between each two.
pub open spec fn join_lines(lines: Seq<Seq<char>>) -> Seq<char>
    decreases lines.len(),
{
    if lines.len() == 0 {
        Seq::empty()
    } else if lines.len() == 1 {
        lines[0]
    } else {
        join_lines(lines.drop_last()) + seq!['\n'] + lines.last()
    }
}

/// Number of newlines in `s`.
pub open spec fn newline_count(s: Seq<char>) -> nat
    decreases s.len(),
{
    if s.len() == 0 {
        0
    } else {
        newline_count(s.drop_last()) + if s.last() == '\n' { 1nat } else { 0nat }
    }
}

/// Splitting at newlines gives one piece more than there are newlines, and
/// no piece holds a newline.
pub proof fn law_split_lines_shape(s: Seq<char>)
    ensures
        split_lines(s).len() == newline_count(s) + 1,
        forall|i: int| 0 <= i < split_lines(s).len() ==> !(#[trigger] split_lines(s)[i]).contains('\n'),
    decreases s.len(),
{
    if s.len() > 0 {
        let r = split_lines(s.drop_last());
        law_split_lines_shape(s.drop_last());
        if s.last() == '\n' {
            assert forall|i: int| 0 <= i < split_lines(s).len() implies !(#[trigger] split_lines(s)[i]).contains('\n') by {
                if i < r.len() {
                    assert(split_lines(s)[i] == r[i]);
                } else {
                    assert(split_lines(s)[i] == Seq::<char>::empty());
                }
            }
        } else {
            let l = r.last().push(s.last());
            assert(!r[r.len() - 1].contains('\n'));
            assert(!l.contains('\n')) by {
                if l.contains('\n') {
                    let k = choose|k: int| 0 <= k < l.len() && l[k] == '\n';
                    if k < r.last().len() {
                        assert(r.last()[k] == '\n');
                        assert(r.last().contains('\n'));
                    }
                }
            }
            assert forall|i: int| 0 <= i < split_lines(s).len() implies !(#[trigger] split_lines(s)[i]).contains('\n') by {
                if i < r.len() - 1 {
                    assert(split_lines(s)[i] == r[i]);
                } else {
                    assert(split_lines(s)[i] == l);
                }
            }
        }
    }
}

/// Splitting always gives at least one piece.
pub proof fn lemma_split_lines_nonempty(s: Seq<char>)
    ensures
        split_lines(s).len() >= 1,
    decreases s.len(),
{
    if s.len() > 0 {
        lemma_split_lines_nonempty(s.drop_last());
    }
}

/// The strings' contents.
pub open spec fn views_of(v: Seq<String>) -> Seq<Seq<char>> {
    v.map_values(|s: String| s@)
}

/// Splits `s` at every newline; see [`split_lines`].
pub fn split_at_newlines(s: &str) -> (lines: Vec<String>)
    ensures
        views_of(lines@) == split_lines(s@),
{
    let chars = chars_of(s);
    let n = chars.len();
    let mut done: Vec<String> = Vec::new();
    let mut cur: Vec<char> = Vec::new();
    assert(chars@.take(0) =~= Seq::<char>::empty());
    for i in 0..n
        invariant
            n == chars@.len(),
            views_of(done@).push(cur@) == split_lines(chars@.take(i as int)),
    {
        let ghost prev = chars@.take(i as int);
        let ghost next = chars@.take(i + 1);
        assert(next.drop_last() == prev);
        assert(next.last() == chars@[i as int]);
        proof {
            lemma_split_lines_nonempty(prev);
        }
        if chars[i] == '\n' {
            let ghost before = done@;
            let line = string_of(cur.as_slice());
            done.push(line);
            assert(views_of(done@) =~= views_of(before).push(cur@));
            cur = Vec::new();
            assert(views_of(done@).push(cur@) =~= split_lines(next));
        } else {
            cur.push(chars[i]);
            assert(views_of(done@).push(cur@) =~= split_lines(next));
        }
    }
    assert(chars@.take(n as int) == chars@);
    let last = string_of(cur.as_slice());
    done.push(last);
    assert(views_of(done@) =~= split_lines(s@));
    done
}

} // verus!

verus! {

/// Joins the lines with a newline between each two; see [`join_lines`].
pub fn join_with_newlines(lines: &Vec<String>) -> (s: String)
    ensures
        s@ == join_lines(views_of(lines@)),
{
    let ghost views = views_of(lines@);
    let mut out: Vec<char> = Vec::new();
    let n = lines.len();
    assert(views.take(0) =~= Seq::<Seq<char>>::empty());
    for i in 0..n
        invariant
            n == lines@.len(),
            views == views_of(lines@),
            out@ == join_lines(views.take(i as int)),
    {
        let line = chars_of(lines[i].as_str());
        assert(views.take(i + 1).drop_last() =~= views.take(i as int));
        assert(views.take(i + 1).last() == views[i as int]);
        if i == 0 {
            out = line;
            assert(views.take(1) =~= seq![views[0]]);
        } else {
            let sep: Vec<char> = vec!['\n'];
            let with_sep = concat_chars(&out, &sep);
            out = concat_chars(&with_sep, &line);
        }
    }
    assert(views.take(n as int) =~= views);
    string_of(out.as_slice())
}

/// Splitting at newlines and joining the pieces with newlines gives back the text.
pub proof fn law_join_after_split(s: Seq<char>)
    ensures
        join_lines(split_lines(s)) == s,
    decreases s.len(),
{
    if s.len() > 0 {
        let r = split_lines(s.drop_last());
        lemma_split_lines_nonempty(s.drop_last());
        law_join_after_split(s.drop_last());
        if s.last() == '\n' {
            assert(r.push(Seq::<char>::empty()).drop_last() =~= r);
            assert(s.drop_last() + seq!['\n'] + Seq::<char>::empty() =~= s);
        } else {
            let r2 = r.update(r.len() - 1, r.last().push(s.last()));
            if r.len() == 1 {
                assert(r2[0] =~= s);
            } else {
                assert(r2.drop_last() =~= r.drop_last());
                assert(join_lines(r) == join_lines(r.drop_last()) + seq!['\n'] + r.last());
                assert(r2.last() == r.last().push(s.last()));
                assert(join_lines(r2) == join_lines(r2.drop_last()) + seq!['\n'] + r2.last());
                assert(s =~= s.drop_last().push(s.last()));
                assert(join_lines(r2) =~= s);
            }
        }
    }
}

/// Splitting text with a newline-free tail `b` extends the last piece by `b`.
pub proof fn lemma_split_lines_append(a: Seq<char>, b: Seq<char>)
    requires
        !b.contains('\n'),
    ensures
        split_lines(a + b) == split_lines(a).update(
            split_lines(a).len() - 1,
            split_lines(a).last() + b,
        ),
    decreases b.len(),
{
    lemma_split_lines_nonempty(a);
    if b.len() == 0 {
        assert(a + b =~= a);
        assert(split_lines(a).last() + b =~= split_lines(a).last());
        assert(split_lines(a).update(split_lines(a).len() - 1, split_lines(a).last()) =~= split_lines(a));
    } else {
        let b0 = b.drop_last();
        assert(!b0.contains('\n')) by {
            if b0.contains('\n') {
                let k = choose|k: int| 0 <= k < b0.len() && b0[k] == '\n';
                assert(b[k] == '\n');
            }
        }
        lemma_split_lines_append(a, b0);
        assert((a + b).drop_last() =~= a + b0);
        assert((a + b).last() == b.last());
        assert(b.last() != '\n') by {
            assert(b[b.len() - 1] == b.last());
        }
        lemma_split_lines_nonempty(a + b0);
        let sa = split_lines(a);
        let r = split_lines(a + b0);
        assert(r == sa.update(sa.len() - 1, sa.last() + b0));
        assert(r.len() == sa.len());
        assert(r.last() == sa.last() + b0);
        assert(split_lines(a + b) == r.update(r.len() - 1, r.last().push((a + b).last())));
        assert(sa.last() + b0 + seq![b.last()] =~= sa.last() + b);
        assert(r.last().push(b.last()) =~= sa.last() + b);
        assert(split_lines(a + b) =~= sa.update(sa.len() - 1, sa.last() + b));
    }
}

/// Joining newline-free lines (at least one) and splitting at newlines gives
/// back the lines.
pub proof fn law_split_after_join(lines: Seq<Seq<char>>)
    requires
        lines.len() >= 1,
        forall|i: int| 0 <= i < lines.len() ==> !(#[trigger] lines[i]).contains('\n'),
    ensures
        split_lines(join_lines(lines)) == lines,
    decreases lines.len(),
{
    if lines.len() == 1 {
        lemma_split_lines_append(Seq::empty(), lines[0]);
        assert(Seq::<char>::empty() + lines[0] =~= lines[0]);
        assert(Seq::<char>::empty() + lines[0] =~= lines[0]);
        assert(split_lines(Seq::<char>::empty()).update(0, Seq::<char>::empty() + lines[0]) =~= lines);
    } else {
        let init = lines.drop_last();
        assert forall|i: int| 0 <= i < init.len() implies !(#[trigger] init[i]).contains('\n') by {
            assert(init[i] == lines[i]);
        }
        law_split_after_join(init);
        let a = join_lines(init) + seq!['\n'];
        assert(a.drop_last() =~= join_lines(init));
        assert(a.last() == '\n');
        assert(!lines[lines.len() - 1].contains('\n'));
        lemma_split_lines_append(a, lines.last());
        assert(split_lines(a) == init.push(Seq::<char>::empty()));
        assert(Seq::<char>::empty() + lines.last() =~= lines.last());
        assert(init.push(Seq::<char>::empty()).update(init.len() as int, lines.last()) =~= lines);
    }
}

} // verus!

verus! {

/// Number of bytes in the UTF-8 encoding of `c`.
pub fn utf8_width(c: char) -> (n: usize)
    ensures
        n == vstd::utf8::encode_scalar(c as u32).len(),
{
    let v = c as u32;
    if v <= 0x7F {
        1
    } else if v <= 0x7FF {
        2
    } else if v <= 0xFFFF {
        3
    } else {
        4
    }
}

/// Encoding a concatenation encodes each part in turn.
pub proof fn lemma_encode_utf8_append(a: Seq<char>, b: Seq<char>)
    ensures
        vstd::utf8::encode_utf8(a + b) == vstd::utf8::encode_utf8(a) + vstd::utf8::encode_utf8(b),
    decreases a.len(),
{
    if a.len() == 0 {
        assert(a + b =~= b);
        assert(Seq::<u8>::empty() + vstd::utf8::encode_utf8(b) =~= vstd::utf8::encode_utf8(b));
    } else {
        assert((a + b).drop_first() =~= a.drop_first() + b);
        assert((a + b)[0] == a[0]);
        lemma_encode_utf8_append(a.drop_first(), b);
        let e = vstd::utf8::encode_scalar(a[0] as u32);
        assert(e + (vstd::utf8::encode_utf8(a.drop_first()) + vstd::utf8::encode_utf8(b)) =~= (e
            + vstd::utf8::encode_utf8(a.drop_first())) + vstd::utf8::encode_utf8(b));
    }
}

/// Byte offset of character `k` of `s` in its UTF-8 encoding.
pub open spec fn byte_offset(s: Seq<char>, k: int) -> nat {
    vstd::utf8::encode_utf8(s.take(k)).len()
}

/// Byte offsets of the characters of `s`, in order; the last entry is the
/// length of the whole encoding.
pub fn byte_offsets(s: &Vec<char>) -> (offs: Vec<usize>)
    requires
        vstd::utf8::encode_utf8(s@).len() <= usize::MAX,
    ensures
        offs@.len() == s@.len() + 1,
        forall|k: int| 0 <= k <= s@.len() ==> offs@[k] == byte_offset(s@, k),
{
    let n = s.len();
    let mut offs: Vec<usize> = vec![0];
    let mut acc: usize = 0;
    assert(s@.take(0) =~= Seq::<char>::empty());
    for i in 0..n
        invariant
            n == s@.len(),
            vstd::utf8::encode_utf8(s@).len() <= usize::MAX,
            offs@.len() == i + 1,
            acc == byte_offset(s@, i as int),
            forall|k: int| 0 <= k <= i ==> offs@[k] == byte_offset(s@, k),
    {
        proof {
            assert(s@.take(i + 1) =~= s@.take(i as int) + seq![s@[i as int]]);
            lemma_encode_utf8_append(s@.take(i as int), seq![s@[i as int]]);
            let one = seq![s@[i as int]];
            assert(one.drop_first() =~= Seq::<char>::empty());
            assert(vstd::utf8::encode_utf8(one.drop_first()) == Seq::<u8>::empty());
            assert(vstd::utf8::encode_utf8(one) == vstd::utf8::encode_scalar(one[0] as u32)
                + vstd::utf8::encode_utf8(one.drop_first()));
            assert(vstd::utf8::encode_utf8(one) =~= vstd::utf8::encode_scalar(s@[i as int] as u32));
            assert(s@ =~= s@.take(i + 1) + s@.skip(i + 1));
            lemma_encode_utf8_append(s@.take(i + 1), s@.skip(i + 1));
        }
        acc = acc + utf8_width(s[i]);
        offs.push(acc);
    }
    offs
}

} // verus!
