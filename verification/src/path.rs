//! Unix paths.
//!
//! A path the node builds or is configured with is text. A path the operating system reports (a
//! mount point, the resolved form of a path) need not be text, so it is handled as bytes.

use vstd::prelude::*;
use vstd::string::*;
use vstd::utf8::*;

verus! {

/// A path is absolute when it begins with the root.
pub open spec fn is_absolute_path(p: Seq<char>) -> bool {
    p.len() > 0 && p[0] == '/'
}

/// The path `name`, read from `base`: an absolute `name` stands for itself, any other is put
/// behind `base`, with a separator between them where `base` does not end in one.
pub open spec fn joined(base: Seq<char>, name: Seq<char>) -> Seq<char> {
    if is_absolute_path(name) {
        name
    } else if base.len() == 0 || base.last() == '/' {
        base + name
    } else {
        base.push('/') + name
    }
}

/// Is `p` an absolute path?
pub fn is_absolute(p: &str) -> (yes: bool)
    ensures
        yes == is_absolute_path(p@),
{
    !p.is_empty() && p.get_char(0) == '/'
}

/// The path `name`, read from `base`.
pub fn join(base: &str, name: &str) -> (r: String)
    ensures
        r@ == joined(base@, name@),
{
    proof {
        reveal_strlit("/");
    }
    if is_absolute(name) {
        return name.to_owned();
    }
    let mut r = base.to_owned();
    if !base.is_empty() && base.get_char(base.unicode_len() - 1) != '/' {
        r.append("/");
        assert(r@ == base@.push('/'));
    }
    r.append(name);
    r
}

/// A name without a separator, read from a non-empty `base`, keeps `base` in front and adds
/// exactly that name behind the last separator: it cannot leave the directory.
pub proof fn joined_name_stays_below(base: Seq<char>, name: Seq<char>)
    requires
        base.len() > 0,
        !name.contains('/'),
    ensures
        ({
            let p = joined(base, name);
            let cut = p.len() - name.len();
            &&& base.is_prefix_of(p)
            &&& 0 < cut <= base.len() + 1
            &&& p[cut - 1] == '/'
            &&& p.skip(cut) == name
        }),
{
    not_absolute(name);
    let p = joined(base, name);
    let cut = p.len() - name.len();
    assert(p.skip(cut) =~= name);
    assert(p.subrange(0, base.len() as int) =~= base);
}

/// Different names without a separator give different paths, whatever they are read from: the name
/// is what stands behind the last separator.
pub proof fn joined_names_differ(base: Seq<char>, a: Seq<char>, other: Seq<char>, b: Seq<char>)
    requires
        !a.contains('/'),
        !b.contains('/'),
        joined(base, a) == joined(other, b),
    ensures
        a == b,
{
    if a.len() < b.len() {
        shorter_name_differs(base, a, other, b);
    } else if b.len() < a.len() {
        shorter_name_differs(other, b, base, a);
    } else {
        not_absolute(a);
        not_absolute(b);
        let p = joined(base, a);
        assert(p.skip(p.len() - a.len()) =~= a);
        assert(p.skip(p.len() - b.len()) =~= b);
    }
}

/// The separator in front of a shorter name would stand within the longer one.
proof fn shorter_name_differs(base: Seq<char>, a: Seq<char>, other: Seq<char>, b: Seq<char>)
    requires
        !a.contains('/'),
        !b.contains('/'),
        a.len() < b.len(),
    ensures
        joined(base, a) != joined(other, b),
{
    not_absolute(a);
    not_absolute(b);
    let p = joined(base, a);
    if p == joined(other, b) {
        let at = p.len() - a.len() - 1;
        assert(p[at] == '/');
        assert(b[at - (p.len() - b.len())] == '/');
    }
}

proof fn not_absolute(name: Seq<char>)
    requires
        !name.contains('/'),
    ensures
        !is_absolute_path(name),
{
    if is_absolute_path(name) {
        assert(name.contains(name[0]));
    }
}

/// How the path `p` is shown in a message: what its `Debug` form is.
pub uninterp spec fn shown_path(p: Seq<char>) -> Seq<char>;

/// Formats a `std::path::Path` with its `Debug` impl. The contract only gives the result a name:
/// how quotes and control characters are escaped is left to the standard library.
#[verifier::external_body]
pub(crate) fn show_path(p: &str) -> (r: String)
    ensures
        r@ == shown_path(p@),
{
    format!("{:?}", std::path::Path::new(p))
}

/// The path above `p`, where there is one: what `Path::parent` gives.
pub uninterp spec fn parent_path(p: Seq<char>) -> Option<Seq<char>>;

/// The components of the path `p`.
pub open spec fn text_components(p: Seq<char>) -> Seq<Seq<u8>> {
    components(encode_utf8(p))
}

/// The path `p` has a component that can be cut off: it has one, and its last is not the root.
pub open spec fn has_parent(p: Seq<char>) -> bool {
    text_components(p).len() > 0 && text_components(p).last() != seq![0x2fu8]
}

/// Calls `std::path::Path::parent`. The contract gives the result a name, and says when there is
/// one and that its components are those of `p` without the last. How the remaining separators are
/// written is left to the standard library. What is above a text is text.
#[verifier::external_body]
pub(crate) fn parent(p: &str) -> (r: Option<String>)
    ensures
        match r {
            Some(above) => parent_path(p@) == Some(above@) && text_components(above@) == text_components(
                p@,
            ).drop_last(),
            None => parent_path(p@) is None,
        },
        r is Some <==> has_parent(p@),
{
    std::path::Path::new(p).parent().and_then(std::path::Path::to_str).map(str::to_owned)
}

/// The stretches of `p` between its separators, empty ones among them.
pub open spec fn pieces(p: Seq<u8>) -> Seq<Seq<u8>>
    decreases p.len(),
{
    if p.len() == 0 {
        seq![Seq::<u8>::empty()]
    } else {
        let front = pieces(p.drop_last());
        if p.last() == 0x2f {
            front.push(Seq::<u8>::empty())
        } else {
            front.drop_last().push(front.last().push(p.last()))
        }
    }
}

/// A piece that names something: not the empty one that doubled separators leave, and not `.`.
pub open spec fn names_something(piece: Seq<u8>) -> bool {
    piece.len() > 0 && piece != seq![0x2eu8]
}

/// What stands before the named components: the root of an absolute path, the `.` that a
/// relative path begins with, or nothing.
pub open spec fn head(p: Seq<u8>) -> Seq<Seq<u8>> {
    if p.len() > 0 && p[0] == 0x2f {
        seq![seq![0x2fu8]]
    } else if p.len() > 0 && p[0] == 0x2e && (p.len() == 1 || p[1] == 0x2f) {
        seq![seq![0x2eu8]]
    } else {
        Seq::empty()
    }
}

/// The components of the path `p`: repeated and trailing separators do not count, nor does a `.`
/// unless a relative path begins with it.
pub open spec fn components(p: Seq<u8>) -> Seq<Seq<u8>> {
    head(p) + pieces(p).filter(|piece: Seq<u8>| names_something(piece))
}

/// `base` is `p` itself or a directory above it: its components begin those of `p`.
pub open spec fn lies_under(p: Seq<u8>, base: Seq<u8>) -> bool {
    components(base).is_prefix_of(components(p))
}

/// The views of a list of byte strings.
pub open spec fn views(v: Seq<Vec<u8>>) -> Seq<Seq<u8>> {
    v.map_values(|b: Vec<u8>| b@)
}

fn piece_names_something(piece: &Vec<u8>) -> (yes: bool)
    ensures
        yes == names_something(piece@),
{
    if piece.len() == 0 {
        false
    } else if piece.len() == 1 && piece[0] == 0x2e {
        assert(piece@ =~= seq![0x2eu8]);
        false
    } else {
        true
    }
}

/// The components of `p`, in order.
pub fn components_of(p: &[u8]) -> (r: Vec<Vec<u8>>)
    ensures
        views(r@) == components(p@),
{
    let mut r: Vec<Vec<u8>> = Vec::new();
    if p.len() > 0 && p[0] == 0x2f {
        let mut root: Vec<u8> = Vec::new();
        root.push(0x2f);
        r.push(root);
    } else if p.len() > 0 && p[0] == 0x2e && (p.len() == 1 || p[1] == 0x2f) {
        let mut here: Vec<u8> = Vec::new();
        here.push(0x2e);
        r.push(here);
    }
    assert(views(r@) =~= head(p@));
    let ghost f = |piece: Seq<u8>| names_something(piece);
    let mut piece: Vec<u8> = Vec::new();
    let mut i: usize = 0;
    proof {
        reveal(Seq::filter);
        assert(p@.take(0) =~= Seq::<u8>::empty());
        assert(pieces(p@.take(0)) =~= seq![Seq::<u8>::empty()]);
        assert(pieces(p@.take(0)).drop_last() =~= Seq::<Seq<u8>>::empty());
        assert(piece@ =~= Seq::<u8>::empty());
    }
    while i < p.len()
        invariant
            i <= p.len(),
            f == (|piece: Seq<u8>| names_something(piece)),
            pieces(p@.take(i as int)).len() > 0,
            pieces(p@.take(i as int)).last() == piece@,
            views(r@) == head(p@) + pieces(p@.take(i as int)).drop_last().filter(f),
        decreases p.len() - i,
    {
        let ghost front = pieces(p@.take(i as int));
        assert(p@.take(i + 1).drop_last() =~= p@.take(i as int));
        assert(front =~= front.drop_last().push(front.last()));
        if p[i] == 0x2f {
            let ghost before = r@;
            let mut done: Vec<u8> = Vec::new();
            core::mem::swap(&mut done, &mut piece);
            if piece_names_something(&done) {
                r.push(done);
                assert(views(r@) =~= views(before).push(front.last()));
            }
            proof {
                reveal(Seq::filter);
                assert(pieces(p@.take(i + 1)) =~= front.push(Seq::<u8>::empty()));
                assert(pieces(p@.take(i + 1)).drop_last() =~= front);
                assert(views(r@) =~= head(p@) + front.filter(f));
            }
        } else {
            piece.push(p[i]);
            assert(pieces(p@.take(i + 1)).drop_last() =~= front.drop_last());
        }
        i += 1;
    }
    assert(p@.take(p@.len() as int) =~= p@);
    let ghost all = pieces(p@);
    let ghost before = r@;
    if piece_names_something(&piece) {
        r.push(piece);
        assert(views(r@) =~= views(before).push(all.last()));
    }
    proof {
        reveal(Seq::filter);
        assert(views(r@) =~= head(p@) + all.filter(f));
    }
    r
}

/// Are `a` and `b` the same bytes?
fn same_bytes(a: &Vec<u8>, b: &Vec<u8>) -> (yes: bool)
    ensures
        yes == (a@ == b@),
{
    if a.len() != b.len() {
        return false;
    }
    let mut i: usize = 0;
    while i < a.len()
        invariant
            a.len() == b.len(),
            forall|j: int| 0 <= j < i ==> a@[j] == b@[j],
        decreases a.len() - i,
    {
        if a[i] != b[i] {
            return false;
        }
        i += 1;
    }
    assert(a@ =~= b@);
    true
}

/// Is `base` the path `p` or a directory above it?
pub fn path_starts_with(p: &[u8], base: &[u8]) -> (yes: bool)
    ensures
        yes == lies_under(p@, base@),
{
    let whole = components_of(p);
    let part = components_of(base);
    let ghost w = components(p@);
    let ghost b = components(base@);
    assert(w.len() == whole.len() && b.len() == part.len());
    if part.len() > whole.len() {
        return false;
    }
    let mut i: usize = 0;
    while i < part.len()
        invariant
            i <= part.len() <= whole.len(),
            views(whole@) == w,
            views(part@) == b,
            w == components(p@),
            b == components(base@),
            forall|j: int| 0 <= j < i ==> w[j] == b[j],
        decreases part.len() - i,
    {
        assert(views(whole@)[i as int] == whole@[i as int]@);
        assert(views(part@)[i as int] == part@[i as int]@);
        if !same_bytes(&whole[i], &part[i]) {
            assert(w.subrange(0, b.len() as int)[i as int] != b[i as int]);
            return false;
        }
        i += 1;
    }
    assert(w.subrange(0, b.len() as int) =~= b);
    true
}

/// The encoding of a text is that of its front and that of its back.
proof fn encoding_of_both(a: Seq<char>, b: Seq<char>)
    ensures
        encode_utf8(a + b) == encode_utf8(a) + encode_utf8(b),
    decreases a.len(),
{
    if a.len() > 0 {
        encoding_of_both(a.drop_first(), b);
        assert((a + b).drop_first() =~= a.drop_first() + b);
    } else {
        assert(a + b =~= b);
        assert(encode_utf8(a) =~= Seq::<u8>::empty());
    }
}

/// The separator is one byte, which is in the encoding of no other character.
proof fn encoding_of_separator(c: char)
    ensures
        c == '/' ==> encode_scalar(c as u32) == seq![0x2fu8],
        c != '/' ==> !encode_scalar(c as u32).contains(0x2f),
        encode_scalar(c as u32).len() > 0,
{
    let s = c as u32;
    char_is_scalar(c);
    assert(s == 0x2f ==> leading_byte_width_1(s) == 0x2f) by (bit_vector);
    assert(s != 0x2f && s <= 0x7f ==> leading_byte_width_1(s) != 0x2f) by (bit_vector);
    assert(leading_byte_width_2(s) >= 0x80) by (bit_vector);
    assert(leading_byte_width_3(s) >= 0x80) by (bit_vector);
    assert(leading_byte_width_4(s) >= 0x80) by (bit_vector);
    assert(last_continuation_byte(s) >= 0x80) by (bit_vector);
    assert(second_last_continuation_byte(s) >= 0x80) by (bit_vector);
    assert(third_last_continuation_byte(s) >= 0x80) by (bit_vector);
}

/// The encoding of a name without a separator has none either.
proof fn encoding_of_name(name: Seq<char>)
    requires
        !name.contains('/'),
    ensures
        !encode_utf8(name).contains(0x2f),
    decreases name.len(),
{
    if name.len() > 0 {
        let rest = name.drop_first();
        assert(!rest.contains('/')) by {
            if rest.contains('/') {
                let i = choose|i: int| 0 <= i < rest.len() && rest[i] == '/';
                assert(name[i + 1] == '/');
            }
        }
        assert(name[0] != '/');
        encoding_of_separator(name[0]);
        encoding_of_name(rest);
    }
}

/// A text ends in a separator exactly when its encoding does.
proof fn encoding_of_end(x: Seq<char>)
    requires
        x.len() > 0,
    ensures
        encode_utf8(x).len() > 0,
        encode_utf8(x).last() == 0x2f <==> x.last() == '/',
{
    let end = seq![x.last()];
    assert(x =~= x.drop_last() + end);
    encoding_of_both(x.drop_last(), end);
    assert(end.drop_first() =~= Seq::<char>::empty());
    reveal_with_fuel(encode_utf8, 2);
    let e = encode_scalar(x.last() as u32);
    assert(encode_utf8(end) =~= e);
    encoding_of_separator(x.last());
    assert(encode_utf8(x).last() == e.last());
    assert(e.contains(e.last()));
}

/// A name lengthens the last stretch of what it is put behind.
proof fn pieces_with_name(x: Seq<u8>, name: Seq<u8>)
    requires
        !name.contains(0x2f),
    ensures
        pieces(x).len() > 0,
        pieces(x + name) == pieces(x).drop_last().push(pieces(x).last() + name),
    decreases name.len(), x.len(),
{
    if name.len() > 0 {
        let front = name.drop_last();
        assert(!front.contains(0x2f)) by {
            if front.contains(0x2f) {
                let i = choose|i: int| 0 <= i < front.len() && front[i] == 0x2f;
                assert(name[i] == 0x2f);
            }
        }
        assert(name.contains(name.last()));
        pieces_with_name(x, front);
        assert((x + name).drop_last() =~= x + front);
        let before = pieces(x + front);
        assert(before.drop_last() =~= pieces(x).drop_last());
        assert(before.last().push(name.last()) =~= pieces(x).last() + name);
    } else {
        if x.len() > 0 {
            pieces_with_name(x.drop_last(), name);
        }
        assert(x + name =~= x);
        assert(pieces(x).last() + name =~= pieces(x).last());
        assert(pieces(x) =~= pieces(x).drop_last().push(pieces(x).last()));
    }
}

/// A name that names something is one more component of what it is read from.
pub proof fn joined_name_is_last_component(base: Seq<char>, name: Seq<char>)
    requires
        !name.contains('/'),
        name.len() > 0,
        name != seq!['.'],
    ensures
        text_components(joined(base, name)) == text_components(base).push(encode_utf8(name)),
        has_parent(joined(base, name)),
{
    let f = |piece: Seq<u8>| names_something(piece);
    let x = encode_utf8(base);
    let n = encode_utf8(name);
    let slash = seq!['/'];
    not_absolute(name);
    encoding_of_name(name);
    encoding_of_separator(name[0]);
    encoding_of_separator('/');
    assert(n != seq![0x2eu8]) by {
        let dot = seq!['.'];
        assert(is_ascii_chars(dot));
        is_ascii_chars_encode_utf8(dot);
        assert(encode_utf8(dot) =~= seq![0x2eu8]);
        encode_utf8_decode_utf8(dot);
        encode_utf8_decode_utf8(name);
    }
    assert(f(n));
    assert(n != seq![0x2fu8]) by {
        assert(seq![0x2fu8][0] == 0x2f);
    }
    pieces_with_name(x, n);
    if base.len() == 0 || base.last() == '/' {
        encoding_of_both(base, name);
        let p = x + n;
        if base.len() > 0 {
            encoding_of_end(base);
        } else {
            assert(base =~= Seq::<char>::empty());
            assert(n.contains(n[0]));
            assert(n.len() > 1 ==> n.contains(n[1]));
            assert(n =~= seq![0x2eu8] || n[0] != 0x2e || n.len() > 1);
        }
        assert(pieces(x).last() =~= Seq::<u8>::empty());
        assert(pieces(x).last() + n =~= n);
        assert(!f(pieces(x).last()));
        let front = pieces(x).drop_last();
        front.lemma_filter_push(pieces(x).last(), f);
        front.lemma_filter_push(n, f);
        assert(pieces(x) =~= front.push(pieces(x).last()));
        assert(head(p) =~= head(x));
        assert(components(p) =~= components(x).push(n));
    } else {
        assert(joined(base, name) =~= (base + slash) + name);
        encoding_of_both(base + slash, name);
        encoding_of_both(base, slash);
        encoding_of_end(base);
        reveal_with_fuel(encode_utf8, 2);
        assert(slash.drop_first() =~= Seq::<char>::empty());
        assert(encode_utf8(slash) =~= seq![0x2fu8]);
        let y = x.push(0x2f);
        assert(encode_utf8(base + slash) =~= y);
        let p = y + n;
        pieces_with_name(y, n);
        assert(y.drop_last() =~= x);
        assert(pieces(y) =~= pieces(x).push(Seq::<u8>::empty()));
        assert(pieces(y).drop_last() =~= pieces(x));
        assert(pieces(y).last() + n =~= n);
        pieces(x).lemma_filter_push(n, f);
        assert(head(p) =~= head(x));
        assert(components(p) =~= components(x).push(n));
    }
}

/// A name without a separator is the only stretch of itself.
pub proof fn name_is_one_piece(name: Seq<u8>)
    requires
        !name.contains(0x2f),
    ensures
        pieces(name) == seq![name],
{
    let empty = Seq::<u8>::empty();
    pieces_with_name(empty, name);
    assert(empty + name =~= name);
    assert(pieces(empty) =~= seq![empty]);
    assert(pieces(name) =~= seq![name]);
}

/// A name behind a path and a separator is its last stretch; it is a component where it names
/// something.
pub proof fn entry_is_a_piece(base: Seq<u8>, name: Seq<u8>)
    requires
        base.len() > 0,
        !name.contains(0x2f),
    ensures
        components(base.push(0x2f) + name) == if names_something(name) {
            components(base).push(name)
        } else {
            components(base)
        },
{
    let f = |piece: Seq<u8>| names_something(piece);
    let y = base.push(0x2f);
    let p = y + name;
    pieces_with_name(y, name);
    assert(y.drop_last() =~= base);
    assert(pieces(y) =~= pieces(base).push(Seq::<u8>::empty()));
    assert(pieces(y).drop_last() =~= pieces(base));
    assert(pieces(y).last() + name =~= name);
    pieces(base).lemma_filter_push(name, f);
    assert(head(p) =~= head(base));
    assert(components(p) =~= if names_something(name) {
        components(base).push(name)
    } else {
        components(base)
    });
}

/// No stretch of a path holds a separator.
proof fn pieces_hold_no_separator(p: Seq<u8>)
    ensures
        pieces(p).len() > 0,
        forall|i: int| 0 <= i < pieces(p).len() ==> !(#[trigger] pieces(p)[i]).contains(0x2f),
    decreases p.len(),
{
    if p.len() > 0 {
        let front = pieces(p.drop_last());
        pieces_hold_no_separator(p.drop_last());
        if p.last() != 0x2f {
            let long = front.last().push(p.last());
            assert(!long.contains(0x2f)) by {
                if long.contains(0x2f) {
                    let i = choose|i: int| 0 <= i < long.len() && long[i] == 0x2f;
                    assert(front.last()[i] == 0x2f);
                }
            }
        }
    }
}

/// Only an absolute path has a component that holds a separator: its root.
pub proof fn no_component_is_a_separator(p: Seq<u8>)
    requires
        !(p.len() > 0 && p[0] == 0x2f),
    ensures
        forall|i: int| 0 <= i < components(p).len() ==> !(#[trigger] components(p)[i]).contains(0x2f),
{
    let f = |piece: Seq<u8>| names_something(piece);
    let named = pieces(p).filter(f);
    pieces_hold_no_separator(p);
    assert forall|i: int| 0 <= i < components(p).len() implies !(#[trigger] components(p)[i]).contains(0x2f) by {
        let k = head(p).len();
        if i >= k {
            assert(components(p)[i] == named[i - k]);
            assert(named.contains(named[i - k]));
            pieces(p).lemma_filter_contains_rev(f, named[i - k]);
            let j = choose|j: int| 0 <= j < pieces(p).len() && pieces(p)[j] == named[i - k];
            assert(!pieces(p)[j].contains(0x2f));
        } else {
            assert(components(p)[i] == seq![0x2eu8]);
        }
    }
}

} // verus!
