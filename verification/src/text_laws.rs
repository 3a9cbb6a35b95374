//! What holds of texts, paths, identifiers and amounts, however they are computed.

use crate::chunk_id;
use crate::gib::Gib;
use crate::path;
use crate::text;
use vstd::prelude::*;
use vstd::utf8::*;

verus! {

/// The number that decimal digits are written for.
pub open spec fn value_of(digits: Seq<char>) -> int
    decreases digits.len(),
{
    if digits.len() == 0 {
        0
    } else {
        10 * value_of(digits.drop_last()) + (digits.last() as int - '0' as int)
    }
}

/// A number that is written down reads back: it consists of digits, it has the value of the number,
/// and it begins with no zero, unless it is zero.
pub proof fn decimal_reads_back(n: nat)
    ensures
        value_of(text::decimal(n)) == n,
        text::decimal(n).len() > 0,
        forall|i: int| 0 <= i < text::decimal(n).len() ==> '0' <= #[trigger] text::decimal(n)[i] <= '9',
        text::decimal(n)[0] == '0' ==> n == 0 && text::decimal(n).len() == 1,
    decreases n,
{
    let d = text::decimal(n);
    if n < 10 {
        assert(d.drop_last() =~= Seq::<char>::empty());
        assert(value_of(d.drop_last()) == 0);
    } else {
        decimal_reads_back(n / 10);
        assert(d.drop_last() =~= text::decimal(n / 10));
    }
}

/// The text of a number reads back.
pub proof fn number_text_reads_back(n: u64, r: String)
    requires
        call_ensures(text::decimal_text, (n,), r),
    ensures
        value_of(r@) == n,
        r@[0] == '0' ==> n == 0 && r@.len() == 1,
        forall|i: int| 0 <= i < r@.len() ==> '0' <= #[trigger] r@[i] <= '9',
{
    decimal_reads_back(n as nat);
}

/// Space, tabulator and the ends of lines are white space, and no visible ASCII character is.
pub proof fn ascii_white_space(c: char)
    requires
        c <= '\u{7f}',
    ensures
        text::white_space(c) <==> c == ' ' || c == '\t' || c == '\n' || c == '\r' || c == '\u{b}' || c == '\u{c}',
{
}

proof fn start_is_cut_off(s: Seq<char>) -> (front: Seq<char>)
    ensures
        s == front + text::trim_start(s),
        forall|i: int| 0 <= i < front.len() ==> text::white_space(#[trigger] front[i]),
        text::trim_start(s).len() > 0 ==> !text::white_space(text::trim_start(s)[0]),
    decreases s.len(),
{
    if s.len() > 0 && text::white_space(s.first()) {
        let rest = start_is_cut_off(s.drop_first());
        let front = seq![s[0]] + rest;
        assert(text::trim_start(s) == text::trim_start(s.drop_first()));
        assert(s =~= seq![s[0]] + s.drop_first());
        assert(s =~= front + text::trim_start(s));
        front
    } else {
        assert(s =~= Seq::<char>::empty() + s);
        Seq::empty()
    }
}

proof fn end_is_cut_off(s: Seq<char>) -> (back: Seq<char>)
    ensures
        s == text::trim_end(s) + back,
        forall|i: int| 0 <= i < back.len() ==> text::white_space(#[trigger] back[i]),
        text::trim_end(s).len() > 0 ==> !text::white_space(text::trim_end(s).last()),
    decreases s.len(),
{
    if s.len() > 0 && text::white_space(s.last()) {
        let rest = end_is_cut_off(s.drop_last());
        let back = rest.push(s.last());
        assert(text::trim_end(s) == text::trim_end(s.drop_last()));
        assert(s =~= s.drop_last().push(s.last()));
        assert(s =~= text::trim_end(s) + back);
        back
    } else {
        assert(s =~= s + Seq::<char>::empty());
        Seq::empty()
    }
}

/// A trimmed text is the text without white space in front of it and behind it, and neither begins
/// nor ends with any.
pub proof fn trimming_takes_white_space_alone(s: &str, r: String) -> (cut: (Seq<char>, Seq<char>))
    requires
        call_ensures(text::trim, (s,), r),
    ensures
        s@ == cut.0 + r@ + cut.1,
        forall|i: int| 0 <= i < cut.0.len() ==> text::white_space(#[trigger] cut.0[i]),
        forall|i: int| 0 <= i < cut.1.len() ==> text::white_space(#[trigger] cut.1[i]),
        r@.len() > 0 ==> !text::white_space(r@[0]) && !text::white_space(r@.last()),
{
    let front = start_is_cut_off(s@);
    let back = end_is_cut_off(text::trim_start(s@));
    assert(s@ =~= front + r@ + back);
    if r@.len() > 0 {
        assert(r@[0] == text::trim_start(s@)[0]);
    }
    (front, back)
}

/// The questions about a text are answered by its characters.
pub proof fn text_is_searched(
    s: &str,
    other: &str,
    a: char,
    b: char,
    held: bool,
    adjacent: bool,
    begins: bool,
    same: bool,
)
    requires
        call_ensures(text::contains_char, (s, a), held),
        call_ensures(text::contains_adjacent, (s, a, b), adjacent),
        call_ensures(text::starts_with, (s, other), begins),
        call_ensures(text::same, (s, other), same),
    ensures
        held <==> exists|i: int| 0 <= i < s@.len() && s@[i] == a,
        adjacent <==> exists|i: int| 0 <= i && i + 1 < s@.len() && #[trigger] s@[i] == a && s@[i + 1] == b,
        begins <==> other@.len() <= s@.len() && forall|i: int| 0 <= i < other@.len() ==> s@[i] == other@[i],
        same <==> s@ == other@,
{
    if other@.len() <= s@.len() {
        let front = s@.subrange(0, other@.len() as int);
        if begins {
            assert forall|i: int| 0 <= i < other@.len() implies s@[i] == other@[i] by {
                assert(front[i] == s@[i]);
            }
        } else if forall|i: int| 0 <= i < other@.len() ==> s@[i] == other@[i] {
            assert(front =~= other@);
        }
    }
}

/// Texts are put one behind the other.
pub proof fn texts_are_put_together(a: &str, b: &str, c: &str, two: String, three: String, all: Vec<char>)
    requires
        call_ensures(text::concat2, (a, b), two),
        call_ensures(text::concat3, (a, b, c), three),
        call_ensures(text::chars_of, (a,), all),
    ensures
        two@ == a@ + b@,
        three@ == two@ + c@,
        all@ == a@,
{
}

/// An absolute name stands for itself. Any other stands behind what it is read from, with one
/// separator between them where neither an end nor a separator is there already.
pub proof fn name_is_put_behind(base: &str, name: &str, r: String, absolute: bool)
    requires
        call_ensures(path::join, (base, name), r),
        call_ensures(path::is_absolute, (name,), absolute),
    ensures
        absolute <==> name@.len() > 0 && name@[0] == '/',
        absolute ==> r@ == name@,
        !absolute ==> r@ == base@ + name@ || r@ == base@ + seq!['/'] + name@,
        !absolute && base@.len() == 0 ==> r@ == name@,
        !absolute && base@.len() > 0 && base@.last() == '/' ==> r@.len() == base@.len() + name@.len(),
        !absolute && base@.len() > 0 && base@.last() != '/' ==> r@.len() == base@.len() + 1 + name@.len(),
{
    assert(base@.push('/') + name@ =~= base@ + seq!['/'] + name@);
    if base@.len() == 0 {
        assert(base@ + name@ =~= name@);
    }
}

/// The root has itself as its only component, a name has itself, and nothing has none.
pub proof fn simple_paths_have_one_component(name: Seq<u8>)
    requires
        !name.contains(0x2f),
    ensures
        path::components(seq![0x2f]) == seq![seq![0x2fu8]],
        path::components(name) == if name.len() > 0 {
            seq![name]
        } else {
            Seq::empty()
        },
{
    let f = |piece: Seq<u8>| path::names_something(piece);
    let root = seq![0x2fu8];
    let none = Seq::<Seq<u8>>::empty();
    let empty = Seq::<u8>::empty();
    reveal_with_fuel(path::pieces, 2);
    assert(root.drop_last() =~= empty);
    assert(path::pieces(root) =~= seq![empty, empty]);
    none.lemma_filter_push(empty, f);
    seq![empty].lemma_filter_push(empty, f);
    reveal(Seq::filter);
    assert(none.push(empty) =~= seq![empty]);
    assert(seq![empty].push(empty) =~= seq![empty, empty]);
    assert(path::components(root) =~= seq![seq![0x2fu8]]);
    path::name_is_one_piece(name);
    none.lemma_filter_push(name, f);
    assert(none.push(name) =~= seq![name]);
    if name.len() > 0 {
        assert(name.contains(name[0]));
    }
    if name.len() > 1 {
        assert(name.contains(name[1]));
    }
    if name.len() == 1 && name[0] == 0x2e {
        assert(name =~= seq![0x2eu8]);
    }
    assert(path::components(name) =~= if name.len() > 0 {
        seq![name]
    } else {
        Seq::empty()
    });
}

/// A separator and a name behind a path are one more component, and a separator alone, or with a
/// `.`, is none.
pub proof fn entry_is_one_more_component(base: Seq<u8>, name: Seq<u8>)
    requires
        base.len() > 0,
        !name.contains(0x2f),
    ensures
        path::components(base.push(0x2f) + name) == if name.len() > 0 && name != seq![0x2eu8] {
            path::components(base).push(name)
        } else {
            path::components(base)
        },
{
    path::entry_is_a_piece(base, name);
}

/// A path lies under itself and under what a path above it lies under.
pub proof fn lying_under_goes_on(a: Seq<u8>, b: Seq<u8>, c: Seq<u8>)
    ensures
        path::lies_under(a, a),
        path::lies_under(a, b) && path::lies_under(b, c) ==> path::lies_under(a, c),
{
    let (x, y, z) = (path::components(a), path::components(b), path::components(c));
    assert(x.subrange(0, x.len() as int) =~= x);
    if path::lies_under(a, b) && path::lies_under(b, c) {
        assert(x.subrange(0, z.len() as int) =~= y.subrange(0, z.len() as int)) by {
            assert forall|i: int| 0 <= i < z.len() implies x[i] == y[i] by {
                assert(x.subrange(0, y.len() as int)[i] == x[i]);
            }
        }
    }
}

/// What is in a directory lies under it, and not under anything else in that directory: the names
/// are compared whole.
pub proof fn only_the_directory_above_counts(
    base: Seq<u8>,
    name: Seq<u8>,
    other: Seq<u8>,
    p: &[u8],
    above: &[u8],
    beside: &[u8],
    under: bool,
    under_other: bool,
    upward: bool,
)
    requires
        base.len() > 0,
        !name.contains(0x2f),
        name.len() > 0,
        name != seq![0x2eu8],
        !other.contains(0x2f),
        other.len() > 0,
        other != seq![0x2eu8],
        p@ == base.push(0x2f) + name,
        above@ == base,
        beside@ == base.push(0x2f) + other,
        call_ensures(path::path_starts_with, (p, above), under),
        call_ensures(path::path_starts_with, (p, beside), under_other),
        call_ensures(path::path_starts_with, (above, p), upward),
    ensures
        under,
        under_other <==> name == other,
        !upward,
{
    entry_is_one_more_component(base, name);
    entry_is_one_more_component(base, other);
    let b = path::components(base);
    let x = b.push(name);
    let y = b.push(other);
    assert(x.subrange(0, b.len() as int) =~= b);
    assert(x.subrange(0, y.len() as int) =~= x);
    if x == y {
        assert(x.last() == y.last());
    }
}

/// Every absolute path lies under the root, and no relative one does.
pub proof fn root_is_above_absolute_paths(p: &[u8], root: &[u8], under: bool)
    requires
        root@ == seq![0x2fu8],
        call_ensures(path::path_starts_with, (p, root), under),
    ensures
        under <==> p@.len() > 0 && p@[0] == 0x2f,
{
    simple_paths_have_one_component(Seq::empty());
    let c = path::components(p@);
    let r = seq![seq![0x2fu8]];
    if p@.len() > 0 && p@[0] == 0x2f {
        assert(c[0] == r[0]);
        assert(c.subrange(0, 1) =~= r);
    } else if under {
        assert(c.subrange(0, 1)[0] == c[0]);
        assert(r[0] == seq![0x2fu8]);
        path::no_component_is_a_separator(p@);
        assert(c[0][0] == 0x2f);
    }
}

/// The hyphenated form of thirty-two digits.
pub open spec fn hyphenated(digits: Seq<char>) -> Seq<char> {
    digits.subrange(0, 8) + seq!['-'] + digits.subrange(8, 12) + seq!['-'] + digits.subrange(12, 16) + seq!['-']
        + digits.subrange(16, 20) + seq!['-'] + digits.subrange(20, 32)
}

/// Thirty-two hexadecimal digits are a UUID as they are, with hyphens, with hyphens in braces, and
/// with hyphens behind `urn:uuid:`.
pub proof fn written_forms_are_uuids(digits: Seq<char>)
    requires
        digits.len() == 32,
        forall|i: int|
            0 <= i < 32 ==> {
                let c = #[trigger] digits[i];
                '0' <= c <= '9' || 'a' <= c <= 'f' || 'A' <= c <= 'F'
            },
    ensures
        chunk_id::is_uuid(digits),
        chunk_id::is_uuid(hyphenated(digits)),
        chunk_id::is_uuid(seq!['{'] + hyphenated(digits) + seq!['}']),
        chunk_id::is_uuid("urn:uuid:"@ + hyphenated(digits)),
{
    let h = hyphenated(digits);
    assert(h.len() == 36);
    assert forall|i: int| 0 <= i < 36 implies if i == 8 || i == 13 || i == 18 || i == 23 {
        #[trigger] h[i] == '-'
    } else {
        chunk_id::is_hex_digit(h[i])
    } by {
        if i < 8 {
            assert(h[i] == digits[i]);
        } else if 8 < i < 13 {
            assert(h[i] == digits[i - 1]);
        } else if 13 < i < 18 {
            assert(h[i] == digits[i - 2]);
        } else if 18 < i < 23 {
            assert(h[i] == digits[i - 3]);
        } else if 23 < i {
            assert(h[i] == digits[i - 4]);
        }
    }
    assert(chunk_id::is_hyphenated(h));
    let braced = seq!['{'] + h + seq!['}'];
    assert(braced.subrange(1, 37) =~= h);
    reveal_strlit("urn:uuid:");
    let urn = "urn:uuid:"@ + h;
    assert(urn.subrange(9, 45) =~= h);
    assert(chunk_id::has_urn_prefix(urn));
}

/// A text of any other length is no UUID, and a UUID holds nothing but letters, digits, hyphens,
/// braces and colons.
pub proof fn uuids_are_plain(s: Seq<char>, i: int)
    requires
        chunk_id::is_uuid(s),
        0 <= i < s.len(),
    ensures
        s.len() == 32 || s.len() == 36 || s.len() == 38 || s.len() == 45,
        '0' <= s[i] <= '9' || 'a' <= s[i] <= 'z' || 'A' <= s[i] <= 'Z' || s[i] == '-' || s[i] == '{' || s[i] == '}'
            || s[i] == ':',
{
    if s.len() == 38 {
        if 1 <= i < 37 {
            assert(s.subrange(1, 37)[i - 1] == s[i]);
        }
    } else if s.len() == 45 {
        if 9 <= i {
            assert(s.subrange(9, 45)[i - 9] == s[i]);
        }
    }
}

/// An identifier can be stored under when it has one to 255 bytes, and stays in its directory when it
/// has no separator and no two dots in a row.
pub proof fn identifier_is_looked_at(id: &str, length: bool, plain: bool)
    requires
        call_ensures(chunk_id::has_valid_length, (id,), length),
        call_ensures(chunk_id::has_no_traversal, (id,), plain),
    ensures
        length <==> 1 <= encode_utf8(id@).len() <= 255,
        plain <==> forall|i: int|
            0 <= i < id@.len() ==> {
                &&& #[trigger] id@[i] != '/'
                &&& id@[i] != '\\'
                &&& id@[i] == '.' && i + 1 < id@.len() ==> id@[i + 1] != '.'
            },
{
    if id@.len() > 0 {
        char_is_scalar(id@[0]);
        encode_utf8_first_scalar(id@);
    } else {
        assert(id@ =~= Seq::<char>::empty());
    }
    if plain {
        assert forall|i: int| 0 <= i < id@.len() implies {
            &&& #[trigger] id@[i] != '/'
            &&& id@[i] != '\\'
            &&& id@[i] == '.' && i + 1 < id@.len() ==> id@[i + 1] != '.'
        } by {
            assert(id@.contains(id@[i]));
        }
    }
}

/// The questions about an amount are answered by its bits.
pub proof fn amount_is_looked_at(amount: Gib, zero: bool, positive: bool, large: bool, bytes: u64)
    requires
        call_ensures(Gib::is_zero, (amount,), zero),
        call_ensures(Gib::is_positive, (amount,), positive),
        call_ensures(Gib::exceeds_reasonable, (amount,), large),
        call_ensures(Gib::to_bytes, (amount,), bytes),
    ensures
        zero <==> amount.bits == 0 || amount.bits == 0x8000_0000_0000_0000,
        positive <==> 0 < amount.bits <= 0x7ff0_0000_0000_0000,
        large <==> 0x4130_0000_0000_0000 < amount.bits <= 0x7ff0_0000_0000_0000,
        bytes == amount.in_bytes(),
        !positive ==> bytes == 0,
        amount.bits == 0x7ff0_0000_0000_0000 ==> bytes == u64::MAX,
{
    amount.amounts_are_ordered_by_bits();
    if zero {
        vstd::arithmetic::power2::lemma_pow2_pos(1074);
        assert(0nat * vstd::arithmetic::power2::pow2(30) == 0);
        vstd::arithmetic::div_mod::lemma_basic_div(0, vstd::arithmetic::power2::pow2(1074) as int);
    }
}

} // verus!
