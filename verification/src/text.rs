//! Text building blocks: decimal numerals, ASCII filtering, file stems and
//! path components.

use vstd::prelude::*;
use vstd::string::*;

verus! {

/// `String::push`: the string gains `c` at its end and is otherwise
/// unchanged.
#[verifier::external_body]
pub(crate) fn push_char(s: &mut String, c: char)
    ensures
        final(s)@ == old(s)@.push(c),
{
    s.push(c);
}

/// The numeral character of a decimal digit.
pub open spec fn digit_char(d: nat) -> char {
    if d == 0 { '0' }
    else if d == 1 { '1' }
    else if d == 2 { '2' }
    else if d == 3 { '3' }
    else if d == 4 { '4' }
    else if d == 5 { '5' }
    else if d == 6 { '6' }
    else if d == 7 { '7' }
    else if d == 8 { '8' }
    else { '9' }
}

/// The decimal numeral of `n`, most significant digit first, without
/// leading zeros.
pub open spec fn decimal(n: nat) -> Seq<char>
    decreases n,
{
    if n < 10 {
        seq![digit_char(n)]
    } else {
        decimal(n / 10).push(digit_char(n % 10))
    }
}

fn digit(d: u64) -> (c: char)
    requires
        d < 10,
    ensures
        c == digit_char(d as nat),
{
    match d {
        0 => '0',
        1 => '1',
        2 => '2',
        3 => '3',
        4 => '4',
        5 => '5',
        6 => '6',
        7 => '7',
        8 => '8',
        _ => '9',
    }
}

/// Appends the decimal numeral of `n` to `s`.
pub fn push_decimal(s: &mut String, n: u64)
    ensures
        final(s)@ == old(s)@ + decimal(n as nat),
    decreases n,
{
    if n >= 10 {
        push_decimal(s, n / 10);
    }
    push_char(s, digit(n % 10));
    proof {
        if n >= 10 {
            assert(decimal(n as nat) == decimal((n / 10) as nat).push(digit_char((n % 10) as nat)));
        }
    }
}

/// The decimal numeral of `n` as a new string.
pub fn decimal_string(n: u64) -> (s: String)
    ensures
        s@ == decimal(n as nat),
{
    let mut s = String::new();
    push_decimal(&mut s, n);
    proof {
        assert(Seq::<char>::empty() + decimal(n as nat) =~= decimal(n as nat));
    }
    s
}


/// A character in the 7-bit ASCII range.
pub open spec fn is_ascii_char(c: char) -> bool {
    (c as u32) < 128
}

/// The characters of `s` that are ASCII, in their order.
pub open spec fn ascii_part(s: Seq<char>) -> Seq<char> {
    s.filter(|c: char| is_ascii_char(c))
}

/// Keeps the ASCII characters of `s` and drops all others.
pub fn ascii_only(s: &str) -> (r: String)
    ensures
        r@ == ascii_part(s@),
{
    let n = s.unicode_len();
    let mut r = String::new();
    let ghost pred = |c: char| is_ascii_char(c);
    for i in 0..n
        invariant
            n == s@.len(),
            pred == (|c: char| is_ascii_char(c)),
            r@ == s@.take(i as int).filter(pred),
    {
        let c = s.get_char(i);
        proof {
            assert(pred(c) == ((c as u32) < 128));
            assert(s@.take(i + 1) =~= s@.take(i as int).push(c));
            s@.take(i as int).lemma_filter_push(c, pred);
        }
        if (c as u32) < 128 {
            push_char(&mut r, c);
        }
    }
    proof {
        assert(s@.take(n as int) =~= s@);
    }
    r
}

/// `stem` is what stands before the last `'.'` of `name`: all of `name`
/// when it holds no `'.'`.
pub open spec fn is_stem_of(stem: Seq<char>, name: Seq<char>) -> bool {
    if name.contains('.') {
        &&& stem.len() < name.len()
        &&& stem == name.take(stem.len() as int)
        &&& name[stem.len() as int] == '.'
        &&& !name.skip(stem.len() + 1int).contains('.')
    } else {
        stem == name
    }
}

/// Removes a file name's extension: cuts it at its last `'.'`, dropping
/// the dot and all after it.
pub fn strip_extension(name: &str) -> (r: String)
    ensures
        is_stem_of(r@, name@),
{
    let n = name.unicode_len();
    let mut k: usize = n;
    while k > 0 && name.get_char(k - 1) != '.'
        invariant
            n == name@.len(),
            k <= n,
            forall|j: int| k <= j < n ==> name@[j] != '.',
        decreases k,
    {
        k = k - 1;
    }
    if k == 0 {
        let r = String::from_str(name);
        proof {
            if name@.contains('.') {
                let j = choose|j: int| 0 <= j < name@.len() && name@[j] == '.';
                assert(name@[j] == '.');
            }
        }
        r
    } else {
        let r = String::from_str(name.substring_char(0, k - 1));
        proof {
            assert(name@[k - 1] == '.');
            assert(name@.contains('.'));
            if name@.skip(k as int).contains('.') {
                let j = choose|j: int| 0 <= j < name@.skip(k as int).len() && name@.skip(k as int)[j] == '.';
                assert(name@[k + j] == '.');
            }
        }
        r
    }
}

/// `last` is the final `'/'`-separated component of `path`: what follows
/// its last `'/'`, or all of `path` when it holds none.
pub open spec fn is_last_component_of(last: Seq<char>, path: Seq<char>) -> bool {
    &&& last.len() <= path.len()
    &&& last == path.skip(path.len() - last.len())
    &&& !last.contains('/')
    &&& (last.len() == path.len() || path[path.len() - last.len() - 1] == '/')
}

/// The final component of a `'/'`-separated path: the file name of the
/// paths that this library builds and lists.
pub fn last_component(path: &str) -> (r: String)
    ensures
        is_last_component_of(r@, path@),
{
    let n = path.unicode_len();
    let mut k: usize = n;
    while k > 0 && path.get_char(k - 1) != '/'
        invariant
            n == path@.len(),
            k <= n,
            forall|j: int| k <= j < n ==> path@[j] != '/',
        decreases k,
    {
        k = k - 1;
    }
    let r = String::from_str(path.substring_char(k, n));
    proof {
        assert(r@ =~= path@.skip(k as int));
        if r@.contains('/') {
            let j = choose|j: int| 0 <= j < r@.len() && r@[j] == '/';
            assert(path@[k + j] == '/');
        }
    }
    r
}

/// `parent` is what stands before the last `'/'` of `path`, or nothing
/// when `path` holds no `'/'`.
pub open spec fn is_parent_of(parent: Seq<char>, path: Seq<char>) -> bool {
    if path.contains('/') {
        exists|last: Seq<char>| is_last_component_of(last, path) && path == parent + "/"@ + last
    } else {
        parent.len() == 0
    }
}

/// The directory part of a `'/'`-separated path: what stands before its
/// last `'/'`.
pub fn parent_path(path: &str) -> (r: String)
    ensures
        is_parent_of(r@, path@),
{
    let last = last_component(path);
    let n = path.unicode_len();
    let k = last.as_str().unicode_len();
    if k == n {
        assert(!path@.contains('/')) by {
            assert(last@ == path@);
        }
        String::new()
    } else {
        let r = String::from_str(path.substring_char(0, n - k - 1));
        proof {
            reveal_strlit("/");
            assert(path@ =~= r@ + "/"@ + last@);
            assert(path@[n - k - 1] == '/');
        }
        r
    }
}

/// Every numeral has at least one digit.
pub proof fn lemma_decimal_nonempty(n: nat)
    ensures
        decimal(n).len() >= 1,
    decreases n,
{
    if n >= 10 {
        lemma_decimal_nonempty(n / 10);
    }
}

/// Distinct numbers have distinct decimal numerals.
pub proof fn lemma_decimal_injective(a: nat, b: nat)
    requires
        decimal(a) == decimal(b),
    ensures
        a == b,
    decreases a,
{
    if a < 10 && b < 10 {
        assert(decimal(a)[0] == digit_char(a));
        assert(decimal(b)[0] == digit_char(b));
        assert(decimal(a)[0] == decimal(b)[0]);
    } else if a < 10 {
        lemma_decimal_nonempty(b / 10);
        assert(decimal(b).len() >= 2);
    } else if b < 10 {
        lemma_decimal_nonempty(a / 10);
        assert(decimal(a).len() >= 2);
    } else {
        let da = decimal(a / 10);
        let db = decimal(b / 10);
        assert(decimal(a).last() == digit_char(a % 10));
        assert(decimal(b).last() == digit_char(b % 10));
        assert(da =~= decimal(a).drop_last());
        assert(db =~= decimal(b).drop_last());
        assert(a % 10 == b % 10);
        lemma_decimal_injective(a / 10, b / 10);
        assert(a == 10 * (a / 10) + a % 10);
        assert(b == 10 * (b / 10) + b % 10);
    }
}


/// The number that a string of decimal digits reads as.
pub open spec fn numeral_value(s: Seq<char>) -> int
    decreases s.len(),
{
    if s.len() == 0 {
        0
    } else {
        numeral_value(s.drop_last()) * 10 + ((s.last() as u32) - 48)
    }
}

/// A decimal numeral is made of the ASCII digits `'0'` to `'9'` (character
/// codes 48 to 57), reads back as the number it was written for, and has
/// no leading zero.
pub proof fn lemma_decimal_reads_back(n: nat)
    ensures
        forall|i: int| 0 <= i < decimal(n).len() ==> 48 <= (#[trigger] decimal(n)[i]) as u32 <= 57,
        numeral_value(decimal(n)) == n,
        n > 0 ==> decimal(n)[0] != '0',
        n < 10 ==> decimal(n) == seq![(48 + n) as char],
    decreases n,
{
    if n < 10 {
        assert(decimal(n)[0] == digit_char(n));
        assert(digit_char(n) as u32 == 48 + n);
        assert(decimal(n).drop_last() =~= Seq::<char>::empty());
        assert(decimal(n) =~= seq![(48 + n) as char]);
        assert(numeral_value(decimal(n).drop_last()) == 0);
        assert(numeral_value(decimal(n)) == numeral_value(decimal(n).drop_last()) * 10 + ((decimal(n).last() as u32) - 48));
    } else {
        lemma_decimal_reads_back(n / 10);
        lemma_decimal_nonempty(n / 10);
        let head = decimal(n / 10);
        let d = digit_char(n % 10);
        assert(d as u32 == 48 + n % 10);
        assert(decimal(n) == head.push(d));
        assert(decimal(n).drop_last() =~= head);
        assert(decimal(n).last() == d);
        assert(decimal(n)[0] == head[0]);
        assert forall|i: int| 0 <= i < decimal(n).len() implies 48 <= (#[trigger] decimal(n)[i]) as u32 <= 57 by {
            if i < head.len() {
                assert(decimal(n)[i] == head[i]);
            }
        }
        assert(numeral_value(decimal(n)) == numeral_value(head) * 10 + ((d as u32) - 48));
        assert(n == (n / 10) * 10 + n % 10);
    }
}

/// The ASCII part of a string keeps every character whose code is below
/// 128 and only those, in order: it is the string itself when all its
/// characters are ASCII, it holds only ASCII characters, a single character
/// is kept exactly when its code is below 128, and the part of a
/// concatenation is the concatenation of the parts.
pub proof fn lemma_ascii_part_keeps_ascii(s: Seq<char>, t: Seq<char>, c: char)
    ensures
        (forall|i: int| 0 <= i < s.len() ==> (#[trigger] s[i] as u32) < 128) ==> ascii_part(s) == s,
        forall|i: int| 0 <= i < ascii_part(s).len() ==> (#[trigger] ascii_part(s)[i] as u32) < 128,
        ascii_part(seq![c]) == if (c as u32) < 128 { seq![c] } else { Seq::<char>::empty() },
        ascii_part(s + t) == ascii_part(s) + ascii_part(t),
    decreases s.len(),
{
    let pred = |c: char| is_ascii_char(c);
    broadcast use vstd::seq_lib::group_filter_ensures;
    reveal(Seq::filter);
    assert(Seq::<char>::empty().filter(pred) =~= Seq::<char>::empty());
    assert(seq![c] =~= Seq::<char>::empty().push(c));
    Seq::<char>::empty().lemma_filter_push(c, pred);
    Seq::filter_distributes_over_add(s, t, pred);
    if s.len() > 0 {
        lemma_ascii_part_keeps_ascii(s.drop_last(), t, c);
        if forall|i: int| 0 <= i < s.len() ==> (#[trigger] s[i] as u32) < 128 {
            assert forall|i: int| 0 <= i < s.drop_last().len() implies (#[trigger] s.drop_last()[i] as u32) < 128 by {
                assert(s.drop_last()[i] == s[i]);
            }
            assert(s.drop_last().push(s.last()) =~= s);
        }
    }
}

/// A file stem is what stands before the last `'.'` of the name: when the
/// name holds a `'.'`, the stem is the name up to (and without) its last
/// `'.'`, whatever the letters of the extension; otherwise it is the whole
/// name. Only one stem fits a name.
pub proof fn lemma_stem_drops_extension(stem: Seq<char>, other: Seq<char>, name: Seq<char>)
    requires
        is_stem_of(stem, name),
    ensures
        name.contains('.') ==> {
            &&& stem.len() < name.len()
            &&& name[stem.len() as int] == '.'
            &&& stem == name.subrange(0, stem.len() as int)
            &&& forall|j: int| stem.len() < j < name.len() ==> name[j] != '.'
        },
        !name.contains('.') ==> stem == name,
        is_stem_of(other, name) ==> other == stem,
{
    if name.contains('.') {
        assert forall|j: int| stem.len() < j < name.len() implies name[j] != '.' by {
            if name[j] == '.' {
                assert(name.skip(stem.len() + 1int)[j - stem.len() - 1] == '.');
            }
        }
        if is_stem_of(other, name) {
            if other.len() < stem.len() {
                assert(name.skip(other.len() + 1int)[stem.len() - other.len() - 1] == '.');
            } else if stem.len() < other.len() {
                assert(name.skip(stem.len() + 1int)[other.len() - stem.len() - 1] == '.');
            }
            assert(other =~= stem);
        }
    }
}


/// The last component of a path is what follows its last `'/'` (all of it
/// when it has none), and only one fits a path.
pub proof fn lemma_last_component_after_last_slash(last: Seq<char>, other: Seq<char>, path: Seq<char>)
    requires
        is_last_component_of(last, path),
    ensures
        path.contains('/') ==> {
            &&& last.len() < path.len()
            &&& path[path.len() - last.len() - 1] == '/'
            &&& last == path.subrange(path.len() - last.len(), path.len() as int)
            &&& forall|j: int| path.len() - last.len() <= j < path.len() ==> path[j] != '/'
        },
        !path.contains('/') ==> last == path,
        is_last_component_of(other, path) ==> other == last,
{
    if !path.contains('/') {
        if last.len() < path.len() {
            assert(path[path.len() - last.len() - 1] == '/');
        }
        assert(last =~= path);
    } else {
        if last.len() == path.len() {
            let j = choose|j: int| 0 <= j < path.len() && path[j] == '/';
            assert(last[j] == '/');
        }
        assert forall|j: int| path.len() - last.len() <= j < path.len() implies path[j] != '/' by {
            assert(last[j - (path.len() - last.len())] == path[j]);
        }
    }
    if is_last_component_of(other, path) {
        if other.len() < last.len() {
            assert(last[last.len() - other.len() - 1] == '/');
        } else if last.len() < other.len() {
            assert(other[other.len() - last.len() - 1] == '/');
        }
        assert(other =~= last);
    }
}

} // verus!
