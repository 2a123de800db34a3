//! Small, fully specified text utilities shared by the exporters and the
//! request/response mappers.
use vstd::prelude::*;

verus! {

/// Appends one character to a string (std's `String::push`).
///
/// Trusted: `push` adds `c` at the end and changes nothing else, as std's
/// documentation states.
#[verifier::external_body]
pub(crate) fn push_char(s: &mut String, c: char)
    ensures
        final(s)@ == old(s)@.push(c),
{
    s.push(c);
}

/// The decimal digit character for `d` (taken modulo ten).
pub open spec fn digit_char(d: nat) -> char {
    let d = d % 10;
    if d == 0 { '0' }
    else if d == 1 { '1' }
    else if d == 2 { '2' }
    else if d == 3 { '3' }
    else if d == 4 { '4' }
    else if d == 5 { '5' }
    else if d == 6 { '6' }
    else if d == 7 { '7' }
    else if d == 8 { '8' }
    else { '9' }
}

/// The decimal representation of `n`, without sign or leading zeros
/// (what `Display` prints for an unsigned integer).
pub open spec fn decimal(n: nat) -> Seq<char>
    decreases n,
{
    if n < 10 {
        seq![digit_char(n)]
    } else {
        decimal(n / 10).push(digit_char(n % 10))
    }
}

fn digit(d: u64) -> (c: char)
    requires
        d < 10,
    ensures
        c == digit_char(d as nat),
{
    if d == 0 { '0' }
    else if d == 1 { '1' }
    else if d == 2 { '2' }
    else if d == 3 { '3' }
    else if d == 4 { '4' }
    else if d == 5 { '5' }
    else if d == 6 { '6' }
    else if d == 7 { '7' }
    else if d == 8 { '8' }
    else { '9' }
}

/// Writes `n` in decimal, as `n.to_string()` does.
pub fn decimal_text(n: u64) -> (r: String)
    ensures
        r@ == decimal(n as nat),
    decreases n,
{
    if n < 10 {
        let mut s = String::new();
        push_char(&mut s, digit(n));
        s
    } else {
        let mut s = decimal_text(n / 10);
        push_char(&mut s, digit(n % 10));
        s
    }
}

/// `s` cut to its first `max` characters followed by `"..."` when it is
/// longer than `max` characters; `s` itself otherwise.
pub open spec fn truncated(s: Seq<char>, max: nat) -> Seq<char> {
    if s.len() <= max {
        s
    } else {
        s.take(max as int) + "..."@
    }
}

/// Truncate `s` to `max_chars` characters, appending "..." if longer.
pub fn truncate(s: &str, max_chars: usize) -> (r: String)
    ensures
        r@ == truncated(s@, max_chars as nat),
{
    let n = s.unicode_len();
    if n <= max_chars {
        String::from_str(s)
    } else {
        let mut t = String::from_str(s.substring_char(0, max_chars));
        t.append("...");
        t
    }
}

/// The elements of `items` with `sep` placed between neighbours
/// (what `[String]::join` builds).
pub open spec fn joined(items: Seq<Seq<char>>, sep: Seq<char>) -> Seq<char>
    decreases items.len(),
{
    if items.len() == 0 {
        seq![]
    } else if items.len() == 1 {
        items[0]
    } else {
        joined(items.drop_last(), sep) + sep + items.last()
    }
}

/// Joins `items` with `sep` between neighbours.
pub fn join_text(items: &Vec<String>, sep: &str) -> (r: String)
    ensures
        r@ == joined(items.deep_view(), sep@),
{
    let mut r = String::new();
    let n = items.len();
    let ghost all = items.deep_view();
    for i in 0..n
        invariant
            n == items.len(),
            all == items.deep_view(),
            r@ == joined(all.take(i as int), sep@),
    {
        proof {
            assert(all.take(i + 1).drop_last() =~= all.take(i as int));
            assert(all.take(i + 1).last() == items[i as int]@);
        }
        if i > 0 {
            r.append(sep);
        }
        r.append(items[i].as_str());
        proof {
            if i == 0 {
                assert(r@ =~= joined(all.take(1), sep@));
            }
        }
    }
    proof { assert(all.take(n as int) =~= all); }
    r
}

/// A newline becomes a space; every other character is kept.
pub open spec fn newline_to_space(c: char) -> char {
    if c == '\n' { ' ' } else { c }
}

/// `s` with every newline replaced by a space (as `s.replace('\n', " ")`).
pub open spec fn flattened(s: Seq<char>) -> Seq<char> {
    s.map_values(|c: char| newline_to_space(c))
}

/// Replaces every newline in `s` by a space.
pub fn flatten_newlines(s: &str) -> (r: String)
    ensures
        r@ == flattened(s@),
{
    let mut r = String::new();
    for c in it: s.chars()
        invariant
            it.seq() == s@,
            r@ == flattened(s@.take(it.index() as int)),
    {
        let d = if c == '\n' { ' ' } else { c };
        proof {
            assert(s@.take(it.index() + 1) =~= s@.take(it.index() as int).push(c));
        }
        push_char(&mut r, d);
        proof {
            assert(flattened(s@.take(it.index() + 1)) =~= flattened(s@.take(it.index() as int)).push(d));
        }
    }
    proof { assert(s@.take(s@.len() as int) =~= s@); }
    r
}

/// What `Display` prints for a `bool`.
pub open spec fn bool_word(b: bool) -> Seq<char> {
    if b { "true"@ } else { "false"@ }
}

/// Writes `b` as `b.to_string()` does.
pub fn bool_text(b: bool) -> (r: String)
    ensures
        r@ == bool_word(b),
{
    if b { String::from_str("true") } else { String::from_str("false") }
}

/// The text of an optional value, or `fallback` when it is absent
/// (as `opt.as_deref().unwrap_or(fallback)`).
pub open spec fn or_text(o: Option<Seq<char>>, fallback: Seq<char>) -> Seq<char> {
    match o {
        Some(s) => s,
        None => fallback,
    }
}

/// Copies the text of `o`, or `fallback` when `o` is `None`.
pub fn text_or(o: &Option<String>, fallback: &str) -> (r: String)
    ensures
        r@ == or_text(o.deep_view(), fallback@),
{
    match o {
        Some(s) => s.clone(),
        None => String::from_str(fallback),
    }
}

/// Truncation keeps at most `max` characters and adds at most three: a text
/// of at most `max` characters is kept whole, a longer one becomes its first
/// `max` characters followed by three dots.
pub proof fn lemma_truncated_length(s: Seq<char>, max: nat)
    ensures
        truncated(s, max).len() <= max + 3,
        s.len() <= max ==> truncated(s, max) == s,
        s.len() > max ==> truncated(s, max).take(max as int) == s.take(max as int),
        s.len() > max ==> truncated(s, max) == s.take(max as int) + seq!['.', '.', '.'],
{
    reveal_strlit("...");
    if s.len() > max {
        assert((s.take(max as int) + "..."@).take(max as int) =~= s.take(max as int));
        assert("..."@ =~= seq!['.', '.', '.']);
    }
}

/// The number a digit character stands for.
pub open spec fn digit_value(c: char) -> int {
    if c == '0' { 0 }
    else if c == '1' { 1 }
    else if c == '2' { 2 }
    else if c == '3' { 3 }
    else if c == '4' { 4 }
    else if c == '5' { 5 }
    else if c == '6' { 6 }
    else if c == '7' { 7 }
    else if c == '8' { 8 }
    else if c == '9' { 9 }
    else { -1 }
}

/// The number a text of decimal digits stands for, read left to right.
pub open spec fn decimal_value(s: Seq<char>) -> int
    decreases s.len(),
{
    if s.len() == 0 { 0 } else { decimal_value(s.drop_last()) * 10 + digit_value(s.last()) }
}

/// The decimal text of `n` is made of digits, has no leading zero (but for
/// zero itself), and reads back as `n`.
pub proof fn decimal_reads_back(n: nat)
    ensures
        decimal(n).len() >= 1,
        forall|k: int| 0 <= k < decimal(n).len() ==> 0 <= #[trigger] digit_value(decimal(n)[k]) <= 9,
        n >= 10 ==> decimal(n)[0] != '0',
        decimal_value(decimal(n)) == n,
    decreases n,
{
    if n >= 10 {
        decimal_reads_back(n / 10);
        let d = decimal(n / 10);
        assert(decimal(n) == d.push(digit_char(n % 10)));
        assert(decimal(n).drop_last() =~= d);
        assert forall|k: int| 0 <= k < decimal(n).len() implies 0 <= #[trigger] digit_value(decimal(n)[k]) <= 9 by {
            if k < d.len() { assert(decimal(n)[k] == d[k]); }
        }
        assert(decimal(n)[0] == d[0]);
        if n / 10 < 10 {
            assert(n / 10 >= 1);
        }
        let m: nat = n % 10;
        assert(m % 10 == m);
        assert(digit_value(digit_char(m)) == m);
        assert(decimal_value(decimal(n)) == decimal_value(d) * 10 + m);
        assert((n / 10) * 10 + m == n);
    } else {
        assert(n % 10 == n);
        assert(digit_value(digit_char(n)) == n);
        assert(decimal(n).drop_last() =~= Seq::<char>::empty());
        assert(decimal_value(Seq::<char>::empty()) == 0);
        assert(decimal_value(decimal(n)) == decimal_value(decimal(n).drop_last()) * 10 + digit_value(decimal(n).last()));
    }
}

/// Newlines become spaces and every other character is kept, one for one.
pub proof fn flattened_replaces_only_newlines(s: Seq<char>)
    ensures
        flattened(s).len() == s.len(),
        forall|k: int| 0 <= k < s.len() ==> #[trigger] flattened(s)[k] == if s[k] == '\n' { ' ' } else { s[k] },
{
}

/// Joining two non-empty lists is joining each and putting the separator
/// between the two results; a single item is joined as itself.
pub proof fn joined_splits(a: Seq<Seq<char>>, b: Seq<Seq<char>>, sep: Seq<char>)
    requires
        a.len() > 0,
        b.len() > 0,
    ensures
        joined(a + b, sep) == joined(a, sep) + sep + joined(b, sep),
        joined(seq![b[0]], sep) == b[0],
        joined(Seq::<Seq<char>>::empty(), sep).len() == 0,
    decreases b.len(),
{
    if b.len() == 1 {
        assert((a + b).drop_last() =~= a);
        assert(seq![b[0]][0] == b[0]);
    } else {
        joined_splits(a, b.drop_last(), sep);
        assert((a + b).drop_last() =~= a + b.drop_last());
        assert((a + b).last() == b.last());
        assert(joined(a, sep) + sep + (joined(b.drop_last(), sep) + sep + b.last())
            =~= joined(a, sep) + sep + joined(b.drop_last(), sep) + sep + b.last());
        assert(seq![b[0]][0] == b[0]);
    }
}

} // verus!

verus! {

/// Whether two texts are equal, character for character.
pub fn text_eq(a: &str, b: &str) -> (r: bool)
    ensures
        r == (a@ == b@),
{
    String::from_str(a) == String::from_str(b)
}

} // verus!
