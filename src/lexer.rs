//! Identifiers and the splitting of a string into dash-separated tokens.

use vstd::prelude::*;

verus! {

// ---------------------------------------------------------------------------
// Lexical model

/// A character that may begin an identifier: an ASCII letter or `_`.
pub open spec fn is_ident_start(c: char) -> bool {
    ('a' <= c && c <= 'z') || ('A' <= c && c <= 'Z') || c == '_'
}

/// A character that may continue an identifier: also an ASCII digit.
pub open spec fn is_ident_char(c: char) -> bool {
    is_ident_start(c) || ('0' <= c && c <= '9')
}

/// `s` is one whole identifier.
pub open spec fn is_ident(s: Seq<char>) -> bool {
    &&& s.len() > 0
    &&& is_ident_start(s[0])
    &&& forall|i: int| 1 <= i < s.len() ==> is_ident_char(#[trigger] s[i])
}

/// `n` is the length of the identifier at the start of `s`: every character
/// before `n` continues it and the one at `n`, if any, does not.
pub open spec fn ident_end(s: Seq<char>, n: int) -> bool {
    &&& 1 <= n <= s.len()
    &&& is_ident_start(s[0])
    &&& forall|i: int| 1 <= i < n ==> is_ident_char(#[trigger] s[i])
    &&& (n == s.len() || !is_ident_char(s[n]))
}

fn is_ident_start_char(c: char) -> (r: bool)
    ensures
        r == is_ident_start(c),
{
    ('a' <= c && c <= 'z') || ('A' <= c && c <= 'Z') || c == '_'
}

fn is_ident_char_exec(c: char) -> (r: bool)
    ensures
        r == is_ident_char(c),
{
    is_ident_start_char(c) || ('0' <= c && c <= '9')
}

/// Splits the identifier at the start of `input` from the rest.
/// Returns `None`, consuming nothing, when `input` does not begin with a
/// letter or `_`.
pub fn ident(input: &str) -> (r: Option<(&str, &str)>)
    ensures
        r is None <==> !(input@.len() > 0 && is_ident_start(input@[0])),
        r matches Some((m, rest)) ==> {
            &&& ident_end(input@, m@.len() as int)
            &&& m@ == input@.take(m@.len() as int)
            &&& rest@ == input@.skip(m@.len() as int)
        },
{
    let n = input.unicode_len();
    if n == 0 || !is_ident_start_char(input.get_char(0)) {
        return None;
    }
    let mut i: usize = 1;
    while i < n && is_ident_char_exec(input.get_char(i))
        invariant
            n == input@.len(),
            1 <= i <= n,
            forall|j: int| 1 <= j < i ==> is_ident_char(#[trigger] input@[j]),
        decreases n - i,
    {
        i += 1;
    }
    let m = input.substring_char(0, i);
    let rest = input.substring_char(i, n);
    Some((m, rest))
}

/// Character-wise string equality.
pub(crate) fn str_eq(a: &str, b: &str) -> (r: bool)
    ensures
        r == (a@ == b@),
{
    let n = a.unicode_len();
    let m = b.unicode_len();
    if n != m {
        return false;
    }
    let mut i: usize = 0;
    while i < n
        invariant
            n == a@.len(),
            m == b@.len(),
            n == m,
            i <= n,
            forall|j: int| 0 <= j < i ==> a@[j] == b@[j],
        decreases n - i,
    {
        if a.get_char(i) != b.get_char(i) {
            return false;
        }
        i += 1;
    }
    assert(a@ =~= b@);
    true
}

// ---------------------------------------------------------------------------
// Splitting on dashes

/// Splits `s` on `-`, given the tokens already closed and the one being read.
pub open spec fn split_from(s: Seq<char>, done: Seq<Seq<char>>, cur: Seq<char>) -> Seq<Seq<char>>
    decreases s.len(),
{
    if s.len() == 0 {
        done.push(cur)
    } else if s[0] == '-' {
        split_from(s.drop_first(), done.push(cur), Seq::empty())
    } else {
        split_from(s.drop_first(), done, cur.push(s[0]))
    }
}

/// The tokens of `s` between dashes, empty ones included.
pub open spec fn dash_split(s: Seq<char>) -> Seq<Seq<char>> {
    split_from(s, Seq::empty(), Seq::empty())
}

/// The character sequences of a list of string slices.
pub open spec fn views(v: Seq<&str>) -> Seq<Seq<char>> {
    v.map_values(|t: &str| t@)
}

pub(crate) fn split_dash(s: &str) -> (r: Vec<&str>)
    ensures
        views(r@) == dash_split(s@),
{
    let n = s.unicode_len();
    let mut out: Vec<&str> = Vec::new();
    let mut start: usize = 0;
    let mut i: usize = 0;
    assert(s@.subrange(0, n as int) =~= s@);
    assert(s@.subrange(0, 0) =~= Seq::<char>::empty());
    assert(views(out@) =~= Seq::<Seq<char>>::empty());
    while i < n
        invariant
            n == s@.len(),
            start <= i <= n,
            split_from(s@.subrange(i as int, n as int), views(out@), s@.subrange(start as int, i as int))
                == dash_split(s@),
        decreases n - i,
    {
        let ghost rest = s@.subrange(i as int, n as int);
        assert(rest[0] == s@[i as int]);
        assert(rest.drop_first() =~= s@.subrange(i + 1, n as int));
        if s.get_char(i) == '-' {
            let tok = s.substring_char(start, i);
            let ghost before = views(out@);
            out.push(tok);
            assert(views(out@) =~= before.push(tok@));
            start = i + 1;
            assert(s@.subrange(start as int, i + 1) =~= Seq::<char>::empty());
        } else {
            assert(s@.subrange(start as int, i + 1) =~= s@.subrange(start as int, i as int).push(s@[i as int]));
        }
        i += 1;
    }
    let tok = s.substring_char(start, n);
    let ghost before = views(out@);
    out.push(tok);
    assert(views(out@) =~= before.push(tok@));
    assert(s@.subrange(n as int, n as int) =~= Seq::<char>::empty());
    out
}

pub(crate) fn is_ident_token(tok: &str) -> (r: bool)
    ensures
        r == is_ident(tok@),
{
    match ident(tok) {
        None => false,
        Some((m, rest)) => {
            assert(tok@ =~= m@ + rest@);
            rest.unicode_len() == 0
        },
    }
}

/// `x` holds no dash.
pub open spec fn no_dash(x: Seq<char>) -> bool {
    forall|i: int| 0 <= i < x.len() ==> x[i] != '-'
}

pub(crate) proof fn lemma_ident_no_dash(x: Seq<char>)
    requires
        is_ident(x),
    ensures
        no_dash(x),
{
    assert forall|i: int| 0 <= i < x.len() implies x[i] != '-' by {
        if i > 0 {
            assert(is_ident_char(x[i]));
        }
    }
}

/// Reading a dash-free stretch extends the current token.
proof fn lemma_split_token(x: Seq<char>, r: Seq<char>, done: Seq<Seq<char>>, cur: Seq<char>)
    requires
        no_dash(x),
    ensures
        split_from(x + r, done, cur) == split_from(r, done, cur + x),
    decreases x.len(),
{
    if x.len() == 0 {
        assert(x + r =~= r);
        assert(cur + x =~= cur);
    } else {
        let y = x.drop_first();
        assert((x + r)[0] == x[0]);
        assert((x + r).drop_first() =~= y + r);
        lemma_split_token(y, r, done, cur.push(x[0]));
        assert(cur.push(x[0]) + y =~= cur + x);
    }
}

/// Reading a dash closes the current token.
proof fn lemma_split_dash(r: Seq<char>, done: Seq<Seq<char>>, cur: Seq<char>)
    ensures
        split_from(seq!['-'] + r, done, cur) == split_from(r, done.push(cur), Seq::empty()),
{
    assert((seq!['-'] + r)[0] == '-');
    assert((seq!['-'] + r).drop_first() =~= r);
}

/// Reading a last dash-free stretch ends the split.
proof fn lemma_split_last(x: Seq<char>, done: Seq<Seq<char>>)
    requires
        no_dash(x),
    ensures
        split_from(x, done, Seq::empty()) == done.push(x),
{
    lemma_split_token(x, Seq::empty(), done, Seq::empty());
    assert(x + Seq::<char>::empty() =~= x);
    assert(Seq::<char>::empty() + x =~= x);
}

proof fn lemma_split_step(x: Seq<char>, r: Seq<char>, done: Seq<Seq<char>>)
    requires
        no_dash(x),
    ensures
        split_from(x + (seq!['-'] + r), done, Seq::empty()) == split_from(r, done.push(x), Seq::empty()),
{
    lemma_split_token(x, seq!['-'] + r, done, Seq::empty());
    assert(Seq::<char>::empty() + x =~= x);
    lemma_split_dash(r, done, x);
}

pub(crate) proof fn lemma_split3(a: Seq<char>, b: Seq<char>, c: Seq<char>)
    requires
        no_dash(a),
        no_dash(b),
        no_dash(c),
    ensures
        dash_split(a + seq!['-'] + b + seq!['-'] + c) == seq![a, b, c],
{
    let s = a + seq!['-'] + b + seq!['-'] + c;
    assert(s =~= a + (seq!['-'] + (b + (seq!['-'] + c))));
    let e = Seq::<Seq<char>>::empty();
    lemma_split_step(a, b + (seq!['-'] + c), e);
    lemma_split_step(b, c, e.push(a));
    lemma_split_last(c, e.push(a).push(b));
    assert(e.push(a).push(b).push(c) =~= seq![a, b, c]);
}

pub(crate) proof fn lemma_split4(a: Seq<char>, b: Seq<char>, c: Seq<char>, d: Seq<char>)
    requires
        no_dash(a),
        no_dash(b),
        no_dash(c),
        no_dash(d),
    ensures
        dash_split(a + seq!['-'] + b + seq!['-'] + c + seq!['-'] + d) == seq![a, b, c, d],
{
    let s = a + seq!['-'] + b + seq!['-'] + c + seq!['-'] + d;
    assert(s =~= a + (seq!['-'] + (b + (seq!['-'] + (c + (seq!['-'] + d))))));
    let e = Seq::<Seq<char>>::empty();
    lemma_split_step(a, b + (seq!['-'] + (c + (seq!['-'] + d))), e);
    lemma_split_step(b, c + (seq!['-'] + d), e.push(a));
    lemma_split_step(c, d, e.push(a).push(b));
    lemma_split_last(d, e.push(a).push(b).push(c));
    assert(e.push(a).push(b).push(c).push(d) =~= seq![a, b, c, d]);
}

} // verus!
