//! Identities: the strings under which widgets and containers are
//! remembered, how a scope names what is declared in it, and how the
//! entries that belong to a scope are told from the rest.

use vstd::prelude::*;
use vstd::string::StringExecFns;
use vstd::string::StrSliceExecFns;

verus! {

/// The mark between the id of a scope and the number of a widget in it.
pub open spec fn widget_mark() -> Seq<char> {
    seq!['-', '-', '-', '-']
}

/// The mark between the ids of a scope and of a scope within it.
pub open spec fn scope_mark() -> Seq<char> {
    seq!['|', '|']
}

/// The mark between the two copies of a container's id in its identity.
pub open spec fn container_mark() -> Seq<char> {
    seq!['!', '!']
}

/// The character for the digit `d`.
pub open spec fn digit(d: nat) -> char
    recommends
        d < 10,
{
    ((48 + d) as u8) as char
}

/// The number `n` written in decimal, without leading zeros.
pub open spec fn decimal(n: nat) -> Seq<char>
    decreases n,
{
    if n < 10 {
        seq![digit(n)]
    } else {
        decimal(n / 10).push(digit(n % 10))
    }
}

/// The identity of widget number `counter` of the scope `scope`.
pub open spec fn widget_id(scope: Seq<char>, counter: nat) -> Seq<char> {
    scope + widget_mark() + decimal(counter)
}

/// The identity of the container `id` declared in the scope `scope`.
pub open spec fn container_key(scope: Seq<char>, id: Seq<char>) -> Seq<char> {
    scope + scope_mark() + id + container_mark() + id
}

/// The id of the scope that the container `id` opens inside `scope`.
pub open spec fn child_scope(scope: Seq<char>, id: Seq<char>) -> Seq<char> {
    scope + scope_mark() + id
}

/// Whether a scope mark starts at position `i` of `s`.
pub open spec fn mark_at(s: Seq<char>, i: int) -> bool {
    0 <= i && i + 1 < s.len() && s[i] == '|' && s[i + 1] == '|'
}

/// How many scope marks `s` holds from position `from` on, read from left
/// to right without overlap.
pub open spec fn marks_from(s: Seq<char>, from: int) -> nat
    decreases s.len() - from,
{
    if from < 0 || from + 1 >= s.len() {
        0
    } else if mark_at(s, from) {
        1 + marks_from(s, from + 2)
    } else {
        marks_from(s, from + 1)
    }
}

/// The pieces between the scope marks of `s`, starting at position `from`
/// with `piece` already read.
pub open spec fn pieces_from(s: Seq<char>, from: int, piece: Seq<char>) -> Seq<Seq<char>>
    decreases s.len() - from,
{
    if from < 0 || from >= s.len() {
        seq![piece]
    } else if mark_at(s, from) {
        seq![piece] + pieces_from(s, from + 2, Seq::empty())
    } else {
        pieces_from(s, from + 1, piece.push(s[from]))
    }
}

/// The pieces between the scope marks of `s`: one more than there are
/// marks.
pub open spec fn pieces(s: Seq<char>) -> Seq<Seq<char>> {
    pieces_from(s, 0, Seq::empty())
}

/// Whether `key` names something declared in the scope `scope` or in a
/// scope directly within it: it begins with the scope's id, and what
/// follows holds at most one scope mark.
pub open spec fn is_inner_key(key: Seq<char>, scope: Seq<char>) -> bool {
    &&& scope.len() <= key.len()
    &&& key.subrange(0, scope.len() as int) == scope
    &&& marks_from(key.skip(scope.len() as int), 0) <= 1
}

/// The first position at or after `from` at which `ps` holds `id`, or 0
/// when there is none.
pub open spec fn first_match(ps: Seq<Seq<char>>, id: Seq<char>, from: int) -> int
    decreases ps.len() - from,
{
    if from < 0 || from >= ps.len() {
        0
    } else if ps[from] == id {
        from
    } else {
        first_match(ps, id, from + 1)
    }
}

/// The first `upto` pieces, empty ones left out, each behind a scope
/// mark.
pub open spec fn joined(ps: Seq<Seq<char>>, upto: int) -> Seq<char>
    decreases upto,
{
    if upto <= 0 || upto > ps.len() {
        Seq::empty()
    } else if ps[upto - 1].len() == 0 {
        joined(ps, upto - 1)
    } else {
        joined(ps, upto - 1) + scope_mark() + ps[upto - 1]
    }
}

/// The identity of the container `id` as seen from the scope `scope`.
///
/// Asked from a scope that lies inside the container (one of whose pieces,
/// but the first, is the container's id), it is the identity under which
/// the container was declared: the pieces before that one name the scope
/// around the container. Asked from anywhere else, it is the identity of a
/// container `id` declared in `scope` itself.
pub open spec fn container_id_in(scope: Seq<char>, id: Seq<char>) -> Seq<char> {
    let ps = pieces(scope);
    let index = first_match(ps, id, 0);
    if index == 0 {
        container_key(scope, id)
    } else {
        container_key(joined(ps, index), id)
    }
}

/// `utf8_slice::len` counts the characters of a string.
#[verifier::external_body]
pub(crate) fn char_count(s: &str) -> (n: usize)
    ensures
        n == s@.len(),
{
    utf8_slice::len(s)
}

/// `utf8_slice::till` gives the first `end` characters of a string, or the
/// whole string when it has fewer.
#[verifier::external_body]
pub(crate) fn chars_till<'a>(s: &'a str, end: usize) -> (r: &'a str)
    ensures
        r@ == s@.subrange(
            0,
            if end <= s@.len() {
                end as int
            } else {
                s@.len() as int
            },
        ),
{
    utf8_slice::till(s, end)
}

/// `utf8_slice::from` gives a string without its first `begin` characters,
/// or nothing when it has no more than that.
#[verifier::external_body]
pub(crate) fn chars_from<'a>(s: &'a str, begin: usize) -> (r: &'a str)
    ensures
        r@ == if begin <= s@.len() {
            s@.skip(begin as int)
        } else {
            Seq::empty()
        },
{
    utf8_slice::from(s, begin)
}

/// The stretch of `s` from character `begin` up to character `end`, both
/// held within the text; nothing when `end` comes before `begin`.
pub open spec fn stretch(s: Seq<char>, begin: usize, end: usize) -> Seq<char> {
    if begin <= end {
        s.subrange(
            if begin <= s.len() {
                begin as int
            } else {
                s.len() as int
            },
            if end <= s.len() {
                end as int
            } else {
                s.len() as int
            },
        )
    } else {
        Seq::empty()
    }
}

/// `utf8_slice::slice` gives the characters of a string from position
/// `begin` up to position `end`, as many of them as the string has; nothing
/// when `end` comes before `begin`.
#[verifier::external_body]
pub(crate) fn chars_slice<'a>(s: &'a str, begin: usize, end: usize) -> (r: &'a str)
    ensures
        r@ == stretch(s@, begin, end),
{
    utf8_slice::slice(s, begin, end)
}

/// The characters of a string, one by one.
pub fn chars_of(s: &str) -> (v: Vec<char>)
    ensures
        v@ == s@,
{
    let n = s.unicode_len();
    let mut v: Vec<char> = Vec::new();
    let mut i: usize = 0;
    while i < n
        invariant
            n == s@.len(),
            i <= n,
            v@ == s@.take(i as int),
        decreases n - i,
    {
        v.push(s.get_char(i));
        assert(s@.take(i + 1) =~= s@.take(i as int).push(s@[i as int]));
        i += 1;
    }
    assert(s@.take(n as int) =~= s@);
    v
}

/// The string made of the characters of `v` from position `from` up to
/// position `to`, both held within `v`; nothing when `to` comes before
/// `from`.
pub fn string_of(v: &Vec<char>, from: usize, to: usize) -> (s: String)
    ensures
        s@ == stretch(v@, from, to),
{
    let mut s = String::new();
    if from > to {
        return s;
    }
    let first = if from <= v.len() {
        from
    } else {
        v.len()
    };
    let last = if to <= v.len() {
        to
    } else {
        v.len()
    };
    let mut i: usize = first;
    assert(v@.subrange(first as int, first as int) =~= Seq::<char>::empty());
    while i < last
        invariant
            first <= i <= last <= v.len(),
            s@ == v@.subrange(first as int, i as int),
        decreases last - i,
    {
        s.push(v[i]);
        assert(v@.subrange(first as int, i + 1) =~= v@.subrange(first as int, i as int).push(
            v@[i as int],
        ));
        i += 1;
    }
    s
}

/// How many scope marks the characters hold, read from left to right
/// without overlap.
pub fn count_marks(v: &Vec<char>) -> (n: usize)
    ensures
        n == marks_from(v@, 0),
{
    let mut n: usize = 0;
    let mut i: usize = 0;
    while i < v.len()
        invariant
            i <= v.len(),
            n <= i,
            n + marks_from(v@, i as int) == marks_from(v@, 0),
        decreases v.len() - i,
    {
        if i + 1 < v.len() && v[i] == '|' && v[i + 1] == '|' {
            n += 1;
            i += 2;
        } else {
            i += 1;
        }
    }
    n
}

/// Whether `key` names something declared in the scope `scope` or in a
/// scope directly within it.
pub fn is_inner(key: &String, scope: &String) -> (r: bool)
    ensures
        r == is_inner_key(key@, scope@),
{
    let n = char_count(scope.as_str());
    if char_count(key.as_str()) < n {
        return false;
    }
    let head = String::from_str(chars_till(key.as_str(), n));
    if !(head == *scope) {
        return false;
    }
    let rest = chars_of(chars_from(key.as_str(), n));
    count_marks(&rest) <= 1
}

/// The number `n` written in decimal.
pub fn decimal_string(n: usize) -> (s: String)
    ensures
        s@ == decimal(n as nat),
    decreases n,
{
    if n < 10 {
        let mut s = String::new();
        s.push((48u8 + n as u8) as char);
        s
    } else {
        let mut s = decimal_string(n / 10);
        s.push((48u8 + (n % 10) as u8) as char);
        s
    }
}

/// The identity of widget number `counter` of the scope `scope`: the
/// scope's id, four hyphens, the number.
pub fn widget_id_string(scope: &String, counter: usize) -> (s: String)
    ensures
        s@ == widget_id(scope@, counter as nat),
{
    proof {
        reveal_strlit("----");
    }
    let mut s = scope.clone();
    s.append("----");
    let number = decimal_string(counter);
    s.append(number.as_str());
    assert("----"@ =~= widget_mark());
    s
}

/// The identity of the container `id` declared in the scope `scope`: the
/// scope's id, two bars, the container's id, two exclamation marks, the
/// container's id again.
pub fn container_key_string(scope: &String, id: &String) -> (s: String)
    ensures
        s@ == container_key(scope@, id@),
{
    proof {
        reveal_strlit("||");
        reveal_strlit("!!");
    }
    let mut s = scope.clone();
    s.append("||");
    s.append(id.as_str());
    s.append("!!");
    s.append(id.as_str());
    assert("||"@ =~= scope_mark());
    assert("!!"@ =~= container_mark());
    s
}

/// The id of the scope that the container `id` opens inside `scope`: the
/// scope's id, two bars, the container's id.
pub fn child_scope_string(scope: &String, id: &String) -> (s: String)
    ensures
        s@ == child_scope(scope@, id@),
{
    proof {
        reveal_strlit("||");
    }
    let mut s = scope.clone();
    s.append("||");
    s.append(id.as_str());
    assert("||"@ =~= scope_mark());
    s
}

/// The pieces between the scope marks of the characters.
pub fn split_pieces(v: &Vec<char>) -> (r: Vec<String>)
    ensures
        r.deep_view() == pieces(v@),
{
    let mut done: Vec<String> = Vec::new();
    let mut start: usize = 0;
    let mut i: usize = 0;
    assert(done.deep_view() =~= Seq::<Seq<char>>::empty());
    assert(v@.subrange(0, 0) =~= Seq::<char>::empty());
    while i < v.len()
        invariant
            start <= i <= v.len(),
            done.deep_view() + pieces_from(v@, i as int, v@.subrange(start as int, i as int))
                == pieces(v@),
        decreases v.len() - i,
    {
        let ghost before = done.deep_view();
        if i + 1 < v.len() && v[i] == '|' && v[i + 1] == '|' {
            let piece = string_of(v, start, i);
            done.push(piece);
            assert(done.deep_view() =~= before.push(piece@));
            i += 2;
            start = i;
            assert(v@.subrange(start as int, i as int) =~= Seq::<char>::empty());
            assert(before.push(piece@) + pieces_from(v@, i as int, Seq::empty()) =~= before + (
            seq![piece@] + pieces_from(v@, i as int, Seq::empty())));
        } else {
            assert(v@.subrange(start as int, i + 1) =~= v@.subrange(start as int, i as int).push(
                v@[i as int],
            ));
            i += 1;
        }
    }
    let ghost before = done.deep_view();
    let piece = string_of(v, start, i);
    done.push(piece);
    assert(done.deep_view() =~= before.push(piece@));
    assert(before.push(piece@) =~= before + seq![piece@]);
    done
}

/// The identity of the container `id` as seen from the scope `scope`.
pub fn container_id_string(scope: &String, id: &String) -> (r: String)
    ensures
        r@ == container_id_in(scope@, id@),
{
    let scope_chars = chars_of(scope.as_str());
    let ps = split_pieces(&scope_chars);
    let ghost parts = ps.deep_view();
    let mut index: usize = 0;
    let mut i: usize = ps.len();
    while i > 0
        invariant
            i <= ps.len(),
            parts == ps.deep_view(),
            parts.len() == ps.len(),
            index == first_match(parts, id@, i as int),
            index <= ps.len(),
        decreases i,
    {
        i -= 1;
        assert(parts[i as int] == ps@[i as int]@);
        if ps[i] == *id {
            index = i;
        }
    }
    if index == 0 {
        return container_key_string(scope, id);
    }
    proof {
        reveal_strlit("||");
        assert("||"@ =~= scope_mark());
    }
    let mut outer = String::new();
    let mut j: usize = 0;
    while j < index
        invariant
            j <= index <= ps.len(),
            parts == ps.deep_view(),
            parts.len() == ps.len(),
            "||"@ == scope_mark(),
            outer@ == joined(parts, j as int),
        decreases index - j,
    {
        assert(parts[j as int] == ps@[j as int]@);
        if ps[j].as_str().unicode_len() != 0 {
            outer.append("||");
            outer.append(ps[j].as_str());
        }
        j += 1;
    }
    container_key_string(&outer, id)
}

} // verus!
