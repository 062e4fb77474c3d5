use vstd::prelude::*;

verus! {

/// The position of the first `c` in `s`, or the length of `s` if there is
/// none.
pub open spec fn index_of(s: Seq<char>, c: char) -> nat
    decreases s.len(),
{
    if s.len() == 0 {
        0
    } else if s[0] == c {
        0
    } else {
        1 + index_of(s.drop_first(), c)
    }
}

/// Whether `c` occurs in `s`.
pub open spec fn has_char(s: Seq<char>, c: char) -> bool {
    exists|i: int| 0 <= i < s.len() && s[i] == c
}

/// The pieces of `s` between the separators `sep`.
pub open spec fn split_on(s: Seq<char>, sep: char) -> Seq<Seq<char>>
    decreases s.len(),
{
    let i = index_of(s, sep);
    if i < s.len() {
        seq![s.take(i as int)] + split_on(s.skip(i + 1int), sep)
    } else {
        seq![s]
    }
}

/// The part of a URL before its query: everything up to and including the
/// first `?`.
pub open spec fn url_head(url: Seq<char>) -> Seq<char> {
    url.take((index_of(url, '?') + 1) as int)
}

/// The query of a URL: everything after the first `?`.
pub open spec fn url_query(url: Seq<char>) -> Seq<char> {
    let i = index_of(url, '?');
    if i < url.len() {
        url.skip(i + 1int)
    } else {
        Seq::<char>::empty()
    }
}

/// One `key=value` field read as a pair: the key is what stands before the
/// first `=`, the value what follows it.
pub open spec fn field_pair(field: Seq<char>) -> (Seq<char>, Seq<char>) {
    let j = index_of(field, '=');
    if j < field.len() {
        (field.take(j as int), field.skip(j + 1int))
    } else {
        (field, Seq::<char>::empty())
    }
}

/// The parameters of a URL's query, in order, as a server reads them: the
/// query split at each `&`, each field split at its first `=`.
pub open spec fn query_params(url: Seq<char>) -> Seq<(Seq<char>, Seq<char>)> {
    split_on(url_query(url), '&').map_values(|f: Seq<char>| field_pair(f))
}

proof fn lemma_index_of_absent(s: Seq<char>, c: char)
    requires
        !has_char(s, c),
    ensures
        index_of(s, c) == s.len(),
    decreases s.len(),
{
    if s.len() > 0 {
        assert(s[0] != c);
        assert(!has_char(s.drop_first(), c)) by {
            if has_char(s.drop_first(), c) {
                let i = choose|i: int| 0 <= i < s.drop_first().len() && s.drop_first()[i] == c;
                assert(s[i + 1] == c);
            }
        }
        lemma_index_of_absent(s.drop_first(), c);
    }
}

/// One query field `key=value`.
pub open spec fn field(param: (Seq<char>, Seq<char>)) -> Seq<char> {
    param.0 + seq!['='] + param.1
}

/// Parameters written as a query: their fields joined by `&`.
pub open spec fn join_params(params: Seq<(Seq<char>, Seq<char>)>) -> Seq<char>
    decreases params.len(),
{
    if params.len() == 0 {
        Seq::<char>::empty()
    } else if params.len() == 1 {
        field(params[0])
    } else {
        field(params[0]) + seq!['&'] + join_params(params.drop_first())
    }
}

/// Parameters that can be written into a query and read back: no key holds
/// `&` or `=`, no value holds `&`.
pub open spec fn well_separated(params: Seq<(Seq<char>, Seq<char>)>) -> bool {
    forall|i: int|
        0 <= i < params.len() ==> {
            &&& !has_char(#[trigger] params[i].0, '&')
            &&& !has_char(params[i].0, '=')
            &&& !has_char(params[i].1, '&')
        }
}

/// Reading a query back gives the parameters it was written from, when they
/// are well separated.
pub proof fn lemma_join_params_read_back(params: Seq<(Seq<char>, Seq<char>)>)
    requires
        params.len() >= 1,
        well_separated(params),
    ensures
        split_on(join_params(params), '&').map_values(|f: Seq<char>| field_pair(f)) == params,
    decreases params.len(),
{
    let p0 = params[0];
    assert(!has_char(p0.0, '&') && !has_char(p0.0, '=') && !has_char(p0.1, '&'));
    assert(!has_char(seq!['='], '&'));
    lemma_no_char_join(p0.0, seq!['='], '&');
    lemma_no_char_join(p0.0 + seq!['='], p0.1, '&');
    lemma_field_pair(p0.0, p0.1);
    if params.len() == 1 {
        lemma_split_single(field(p0), '&');
        assert(split_on(join_params(params), '&').map_values(|f: Seq<char>| field_pair(f))
            =~= params);
    } else {
        let rest = params.drop_first();
        assert forall|i: int| 0 <= i < rest.len() implies {
            &&& !has_char(#[trigger] rest[i].0, '&')
            &&& !has_char(rest[i].0, '=')
            &&& !has_char(rest[i].1, '&')
        } by {
            assert(rest[i] == params[i + 1]);
        }
        lemma_join_params_read_back(rest);
        lemma_split_cons(field(p0), '&', join_params(rest));
        let tail = split_on(join_params(rest), '&');
        let sp = split_on(join_params(params), '&');
        assert(join_params(params) == field(p0) + seq!['&'] + join_params(rest));
        assert(sp == seq![field(p0)] + tail);
        let mapped = sp.map_values(|f: Seq<char>| field_pair(f));
        assert(tail.map_values(|f: Seq<char>| field_pair(f)) == rest);
        assert forall|i: int| 0 <= i < params.len() implies mapped[i] == params[i] by {
            if i > 0 {
                assert(sp[i] == tail[i - 1]);
                assert(tail.map_values(|f: Seq<char>| field_pair(f))[i - 1] == field_pair(
                    tail[i - 1],
                ));
                assert(rest[i - 1] == params[i]);
            }
        }
        assert(mapped =~= params);
    }
}

/// Joining two strings without `c` gives a string without `c`.
pub proof fn lemma_no_char_join(a: Seq<char>, b: Seq<char>, c: char)
    requires
        !has_char(a, c),
        !has_char(b, c),
    ensures
        !has_char(a + b, c),
{
    if has_char(a + b, c) {
        let i = choose|i: int| 0 <= i < (a + b).len() && (a + b)[i] == c;
        if i < a.len() {
            assert(a[i] == c);
        } else {
            assert(b[i - a.len()] == c);
        }
    }
}

/// In `a + [c] + b`, when `a` holds no `c`, the first `c` is the one after `a`.
pub proof fn lemma_index_of_after(a: Seq<char>, c: char, b: Seq<char>)
    requires
        !has_char(a, c),
    ensures
        index_of(a + seq![c] + b, c) == a.len(),
    decreases a.len(),
{
    let s = a + seq![c] + b;
    if a.len() == 0 {
        assert(s[0] == c);
    } else {
        assert(s[0] == a[0]);
        assert(a[0] != c);
        assert(s.drop_first() =~= a.drop_first() + seq![c] + b);
        assert(!has_char(a.drop_first(), c)) by {
            if has_char(a.drop_first(), c) {
                let i = choose|i: int| 0 <= i < a.drop_first().len() && a.drop_first()[i] == c;
                assert(a[i + 1] == c);
            }
        }
        lemma_index_of_after(a.drop_first(), c, b);
    }
}

/// Splitting `a + [sep] + rest` where `a` holds no separator gives `a`, then
/// the pieces of `rest`.
pub proof fn lemma_split_cons(a: Seq<char>, sep: char, rest: Seq<char>)
    requires
        !has_char(a, sep),
    ensures
        split_on(a + seq![sep] + rest, sep) == seq![a] + split_on(rest, sep),
{
    let s = a + seq![sep] + rest;
    lemma_index_of_after(a, sep, rest);
    assert(s.take(a.len() as int) =~= a);
    assert(s.skip(a.len() + 1int) =~= rest);
}

/// A string without separator is a single piece.
pub proof fn lemma_split_single(a: Seq<char>, sep: char)
    requires
        !has_char(a, sep),
    ensures
        split_on(a, sep) == seq![a],
{
    lemma_index_of_absent(a, sep);
}

/// A field `key=value` whose key holds no `=` reads as the pair
/// `(key, value)`.
pub proof fn lemma_field_pair(key: Seq<char>, value: Seq<char>)
    requires
        !has_char(key, '='),
    ensures
        field_pair(key + seq!['='] + value) == (key, value),
{
    let f = key + seq!['='] + value;
    lemma_index_of_after(key, '=', value);
    assert(f.take(key.len() as int) =~= key);
    assert(f.skip(key.len() + 1int) =~= value);
}

/// The head and the query of `head + query`, when `head` ends with its only
/// `?`.
pub proof fn lemma_url_parts(head: Seq<char>, query: Seq<char>)
    requires
        head.len() > 0,
        head.last() == '?',
        !has_char(head.drop_last(), '?'),
    ensures
        url_head(head + query) == head,
        url_query(head + query) == query,
{
    let url = head + query;
    assert(head =~= head.drop_last() + seq!['?']);
    assert(url =~= head.drop_last() + seq!['?'] + query);
    lemma_index_of_after(head.drop_last(), '?', query);
    assert(url.take(head.len() as int) =~= head);
    assert(url.skip(head.len() as int) =~= query);
}

} // verus!
