//! The shape of the constructed urls: their query components, read back as a
//! parameter list, hold exactly the parameters the client attaches.

use vstd::prelude::*;

use crate::client::{query_url_spec, write_url_spec};

verus! {

/// The index of the first occurrence of `c` in `s`, or the length of `s` when
/// `c` does not occur.
pub open spec fn first_at(s: Seq<char>, c: char) -> nat
    decreases s.len(),
{
    if s.len() == 0 {
        0
    } else if s[0] == c {
        0
    } else {
        1 + first_at(s.drop_first(), c)
    }
}

/// The text after the first '?' of a url: its query component. A url without
/// a '?' has an empty query component.
pub open spec fn query_component(url: Seq<char>) -> Seq<char> {
    if first_at(url, '?') < url.len() {
        url.skip(first_at(url, '?') as int + 1)
    } else {
        Seq::empty()
    }
}

/// A query component split on '&': the url's parameters, in order.
pub open spec fn split_params(s: Seq<char>) -> Seq<Seq<char>>
    decreases s.len(),
{
    let i = first_at(s, '&');
    if i < s.len() {
        seq![s.take(i as int)] + split_params(s.skip(i as int + 1))
    } else {
        seq![s]
    }
}

proof fn lemma_first_at_absent(s: Seq<char>, c: char)
    requires
        !s.contains(c),
    ensures
        first_at(s, c) == s.len(),
    decreases s.len(),
{
    if s.len() > 0 {
        assert(s[0] != c);
        assert forall|i: int| 0 <= i < s.drop_first().len() implies s.drop_first()[i] != c by {
            assert(s.drop_first()[i] == s[i + 1]);
        }
        lemma_first_at_absent(s.drop_first(), c);
    }
}

proof fn lemma_first_at_concat_absent_left(a: Seq<char>, b: Seq<char>, c: char)
    requires
        !a.contains(c),
    ensures
        first_at(a + b, c) == a.len() + first_at(b, c),
    decreases a.len(),
{
    if a.len() == 0 {
        assert(a + b =~= b);
    } else {
        assert((a + b)[0] == a[0]);
        assert(a[0] != c);
        assert((a + b).drop_first() =~= a.drop_first() + b);
        assert forall|i: int| 0 <= i < a.drop_first().len() implies a.drop_first()[i] != c by {
            assert(a.drop_first()[i] == a[i + 1]);
        }
        lemma_first_at_concat_absent_left(a.drop_first(), b, c);
    }
}

proof fn lemma_concat_not_contains(a: Seq<char>, b: Seq<char>, c: char)
    requires
        !a.contains(c),
        !b.contains(c),
    ensures
        !(a + b).contains(c),
{
    assert forall|i: int| 0 <= i < (a + b).len() implies (a + b)[i] != c by {
        if i < a.len() {
            assert((a + b)[i] == a[i]);
        } else {
            assert((a + b)[i] == b[i - a.len()]);
        }
    }
}

proof fn lemma_split_params_absent(s: Seq<char>)
    requires
        !s.contains('&'),
    ensures
        split_params(s) == seq![s],
{
    lemma_first_at_absent(s, '&');
}

proof fn lemma_split_params_concat(a: Seq<char>, b: Seq<char>)
    requires
        !a.contains('&'),
    ensures
        split_params(a + seq!['&'] + b) == seq![a] + split_params(b),
{
    let s = a + seq!['&'] + b;
    assert(s =~= a + (seq!['&'] + b));
    assert((seq!['&'] + b)[0] == '&');
    assert(first_at(seq!['&'] + b, '&') == 0);
    lemma_first_at_concat_absent_left(a, seq!['&'] + b, '&');
    assert(first_at(s, '&') == a.len());
    assert(a.len() < s.len());
    assert(s.take(a.len() as int) =~= a);
    assert(s.skip(a.len() as int + 1) =~= b);
}

/// The write url carries exactly three query parameters — one organization
/// parameter, one bucket parameter, and the millisecond precision parameter,
/// in that order — whenever the base url holds no '?' of its own and the
/// organization and bucket values hold no '&'. (A base url with a '?', or an
/// organization such as `a&org=b`, injects parameters of its own: the client
/// performs no escaping, so the law excludes those inputs.)
pub proof fn lemma_write_url_params(base: Seq<char>, org: Seq<char>, bucket: Seq<char>)
    requires
        !base.contains('?'),
        !org.contains('&'),
        !bucket.contains('&'),
    ensures
        split_params(query_component(write_url_spec(base, org, bucket))) == seq![
            "org="@ + org,
            "bucket="@ + bucket,
            "precision=ms"@,
        ],
{
    reveal_strlit("/api/v2/write?org=");
    reveal_strlit("/api/v2/write");
    reveal_strlit("org=");
    reveal_strlit("&bucket=");
    reveal_strlit("bucket=");
    reveal_strlit("&precision=ms");
    reveal_strlit("precision=ms");

    let url = write_url_spec(base, org, bucket);
    let p1 = "org="@ + org;
    let p2 = "bucket="@ + bucket;
    let p3 = "precision=ms"@;
    let pre = base + "/api/v2/write"@;
    let q = p1 + seq!['&'] + p2 + seq!['&'] + p3;

    assert(url =~= pre + seq!['?'] + q);

    assert(!"/api/v2/write"@.contains('?'));
    lemma_concat_not_contains(base, "/api/v2/write"@, '?');
    assert((seq!['?'] + q)[0] == '?');
    assert(first_at(seq!['?'] + q, '?') == 0);
    assert(pre + seq!['?'] + q =~= pre + (seq!['?'] + q));
    lemma_first_at_concat_absent_left(pre, seq!['?'] + q, '?');
    assert(first_at(url, '?') == pre.len());
    assert(url.skip(pre.len() as int + 1) =~= q);
    assert(query_component(url) == q);

    assert(!"org="@.contains('&'));
    lemma_concat_not_contains("org="@, org, '&');
    assert(!"bucket="@.contains('&'));
    lemma_concat_not_contains("bucket="@, bucket, '&');
    assert(!p3.contains('&'));

    assert(q =~= p1 + seq!['&'] + (p2 + seq!['&'] + p3));
    lemma_split_params_concat(p1, p2 + seq!['&'] + p3);
    lemma_split_params_concat(p2, p3);
    lemma_split_params_absent(p3);
    assert(seq![p1] + (seq![p2] + seq![p3]) =~= seq![p1, p2, p3]);
}

/// The query url carries exactly one query parameter: the organization
/// parameter — whenever the base url holds no '?' of its own and the
/// organization holds no '&'.
pub proof fn lemma_query_url_params(base: Seq<char>, org: Seq<char>)
    requires
        !base.contains('?'),
        !org.contains('&'),
    ensures
        split_params(query_component(query_url_spec(base, org))) == seq!["org="@ + org],
{
    reveal_strlit("/api/v2/query?org=");
    reveal_strlit("/api/v2/query");
    reveal_strlit("org=");

    let url = query_url_spec(base, org);
    let p1 = "org="@ + org;
    let pre = base + "/api/v2/query"@;

    assert(url =~= pre + seq!['?'] + p1);

    assert(!"/api/v2/query"@.contains('?'));
    lemma_concat_not_contains(base, "/api/v2/query"@, '?');
    assert((seq!['?'] + p1)[0] == '?');
    assert(first_at(seq!['?'] + p1, '?') == 0);
    assert(pre + seq!['?'] + p1 =~= pre + (seq!['?'] + p1));
    lemma_first_at_concat_absent_left(pre, seq!['?'] + p1, '?');
    assert(first_at(url, '?') == pre.len());
    assert(url.skip(pre.len() as int + 1) =~= p1);
    assert(query_component(url) == p1);

    assert(!"org="@.contains('&'));
    lemma_concat_not_contains("org="@, org, '&');
    lemma_split_params_absent(p1);
}

} // verus!
