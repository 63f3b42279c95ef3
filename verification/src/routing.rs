//! Reading the route and the query parameters out of a request URL.
use vstd::prelude::*;
use vstd::string::StringExecFns;
use vstd::hash_map::StringHashMap;
use crate::text::{
    join, law_split_join_roundtrip, lemma_split_concat, lemma_split_no_delimiter, lemma_split_nonempty, split_at_any, split_by,
    strings_view,
};

verus! {

/// The route of a URL: the part before the first `?`, split at each `/`,
/// without the piece before the first `/`.
pub open spec fn url_route(url: Seq<char>) -> Seq<Seq<char>> {
    split_by(split_by(url, seq!['?'])[0], seq!['/']).drop_first()
}

/// The query of a URL: the text between its first and second `?`, or
/// nothing if it has no `?`.
pub open spec fn url_query(url: Seq<char>) -> Seq<char> {
    let parts = split_by(url, seq!['?']);
    if parts.len() > 1 {
        parts[1]
    } else {
        Seq::empty()
    }
}

/// The key and value pairs of a query: the query is cut at every `&` and
/// `=`, and the pieces are paired off in order, a lone last piece dropped.
pub open spec fn query_pairs(query: Seq<char>) -> Seq<(Seq<char>, Seq<char>)> {
    let tokens = split_by(query, seq!['&', '=']);
    Seq::new(tokens.len() / 2, |i: int| (tokens[2 * i], tokens[2 * i + 1]))
}

/// The map that a list of pairs gives when they are inserted in order: the
/// last pair with a key decides its value.
pub open spec fn pairs_map(pairs: Seq<(Seq<char>, Seq<char>)>) -> Map<Seq<char>, Seq<char>>
    decreases pairs.len(),
{
    if pairs.len() == 0 {
        Map::empty()
    } else {
        pairs_map(pairs.drop_last()).insert(pairs.last().0, pairs.last().1)
    }
}

/// The query parameters of a URL.
pub open spec fn url_params(url: Seq<char>) -> Map<Seq<char>, Seq<char>> {
    pairs_map(query_pairs(url_query(url)))
}

/// The route of `url`: the segments of its path after the leading one.
pub fn route_of(url: &str) -> (res: Vec<String>)
    ensures
        strings_view(res@) == url_route(url@),
{
    let question: Vec<char> = vec!['?'];
    let slash: Vec<char> = vec!['/'];
    let parts = split_at_any(url, &question);
    proof {
        lemma_split_nonempty(url@, seq!['?']);
        assert(question@ == seq!['?']);
        assert(slash@ == seq!['/']);
    }
    let segments = split_at_any(parts[0].as_str(), &slash);
    proof {
        lemma_split_nonempty(parts@[0]@, seq!['/']);
    }
    let mut res: Vec<String> = Vec::new();
    let mut i: usize = 1;
    while i < segments.len()
        invariant
            1 <= i <= segments@.len(),
            strings_view(res@) == strings_view(segments@).subrange(1, i as int),
        decreases segments@.len() - i,
    {
        let ghost before = strings_view(res@);
        res.push(segments[i].clone());
        assert(strings_view(res@) =~= before.push(segments@[i as int]@));
        assert(strings_view(segments@).subrange(1, i + 1) =~= strings_view(segments@).subrange(
            1,
            i as int,
        ).push(segments@[i as int]@));
        i = i + 1;
    }
    assert(strings_view(segments@).subrange(1, segments@.len() as int) =~= strings_view(
        segments@,
    ).drop_first());
    res
}

/// The texts that a map of strings holds.
pub open spec fn string_values(m: Map<Seq<char>, String>) -> Map<Seq<char>, Seq<char>> {
    m.map_values(|s: String| s@)
}

/// The query parameters of `url`, each key holding the value it was last
/// given.
pub fn params_of(url: &str) -> (res: StringHashMap<String>)
    ensures
        string_values(res@) == url_params(url@),
{
    let question: Vec<char> = vec!['?'];
    let separators: Vec<char> = vec!['&', '='];
    let parts = split_at_any(url, &question);
    proof {
        assert(question@ == seq!['?']);
        assert(separators@ == seq!['&', '=']);
    }
    let query = if parts.len() > 1 {
        parts[1].clone()
    } else {
        String::new()
    };
    assert(query@ == url_query(url@));
    let tokens = split_at_any(query.as_str(), &separators);
    let ghost pairs = query_pairs(query@);
    let ntokens = tokens.len();
    let npairs = ntokens / 2;
    let mut res: StringHashMap<String> = StringHashMap::new();
    assert(string_values(res@) =~= Map::<Seq<char>, Seq<char>>::empty());
    let mut i: usize = 0;
    assert(pairs.take(0) =~= Seq::<(Seq<char>, Seq<char>)>::empty());
    while i < npairs
        invariant
            ntokens == tokens@.len(),
            npairs == ntokens / 2,
            pairs == query_pairs(query@),
            strings_view(tokens@) == split_by(query@, seq!['&', '=']),
            i <= npairs,
            string_values(res@) == pairs_map(pairs.take(i as int)),
        decreases npairs - i,
    {
        assert(2 * i + 1 < ntokens);
        let at: usize = i + i;
        let key = tokens[at].clone();
        let value = tokens[at + 1].clone();
        assert(key@ == pairs[i as int].0);
        assert(value@ == pairs[i as int].1);
        let ghost before = res@;
        res.insert(key, value);
        assert(string_values(res@) =~= string_values(before).insert(key@, value@));
        assert(pairs.take(i + 1).drop_last() =~= pairs.take(i as int));
        i = i + 1;
    }
    assert(pairs.take(npairs as int) =~= pairs);
    res
}

/// Text that holds no `?`.
pub open spec fn no_question_mark(s: Seq<char>) -> bool {
    forall|i: int| 0 <= i < s.len() ==> s[i] != '?'
}

/// The query of a URL does not change its route: a path with a query appended
/// has the route of the path alone.
pub proof fn law_query_does_not_change_route(path: Seq<char>, query: Seq<char>)
    requires
        no_question_mark(path),
    ensures
        url_route(path + seq!['?'] + query) == url_route(path),
{
    assert forall|i: int| 0 <= i < path.len() implies !seq!['?'].contains(#[trigger] path[i]) by {
        if seq!['?'].contains(path[i]) {
            let j = choose|j: int| 0 <= j < 1 && seq!['?'][j] == path[i];
            assert(path[i] == '?');
        }
    }
    lemma_split_no_delimiter(path, seq!['?']);
    assert(seq!['?'].contains('?')) by {
        assert(seq!['?'][0] == '?');
    }
    lemma_split_concat(path, '?', query, seq!['?']);
    lemma_split_nonempty(query, seq!['?']);
}

/// The parameters of a URL are those of its query: for a path and a query
/// that hold no `?`, the parameters of the path with the query appended are
/// the pairs of the query.
pub proof fn law_params_come_from_query(path: Seq<char>, query: Seq<char>)
    requires
        no_question_mark(path),
        no_question_mark(query),
    ensures
        url_params(path + seq!['?'] + query) == pairs_map(query_pairs(query)),
{
    assert forall|i: int| 0 <= i < path.len() implies !seq!['?'].contains(#[trigger] path[i]) by {
        if seq!['?'].contains(path[i]) {
            let j = choose|j: int| 0 <= j < 1 && seq!['?'][j] == path[i];
            assert(path[i] == '?');
        }
    }
    assert forall|i: int| 0 <= i < query.len() implies !seq!['?'].contains(#[trigger] query[i]) by {
        if seq!['?'].contains(query[i]) {
            let j = choose|j: int| 0 <= j < 1 && seq!['?'][j] == query[i];
            assert(query[i] == '?');
        }
    }
    lemma_split_no_delimiter(path, seq!['?']);
    lemma_split_no_delimiter(query, seq!['?']);
    assert(seq!['?'].contains('?')) by {
        assert(seq!['?'][0] == '?');
    }
    lemma_split_concat(path, '?', query, seq!['?']);
    let parts = split_by(path + seq!['?'] + query, seq!['?']);
    assert(parts =~= seq![path, query]);
}

/// A key is among the parameters exactly when some pair has it.
pub proof fn law_key_present_iff_given(pairs: Seq<(Seq<char>, Seq<char>)>, k: Seq<char>)
    ensures
        pairs_map(pairs).contains_key(k) <==> exists|j: int|
            0 <= j < pairs.len() && #[trigger] pairs[j].0 == k,
    decreases pairs.len(),
{
    if pairs.len() > 0 {
        let init = pairs.drop_last();
        law_key_present_iff_given(init, k);
        if pairs.last().0 != k {
            if pairs_map(pairs).contains_key(k) {
                let j = choose|j: int| 0 <= j < init.len() && #[trigger] init[j].0 == k;
                assert(pairs[j] == init[j]);
            }
            if exists|j: int| 0 <= j < pairs.len() && #[trigger] pairs[j].0 == k {
                let j = choose|j: int| 0 <= j < pairs.len() && #[trigger] pairs[j].0 == k;
                assert(j < init.len());
                assert(init[j] == pairs[j]);
            }
        } else {
            assert(pairs[pairs.len() - 1].0 == k);
        }
    }
}

/// The last value given for a key is the one the parameters hold: when pair
/// `j` is the last pair with key `k`, `k` maps to its value.
pub proof fn law_last_value_wins(pairs: Seq<(Seq<char>, Seq<char>)>, k: Seq<char>, j: int)
    requires
        0 <= j < pairs.len(),
        pairs[j].0 == k,
        forall|m: int| j < m < pairs.len() ==> #[trigger] pairs[m].0 != k,
    ensures
        pairs_map(pairs).contains_key(k),
        pairs_map(pairs)[k] == pairs[j].1,
    decreases pairs.len(),
{
    let init = pairs.drop_last();
    if j < pairs.len() - 1 {
        assert forall|m: int| j < m < init.len() implies #[trigger] init[m].0 != k by {
            assert(init[m] == pairs[m]);
        }
        assert(init[j] == pairs[j]);
        law_last_value_wins(init, k, j);
        assert(pairs[pairs.len() - 1].0 != k);
    }
}

/// The pieces of a query cut at every `&` and `=`.
pub open spec fn query_pieces(query: Seq<char>) -> Seq<Seq<char>> {
    split_by(query, seq!['&', '='])
}

/// The number of key and value pairs the pieces of a query make.
pub open spec fn query_pair_count(query: Seq<char>) -> int {
    (query_pieces(query).len() / 2) as int
}

/// The key of pair `j` of a query: piece `2 * j`.
pub open spec fn query_key(query: Seq<char>, j: int) -> Seq<char> {
    query_pieces(query)[2 * j]
}

/// The value of pair `j` of a query: piece `2 * j + 1`.
pub open spec fn query_value(query: Seq<char>, j: int) -> Seq<char> {
    query_pieces(query)[2 * j + 1]
}

/// Every pair of the query is among the parameters, and nothing else is: for
/// a path and a query that hold no `?`, the parameters of the path with the
/// query appended hold the key of each pair of the query's pieces (cut at
/// `&` and `=`, paired off in order); a key holds the value of its last pair;
/// and every parameter is the key of some pair.
pub proof fn law_every_pair_is_a_parameter(path: Seq<char>, query: Seq<char>)
    requires
        no_question_mark(path),
        no_question_mark(query),
    ensures
        forall|j: int|
            0 <= j < query_pair_count(query) ==> url_params(path + seq!['?'] + query).contains_key(
                #[trigger] query_key(query, j),
            ),
        forall|j: int|
            0 <= j < query_pair_count(query) && (forall|m: int|
                j < m < query_pair_count(query) ==> #[trigger] query_key(query, m) != query_key(
                    query,
                    j,
                )) ==> url_params(path + seq!['?'] + query)[#[trigger] query_key(query, j)]
                == query_value(query, j),
        forall|k: Seq<char>|
            #[trigger] url_params(path + seq!['?'] + query).contains_key(k) ==> exists|j: int|
                0 <= j < query_pair_count(query) && #[trigger] query_key(query, j) == k,
{
    law_params_come_from_query(path, query);
    let pairs = query_pairs(query);
    assert(pairs.len() == query_pair_count(query));
    assert forall|j: int| 0 <= j < query_pair_count(query) implies url_params(
        path + seq!['?'] + query,
    ).contains_key(#[trigger] query_key(query, j)) by {
        law_key_present_iff_given(pairs, query_key(query, j));
        assert(pairs[j].0 == query_key(query, j));
    }
    assert forall|j: int|
        0 <= j < query_pair_count(query) && (forall|m: int|
            j < m < query_pair_count(query) ==> #[trigger] query_key(query, m) != query_key(
                query,
                j,
            )) implies url_params(path + seq!['?'] + query)[#[trigger] query_key(query, j)]
        == query_value(query, j) by {
        let k = query_key(query, j);
        assert(pairs[j].0 == k);
        assert forall|m: int| j < m < pairs.len() implies #[trigger] pairs[m].0 != k by {
            assert(pairs[m].0 == query_key(query, m));
        }
        law_last_value_wins(pairs, k, j);
    }
    assert forall|k: Seq<char>| #[trigger]
        url_params(path + seq!['?'] + query).contains_key(k) implies exists|j: int|
        0 <= j < query_pair_count(query) && #[trigger] query_key(query, j) == k by {
        law_key_present_iff_given(pairs, k);
        let j = choose|j: int| 0 <= j < pairs.len() && #[trigger] pairs[j].0 == k;
        assert(query_key(query, j) == k);
    }
}

/// A path is its route put back together: for a path that holds no `?` and
/// starts with `/`, a `/` followed by the route's segments joined with `/`
/// gives the path back, whatever query follows it.
pub proof fn law_route_rebuilds_path(path: Seq<char>, query: Seq<char>)
    requires
        no_question_mark(path),
        path.len() > 0,
        path[0] == '/',
    ensures
        seq!['/'] + join(url_route(path), seq!['/']) == path,
        seq!['/'] + join(url_route(path + seq!['?'] + query), seq!['/']) == path,
{
    law_query_does_not_change_route(path, query);
    assert forall|i: int| 0 <= i < path.len() implies !seq!['?'].contains(#[trigger] path[i]) by {
        if seq!['?'].contains(path[i]) {
            let j = choose|j: int| 0 <= j < 1 && seq!['?'][j] == path[i];
            assert(path[i] == '?');
        }
    }
    lemma_split_no_delimiter(path, seq!['?']);
    let rest = path.drop_first();
    assert(path =~= Seq::<char>::empty() + seq!['/'] + rest);
    assert(seq!['/'].contains('/')) by {
        assert(seq!['/'][0] == '/');
    }
    lemma_split_concat(Seq::<char>::empty(), '/', rest, seq!['/']);
    assert(split_by(Seq::<char>::empty(), seq!['/']) == seq![Seq::<char>::empty()]);
    assert(split_by(path, seq!['/']).drop_first() =~= split_by(rest, seq!['/']));
    law_split_join_roundtrip(rest, '/');
    assert(seq!['/'] + rest =~= path);
}

} // verus!
