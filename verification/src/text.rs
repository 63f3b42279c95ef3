//! Splitting and joining text.
use vstd::prelude::*;
use vstd::string::StrSliceExecFns;
use vstd::string::StringExecFns;

verus! {

broadcast use vstd::string::group_string_axioms;

/// The pieces of `s` between the characters listed in `delims`, as
/// `str::split` gives them: one more piece than there are delimiters in `s`,
/// empty pieces included.
pub open spec fn split_by(s: Seq<char>, delims: Seq<char>) -> Seq<Seq<char>>
    decreases s.len(),
{
    if s.len() == 0 {
        seq![Seq::empty()]
    } else {
        let pieces = split_by(s.drop_last(), delims);
        if delims.contains(s.last()) {
            pieces.push(Seq::empty())
        } else {
            pieces.update(pieces.len() - 1, pieces.last().push(s.last()))
        }
    }
}

/// Splitting always gives at least one piece.
pub proof fn lemma_split_nonempty(s: Seq<char>, delims: Seq<char>)
    ensures
        split_by(s, delims).len() >= 1,
    decreases s.len(),
{
    if s.len() > 0 {
        lemma_split_nonempty(s.drop_last(), delims);
    }
}

/// Text without any delimiter splits into itself alone.
pub proof fn lemma_split_no_delimiter(s: Seq<char>, delims: Seq<char>)
    requires
        forall|i: int| 0 <= i < s.len() ==> !delims.contains(#[trigger] s[i]),
    ensures
        split_by(s, delims) == seq![s],
    decreases s.len(),
{
    if s.len() > 0 {
        let init = s.drop_last();
        assert forall|i: int| 0 <= i < init.len() implies !delims.contains(#[trigger] init[i]) by {
            assert(init[i] == s[i]);
        }
        lemma_split_no_delimiter(init, delims);
        assert(!delims.contains(s[s.len() - 1]));
        assert(init.push(s.last()) =~= s);
        assert(seq![init].update(0, init.push(s.last())) =~= seq![s]);
    } else {
        assert(s =~= Seq::<char>::empty());
    }
}

/// Splitting at a delimiter character splits the text before it and the
/// text after it separately.
pub proof fn lemma_split_concat(a: Seq<char>, d: char, b: Seq<char>, delims: Seq<char>)
    requires
        delims.contains(d),
    ensures
        split_by(a + seq![d] + b, delims) == split_by(a, delims) + split_by(b, delims),
    decreases b.len(),
{
    let s = a + seq![d] + b;
    if b.len() == 0 {
        assert(s.drop_last() =~= a);
        assert(s.last() == d);
        assert(split_by(b, delims) == seq![Seq::<char>::empty()]);
        assert(split_by(a, delims).push(Seq::empty()) =~= split_by(a, delims) + split_by(b, delims));
    } else {
        let b0 = b.drop_last();
        lemma_split_concat(a, d, b0, delims);
        lemma_split_nonempty(b0, delims);
        assert(s.drop_last() =~= a + seq![d] + b0);
        assert(s.last() == b.last());
        let x = split_by(a, delims);
        let y = split_by(b0, delims);
        if delims.contains(b.last()) {
            assert((x + y).push(Seq::empty()) =~= x + y.push(Seq::empty()));
        } else {
            assert((x + y).update((x + y).len() - 1, (x + y).last().push(b.last())) =~= x
                + y.update(y.len() - 1, y.last().push(b.last())));
        }
    }
}

/// The pieces joined with `sep` between each two of them.
pub open spec fn join(pieces: Seq<Seq<char>>, sep: Seq<char>) -> Seq<char>
    decreases pieces.len(),
{
    if pieces.len() == 0 {
        Seq::empty()
    } else if pieces.len() == 1 {
        pieces[0]
    } else {
        join(pieces.drop_last(), sep) + sep + pieces.last()
    }
}

/// Joining after appending a character to the last piece appends that
/// character to the joined text.
pub proof fn lemma_join_extend_last(pieces: Seq<Seq<char>>, sep: Seq<char>, c: char)
    requires
        pieces.len() >= 1,
    ensures
        join(pieces.update(pieces.len() - 1, pieces.last().push(c)), sep) == join(pieces, sep).push(c),
{
    let updated = pieces.update(pieces.len() - 1, pieces.last().push(c));
    if pieces.len() > 1 {
        assert(updated.drop_last() =~= pieces.drop_last());
        assert((join(pieces.drop_last(), sep) + sep + pieces.last()).push(c) =~= join(
            pieces.drop_last(),
            sep,
        ) + sep + pieces.last().push(c));
    }
}

/// Splitting at a character and joining the pieces with that character gives
/// the text back.
pub proof fn law_split_join_roundtrip(s: Seq<char>, d: char)
    ensures
        join(split_by(s, seq![d]), seq![d]) == s,
    decreases s.len(),
{
    if s.len() == 0 {
        assert(join(seq![Seq::<char>::empty()], seq![d]) == Seq::<char>::empty());
        assert(s =~= Seq::<char>::empty());
    } else {
        let init = s.drop_last();
        law_split_join_roundtrip(init, d);
        lemma_split_nonempty(init, seq![d]);
        let pieces = split_by(init, seq![d]);
        assert(s == init.push(s.last()));
        if seq![d].contains(s.last()) {
            assert(s.last() == d) by {
                let k = choose|k: int| 0 <= k < 1 && seq![d][k] == s.last();
            }
            let pushed = pieces.push(Seq::<char>::empty());
            assert(pushed.drop_last() =~= pieces);
            assert(join(pushed, seq![d]) =~= init + seq![d] + Seq::<char>::empty());
            assert(init + seq![d] + Seq::<char>::empty() =~= s);
        } else {
            lemma_join_extend_last(pieces, seq![d], s.last());
        }
    }
}

/// The views of a list of strings.
pub open spec fn strings_view(v: Seq<String>) -> Seq<Seq<char>> {
    v.map_values(|s: String| s@)
}

/// The characters of `s`, in order.
pub fn chars_of(s: &str) -> (res: Vec<char>)
    ensures
        res@ == s@,
{
    let mut res: Vec<char> = Vec::new();
    for c in it: s.chars()
        invariant
            it.seq() == s@,
            res@ == it.seq().take(it.index()),
    {
        res.push(c);
        assert(res@ =~= it.seq().take(it.index() + 1));
    }
    assert(res@ =~= s@);
    res
}

/// Whether `c` is one of `delims`.
fn is_one_of(c: char, delims: &Vec<char>) -> (res: bool)
    ensures
        res == delims@.contains(c),
{
    let mut i: usize = 0;
    while i < delims.len()
        invariant
            i <= delims.len(),
            forall|j: int| 0 <= j < i ==> delims@[j] != c,
        decreases delims.len() - i,
    {
        if delims[i] == c {
            return true;
        }
        i = i + 1;
    }
    false
}

/// Splits `s` at each character listed in `delims`.
pub fn split_at_any(s: &str, delims: &Vec<char>) -> (res: Vec<String>)
    ensures
        strings_view(res@) == split_by(s@, delims@),
{
    let chars = chars_of(s);
    let n = chars.len();
    let mut pieces: Vec<String> = Vec::new();
    let mut start: usize = 0;
    let mut i: usize = 0;
    assert(s@.take(0) =~= Seq::<char>::empty());
    while i < n
        invariant
            n == chars@.len(),
            chars@ == s@,
            start <= i <= n,
            strings_view(pieces@).push(s@.subrange(start as int, i as int)) == split_by(
                s@.take(i as int),
                delims@,
            ),
        decreases n - i,
    {
        let c = chars[i];
        assert(s@.take(i + 1).drop_last() =~= s@.take(i as int));
        assert(s@.take(i + 1).last() == c);
        if is_one_of(c, delims) {
            let piece = String::from_str(s.substring_char(start, i));
            let ghost before = strings_view(pieces@);
            let ghost prev = split_by(s@.take(i as int), delims@);
            assert(prev == before.push(piece@));
            pieces.push(piece);
            assert(strings_view(pieces@) =~= before.push(piece@));
            start = i + 1;
            assert(s@.subrange(start as int, (i + 1) as int) =~= Seq::<char>::empty());
            assert(split_by(s@.take(i + 1), delims@) == prev.push(Seq::empty()));
            assert(strings_view(pieces@).push(s@.subrange(start as int, (i + 1) as int))
                =~= split_by(s@.take(i + 1), delims@));
        } else {
            assert(s@.subrange(start as int, (i + 1) as int) =~= s@.subrange(
                start as int,
                i as int,
            ).push(c));
            let ghost prev = split_by(s@.take(i as int), delims@);
            let ghost sv = strings_view(pieces@);
            assert(prev.len() == sv.len() + 1);
            assert(prev.last() == s@.subrange(start as int, i as int));
            assert(prev.update(prev.len() - 1, prev.last().push(c)) =~= sv.push(
                s@.subrange(start as int, (i + 1) as int),
            ));
            assert(strings_view(pieces@).push(s@.subrange(start as int, (i + 1) as int))
                =~= split_by(s@.take(i + 1), delims@));
        }
        i = i + 1;
    }
    let last = String::from_str(s.substring_char(start, n));
    let ghost before = strings_view(pieces@);
    pieces.push(last);
    assert(strings_view(pieces@) =~= before.push(last@));
    assert(s@.take(n as int) =~= s@);
    pieces
}

/// Joins the pieces with `sep` between each two of them.
pub fn join_strings(pieces: &Vec<String>, sep: &str) -> (res: String)
    ensures
        res@ == join(strings_view(pieces@), sep@),
{
    let mut res = String::new();
    let ghost views = strings_view(pieces@);
    let mut i: usize = 0;
    while i < pieces.len()
        invariant
            i <= pieces.len(),
            views == strings_view(pieces@),
            res@ == join(views.take(i as int), sep@),
        decreases pieces.len() - i,
    {
        if i != 0 {
            res.append(sep);
        }
        res.append(pieces[i].as_str());
        assert(views.take(i + 1).drop_last() =~= views.take(i as int));
        assert(views.take(i + 1).last() == pieces@[i as int]@);
        if i == 0 {
            assert(join(views.take(1), sep@) == views.take(1)[0]);
            assert(res@ =~= views.take(1)[0]);
        }
        i = i + 1;
    }
    assert(views.take(pieces.len() as int) =~= views);
    res
}

} // verus!
