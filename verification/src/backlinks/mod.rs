//! Backlinks: discussion threads on link aggregators that point at a saved URL.
//!
//! Several backlinks of one source are stored in a single text column, joined
//! by a separator that does not occur in URLs.
use vstd::prelude::*;
use vstd::string::*;

pub mod handlers;
pub mod models;
pub mod resolver;

use crate::text::{chars_of, push_char};

verus! {

/// The separator between stored backlinks: "🙂‍↕️", the four code points
/// U+1F642, U+200D, U+2195 and U+FE0F.
pub open spec fn backlink_separator() -> Seq<char> {
    seq!['\u{1F642}', '\u{200D}', '\u{2195}', '\u{FE0F}']
}

/// The number of characters in the separator.
pub open spec fn separator_len() -> nat {
    4
}

/// `s` begins with the separator.
pub open spec fn starts_with_separator(s: Seq<char>) -> bool {
    s.len() >= separator_len() && s.take(separator_len() as int) == backlink_separator()
}

/// The separator occurs somewhere in `s`.
pub open spec fn contains_separator(s: Seq<char>) -> bool
    decreases s.len(),
{
    if s.len() == 0 {
        false
    } else if starts_with_separator(s) {
        true
    } else {
        contains_separator(s.skip(1))
    }
}

/// `fields` with `prefix` put in front of its first field.
pub open spec fn prepend_to_first(prefix: Seq<char>, fields: Seq<Seq<char>>) -> Seq<Seq<char>> {
    fields.update(0, prefix + fields[0])
}

/// The fields of `s` between occurrences of the separator, found from left
/// to right without overlap (the fields that `str::split` yields).
pub open spec fn split_spec(s: Seq<char>) -> Seq<Seq<char>>
    decreases s.len(),
{
    if s.len() == 0 {
        seq![Seq::<char>::empty()]
    } else if starts_with_separator(s) {
        seq![Seq::<char>::empty()] + split_spec(s.skip(separator_len() as int))
    } else {
        prepend_to_first(seq![s[0]], split_spec(s.skip(1)))
    }
}

/// The fields of `fields` with the separator between each two neighbours
/// (what `[String]::join` gives).
pub open spec fn join_spec(fields: Seq<Seq<char>>) -> Seq<char>
    decreases fields.len(),
{
    if fields.len() == 0 {
        Seq::<char>::empty()
    } else if fields.len() == 1 {
        fields[0]
    } else {
        join_spec(fields.drop_last()) + backlink_separator() + fields.last()
    }
}

/// The character sequences of a sequence of strings.
pub open spec fn strings_view(v: Seq<String>) -> Seq<Seq<char>> {
    v.map_values(|s: String| s@)
}

/// A string of backlinks always splits into at least one field.
pub proof fn lemma_split_nonempty(s: Seq<char>)
    ensures
        split_spec(s).len() >= 1,
    decreases s.len(),
{
    if s.len() == 0 {
    } else if starts_with_separator(s) {
        lemma_split_nonempty(s.skip(separator_len() as int));
    } else {
        lemma_split_nonempty(s.skip(1));
    }
}

/// Joining peels off the first field.
pub proof fn lemma_join_cons(fields: Seq<Seq<char>>)
    requires
        fields.len() >= 2,
    ensures
        join_spec(fields) == fields[0] + backlink_separator() + join_spec(fields.drop_first()),
    decreases fields.len(),
{
    if fields.len() == 2 {
        assert(fields.drop_last() =~= seq![fields[0]]);
        assert(fields.drop_first() =~= seq![fields[1]]);
        assert(join_spec(fields.drop_last()) == fields[0]);
        assert(join_spec(fields.drop_first()) == fields[1]);
    } else {
        let init = fields.drop_last();
        lemma_join_cons(init);
        assert(init.drop_first() =~= fields.drop_first().drop_last());
        assert(fields.drop_first().last() == fields.last());
        assert(join_spec(fields.drop_first()) == join_spec(fields.drop_first().drop_last())
            + backlink_separator() + fields.drop_first().last());
        assert(join_spec(fields) =~= fields[0] + backlink_separator() + join_spec(
            fields.drop_first(),
        ));
    }
}

/// Putting characters in front of the first field puts them in front of the
/// joined text.
pub proof fn lemma_join_prepend(prefix: Seq<char>, fields: Seq<Seq<char>>)
    requires
        fields.len() >= 1,
    ensures
        join_spec(prepend_to_first(prefix, fields)) == prefix + join_spec(fields),
{
    let p = prepend_to_first(prefix, fields);
    if fields.len() == 1 {
    } else {
        lemma_join_cons(fields);
        lemma_join_cons(p);
        assert(p.drop_first() =~= fields.drop_first());
        assert(join_spec(p) =~= prefix + join_spec(fields));
    }
}

/// Joining the fields of a split gives back the text that was split.
pub proof fn lemma_join_split(s: Seq<char>)
    ensures
        join_spec(split_spec(s)) == s,
    decreases s.len(),
{
    if s.len() == 0 {
    } else if starts_with_separator(s) {
        let rest = s.skip(separator_len() as int);
        lemma_join_split(rest);
        lemma_split_nonempty(rest);
        let fields = seq![Seq::<char>::empty()] + split_spec(rest);
        lemma_join_cons(fields);
        assert(fields.drop_first() =~= split_spec(rest));
        assert(s =~= s.take(separator_len() as int) + rest);
        assert(join_spec(fields) =~= s);
    } else {
        let rest = s.skip(1);
        lemma_join_split(rest);
        lemma_split_nonempty(rest);
        lemma_join_prepend(seq![s[0]], split_spec(rest));
        assert(s =~= seq![s[0]] + rest);
    }
}

/// A text without the separator is a single field.
pub proof fn lemma_split_plain(a: Seq<char>)
    requires
        !contains_separator(a),
    ensures
        split_spec(a) == seq![a],
    decreases a.len(),
{
    if a.len() == 0 {
        assert(a =~= Seq::<char>::empty());
    } else {
        assert(!starts_with_separator(a));
        assert(!contains_separator(a.skip(1)));
        assert(split_spec(a) == prepend_to_first(seq![a[0]], split_spec(a.skip(1))));
        lemma_split_plain(a.skip(1));
        assert(seq![a[0]] + a.skip(1) =~= a);
        assert(prepend_to_first(seq![a[0]], seq![a.skip(1)]) =~= seq![a]);
    }
}

/// No proper suffix of the separator is one of its prefixes: its first
/// character does not occur again in it.
pub proof fn lemma_separator_unbordered(k: int)
    requires
        1 <= k < separator_len(),
    ensures
        backlink_separator()[k] != backlink_separator()[0],
{
}

/// A field without the separator, the separator, and a rest split into that
/// field followed by the fields of the rest.
pub proof fn lemma_split_field(a: Seq<char>, t: Seq<char>)
    requires
        !contains_separator(a),
    ensures
        split_spec(a + backlink_separator() + t) == seq![a] + split_spec(t),
    decreases a.len(),
{
    let sep = backlink_separator();
    let s = a + sep + t;
    if a.len() == 0 {
        assert(s =~= sep + t);
        assert(s.take(separator_len() as int) =~= sep);
        assert(s.skip(separator_len() as int) =~= t);
        assert(split_spec(s) == seq![Seq::<char>::empty()] + split_spec(t));
        assert(a =~= Seq::<char>::empty());
    } else {
        let k = a.len();
        if starts_with_separator(s) {
            if k >= separator_len() {
                assert(a.take(separator_len() as int) =~= s.take(separator_len() as int));
            } else {
                lemma_separator_unbordered(k as int);
                assert(s[k as int] == sep[0]);
                assert(s.take(separator_len() as int)[k as int] == sep[k as int]);
            }
        }
        assert(!starts_with_separator(s));
        assert(!starts_with_separator(a));
        assert(!contains_separator(a.skip(1)));
        lemma_split_field(a.skip(1), t);
        assert(s.skip(1) =~= a.skip(1) + sep + t);
        assert(s[0] == a[0]);
        assert(split_spec(s) == prepend_to_first(seq![s[0]], split_spec(s.skip(1))));
        assert(seq![a[0]] + a.skip(1) =~= a);
        assert(prepend_to_first(seq![a[0]], seq![a.skip(1)] + split_spec(t)) =~= seq![a]
            + split_spec(t));
    }
}

/// Splitting the join of fields that hold no separator gives back the
/// fields, provided there is at least one.
pub proof fn lemma_split_join(fields: Seq<Seq<char>>)
    requires
        fields.len() >= 1,
        forall|i: int| 0 <= i < fields.len() ==> !contains_separator(#[trigger] fields[i]),
    ensures
        split_spec(join_spec(fields)) == fields,
    decreases fields.len(),
{
    if fields.len() == 1 {
        lemma_split_plain(fields[0]);
        assert(seq![fields[0]] =~= fields);
    } else {
        let rest = fields.drop_first();
        assert forall|i: int| 0 <= i < rest.len() implies !contains_separator(
            #[trigger] rest[i],
        ) by {
            assert(rest[i] == fields[i + 1]);
        }
        lemma_split_join(rest);
        lemma_join_cons(fields);
        lemma_split_field(fields[0], join_spec(rest));
        assert(seq![fields[0]] + rest =~= fields);
    }
}

/// The separator as a string.
fn separator_string() -> (sep: String)
    ensures
        sep@ == backlink_separator(),
{
    let mut sep = String::new();
    push_char(&mut sep, '\u{1F642}');
    push_char(&mut sep, '\u{200D}');
    push_char(&mut sep, '\u{2195}');
    push_char(&mut sep, '\u{FE0F}');
    assert(sep@ =~= backlink_separator());
    sep
}

/// Splits a stored column of backlinks into the single links.
pub fn split_backlinks(links: String) -> (fields: Vec<String>)
    ensures
        strings_view(fields@) == split_spec(links@),
        fields.len() >= 1,
{
    let chars = chars_of(links.as_str());
    let n = chars.len();
    let mut fields: Vec<String> = Vec::new();
    let mut current = String::new();
    let mut i: usize = 0;
    proof {
        assert(links@.skip(0) =~= links@);
        lemma_split_nonempty(links@);
        assert(prepend_to_first(Seq::<char>::empty(), split_spec(links@)) =~= split_spec(
            links@,
        ));
        assert(strings_view(fields@) =~= Seq::<Seq<char>>::empty());
        assert(split_spec(links@) =~= strings_view(fields@) + prepend_to_first(
            current@,
            split_spec(links@.skip(0)),
        ));
    }
    while i < n
        invariant
            chars@ == links@,
            n == chars.len(),
            i <= n,
            split_spec(links@) == strings_view(fields@) + prepend_to_first(
                current@,
                split_spec(links@.skip(i as int)),
            ),
        decreases n - i,
    {
        let ghost s = links@.skip(i as int);
        if n - i >= 4 && chars[i] == '\u{1F642}' && chars[i + 1] == '\u{200D}' && chars[i + 2]
            == '\u{2195}' && chars[i + 3] == '\u{FE0F}' {
            proof {
                assert(s.take(4) =~= backlink_separator());
                assert(s.skip(4) =~= links@.skip(i + 4));
                lemma_split_nonempty(links@.skip(i + 4));
                assert(prepend_to_first(current@, split_spec(s)) =~= seq![current@]
                    + prepend_to_first(Seq::<char>::empty(), split_spec(links@.skip(i + 4))));
            }
            let ghost old_fields = fields@;
            fields.push(current);
            current = String::new();
            i = i + 4;
            proof {
                assert(strings_view(fields@) =~= strings_view(old_fields).push(
                    fields@.last()@,
                ));
            }
        } else {
            proof {
                if starts_with_separator(s) {
                    assert(s.take(4)[0] == backlink_separator()[0]);
                    assert(s.take(4)[1] == backlink_separator()[1]);
                    assert(s.take(4)[2] == backlink_separator()[2]);
                    assert(s.take(4)[3] == backlink_separator()[3]);
                }
                assert(s.skip(1) =~= links@.skip(i + 1));
                lemma_split_nonempty(links@.skip(i + 1));
                assert(s.len() > 0);
                assert(split_spec(s) == prepend_to_first(seq![s[0]], split_spec(s.skip(1))));
                assert(s[0] == chars@[i as int]);
            }
            let ghost old_current = current@;
            push_char(&mut current, chars[i]);
            i = i + 1;
            proof {
                assert(current@ == old_current.push(s[0]));
                assert(old_current + (seq![s[0]] + split_spec(links@.skip(i as int))[0])
                    =~= current@ + split_spec(links@.skip(i as int))[0]);
                assert(prepend_to_first(old_current, prepend_to_first(
                    seq![s[0]],
                    split_spec(links@.skip(i as int)),
                )) =~= prepend_to_first(current@, split_spec(links@.skip(i as int))));
            }
        }
    }
    proof {
        assert(links@.skip(n as int) =~= Seq::<char>::empty());
        assert(prepend_to_first(current@, seq![Seq::<char>::empty()]) =~= seq![current@]);
    }
    let ghost old_fields = fields@;
    fields.push(current);
    proof {
        assert(strings_view(fields@) =~= strings_view(old_fields).push(fields@.last()@));
    }
    fields
}

/// Joins single backlinks into the text that is stored.
pub fn join_backlinks(links: Vec<String>) -> (joined: String)
    ensures
        joined@ == join_spec(strings_view(links@)),
{
    let sep = separator_string();
    let mut joined = String::new();
    let n = links.len();
    let mut i: usize = 0;
    while i < n
        invariant
            n == links.len(),
            i <= n,
            sep@ == backlink_separator(),
            joined@ == join_spec(strings_view(links@).take(i as int)),
        decreases n - i,
    {
        let ghost prefix = strings_view(links@).take(i as int);
        let ghost next = strings_view(links@).take(i + 1);
        if i > 0 {
            joined.append(sep.as_str());
        }
        joined.append(links[i].as_str());
        proof {
            assert(next.drop_last() =~= prefix);
            assert(next.last() == links@[i as int]@);
            if i == 0 {
                assert(joined@ =~= join_spec(next));
            }
        }
        i = i + 1;
    }
    proof {
        assert(strings_view(links@).take(n as int) =~= strings_view(links@));
    }
    joined
}

/// Splitting what was joined gives back the links, as long as there is at
/// least one link and none of them holds the separator.
pub proof fn law_split_after_join(links: Seq<Seq<char>>)
    requires
        links.len() >= 1,
        forall|i: int| 0 <= i < links.len() ==> !contains_separator(#[trigger] links[i]),
    ensures
        split_spec(join_spec(links)) == links,
{
    lemma_split_join(links);
}

/// Joining what was split gives back the stored text, whatever it is.
pub proof fn law_join_after_split(stored: Seq<char>)
    ensures
        join_spec(split_spec(stored)) == stored,
{
    lemma_join_split(stored);
}

} // verus!
