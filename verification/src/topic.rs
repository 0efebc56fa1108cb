//! Topic filters: the filter a session subscribes to, and what a filter
//! matches.
//!
//! A topic and a filter are read as levels, the stretches between slashes. In
//! a filter the level `#` stands for every level that follows, none included,
//! and the level `+` for any one level.

use vstd::prelude::*;
use vstd::std_specs::iter::IteratorSpec;
use vstd::string::*;

verus! {

/// The filter for a base topic: everything when the base is empty, else
/// everything below `/<base>/`.
pub open spec fn filter_of(base: Seq<char>) -> Seq<char> {
    if base.len() == 0 {
        seq!['#']
    } else {
        seq!['/'] + base + seq!['/', '#']
    }
}

/// The levels of a topic or filter, in order. The text without a slash is one
/// level; each slash begins another, which may be empty.
pub open spec fn levels(s: Seq<char>) -> Seq<Seq<char>>
    decreases s.len(),
{
    if s.len() == 0 {
        seq![Seq::<char>::empty()]
    } else if s.last() == '/' {
        levels(s.drop_last()).push(Seq::<char>::empty())
    } else {
        let before = levels(s.drop_last());
        before.drop_last().push(before.last().push(s.last()))
    }
}

/// The level that stands for all further levels.
pub open spec fn many() -> Seq<char> {
    seq!['#']
}

/// The level that stands for any one level.
pub open spec fn single() -> Seq<char> {
    seq!['+']
}

/// Whether a filter's levels match a topic's levels.
pub open spec fn levels_match(filter: Seq<Seq<char>>, topic: Seq<Seq<char>>) -> bool
    decreases filter.len(),
{
    if filter.len() == 0 {
        topic.len() == 0
    } else if filter[0] == many() {
        filter.len() == 1
    } else if topic.len() == 0 {
        false
    } else {
        (filter[0] == single() || filter[0] == topic[0]) && levels_match(
            filter.skip(1),
            topic.skip(1),
        )
    }
}

/// Whether a topic is one the broker keeps for itself: such a topic begins
/// with `$`, and no filter that begins with a wildcard matches it.
pub open spec fn reserved(topic: Seq<char>) -> bool {
    topic.len() > 0 && topic[0] == '$'
}

/// Whether a filter begins with a wildcard.
pub open spec fn opens_wild(filter: Seq<char>) -> bool {
    filter.len() > 0 && (filter[0] == '#' || filter[0] == '+')
}

/// Whether a subscription to `filter` receives what is published on `topic`.
pub open spec fn matches(filter: Seq<char>, topic: Seq<char>) -> bool {
    levels_match(levels(filter), levels(topic)) && !(reserved(topic) && opens_wild(filter))
}

/// Every text has at least one level.
pub proof fn lemma_levels_nonempty(s: Seq<char>)
    ensures
        levels(s).len() >= 1,
    decreases s.len(),
{
    if s.len() > 0 {
        lemma_levels_nonempty(s.drop_last());
    }
}

/// A slash between two texts keeps their levels apart: the levels of the
/// whole are those of the first part, then those of the second.
pub proof fn lemma_levels_join(x: Seq<char>, y: Seq<char>)
    ensures
        levels(x + seq!['/'] + y) == levels(x) + levels(y),
    decreases y.len(),
{
    let whole = x + seq!['/'] + y;
    if y.len() == 0 {
        assert(whole.drop_last() == x);
        assert(levels(x).push(Seq::<char>::empty()) == levels(x) + levels(y));
    } else {
        let shorter = y.drop_last();
        lemma_levels_join(x, shorter);
        lemma_levels_nonempty(shorter);
        assert(whole.drop_last() == x + seq!['/'] + shorter);
        assert(whole.last() == y.last());
        let joined = levels(x) + levels(shorter);
        if y.last() == '/' {
            assert(joined.push(Seq::<char>::empty()) == levels(x) + levels(y));
        } else {
            assert(joined.last() == levels(shorter).last());
            assert(joined.drop_last() == levels(x) + levels(shorter).drop_last());
            assert(joined.drop_last().push(joined.last().push(y.last())) == levels(x) + levels(y));
        }
    }
}

/// The filter derived from a base topic.
pub fn topic_filter(base_topic: &str) -> (filter: String)
    ensures
        filter@ == filter_of(base_topic@),
{
    proof {
        reveal_strlit("#");
        reveal_strlit("/");
        reveal_strlit("/#");
    }
    if base_topic.is_empty() {
        let filter = String::from_str("#");
        assert(filter@ == seq!['#']);
        filter
    } else {
        let mut filter = String::from_str("/");
        filter.append(base_topic);
        filter.append("/#");
        assert(filter@ == seq!['/'] + base_topic@ + seq!['/', '#']);
        filter
    }
}

/// The texts of a list of levels.
spec fn rows(v: Seq<Vec<char>>) -> Seq<Seq<char>> {
    v.map_values(|level: Vec<char>| level@)
}

/// The characters of a text, in order.
fn chars_of(s: &str) -> (v: Vec<char>)
    ensures
        v@ == s@,
{
    broadcast use group_string_axioms;

    let mut v: Vec<char> = Vec::new();
    for c in rest: s.chars()
        invariant
            rest.seq() == s@,
            v@ == s@.take(rest.index() as int),
    {
        v.push(c);
    }
    v
}

/// Splits a text at its slashes.
fn split_levels(text: &Vec<char>) -> (out: Vec<Vec<char>>)
    ensures
        rows(out@) == levels(text@),
{
    let mut out: Vec<Vec<char>> = Vec::new();
    let mut current: Vec<char> = Vec::new();
    let mut i: usize = 0;
    while i < text.len()
        invariant
            i <= text.len(),
            rows(out@).push(current@) == levels(text@.take(i as int)),
        decreases text.len() - i,
    {
        let c = text[i];
        proof {
            let upto = text@.take(i + 1);
            assert(upto.drop_last() == text@.take(i as int));
            assert(upto.last() == c);
            assert(rows(out@).push(current@).drop_last() == rows(out@));
        }
        let ghost before = out@;
        let ghost level = current@;
        if c == '/' {
            out.push(current);
            current = Vec::new();
            assert(rows(out@) == rows(before).push(level));
        } else {
            current.push(c);
        }
        i += 1;
    }
    assert(text@.take(i as int) == text@);
    let ghost before = out@;
    let ghost level = current@;
    out.push(current);
    assert(rows(out@) == rows(before).push(level));
    out
}

/// Whether two levels are the same text.
fn same_level(a: &Vec<char>, b: &Vec<char>) -> (same: bool)
    ensures
        same == (a@ == b@),
{
    if a.len() != b.len() {
        return false;
    }
    let mut i: usize = 0;
    while i < a.len()
        invariant
            i <= a.len(),
            a.len() == b.len(),
            a@.take(i as int) == b@.take(i as int),
        decreases a.len() - i,
    {
        if a[i] != b[i] {
            return false;
        }
        assert(a@.take(i + 1) == a@.take(i as int).push(a@[i as int]));
        assert(b@.take(i + 1) == b@.take(i as int).push(b@[i as int]));
        i += 1;
    }
    assert(a@.take(i as int) == a@);
    assert(b@.take(i as int) == b@);
    true
}

/// Whether a level is the one character `c`.
fn is_mark(level: &Vec<char>, c: char) -> (yes: bool)
    ensures
        yes == (level@ == seq![c]),
{
    let yes = level.len() == 1 && level[0] == c;
    assert(yes == (level@ =~= seq![c]));
    yes
}

/// Whether the levels of a filter match the levels of a topic.
fn match_levels(filter: &Vec<Vec<char>>, topic: &Vec<Vec<char>>) -> (matched: bool)
    ensures
        matched == levels_match(rows(filter@), rows(topic@)),
{
    let mut i: usize = 0;
    assert(rows(filter@).skip(0) == rows(filter@));
    assert(rows(topic@).skip(0) == rows(topic@));
    while i < filter.len()
        invariant
            i <= filter.len(),
            i <= topic.len(),
            levels_match(rows(filter@), rows(topic@)) == levels_match(
                rows(filter@).skip(i as int),
                rows(topic@).skip(i as int),
            ),
        decreases filter.len() - i,
    {
        assert(rows(filter@).skip(i as int).skip(1) == rows(filter@).skip(i + 1));
        if is_mark(&filter[i], '#') {
            return i + 1 == filter.len();
        }
        if i >= topic.len() {
            return false;
        }
        assert(rows(topic@).skip(i as int).skip(1) == rows(topic@).skip(i + 1));
        if !(is_mark(&filter[i], '+') || same_level(&filter[i], &topic[i])) {
            return false;
        }
        i += 1;
    }
    i == topic.len()
}

/// Whether a subscription to `filter` receives what is published on `topic`.
pub fn filter_matches(filter: &str, topic: &str) -> (matched: bool)
    ensures
        matched == matches(filter@, topic@),
{
    let f = chars_of(filter);
    let t = chars_of(topic);
    let kept_back = t.len() > 0 && t[0] == '$' && f.len() > 0 && (f[0] == '#' || f[0] == '+');
    let f_levels = split_levels(&f);
    let t_levels = split_levels(&t);
    match_levels(&f_levels, &t_levels) && !kept_back
}

/// The levels a topic must begin with to lie under a base topic: one empty
/// level, for the slash in front, then the levels of the base.
pub open spec fn stem_of(base: Seq<char>) -> Seq<Seq<char>> {
    seq![Seq::<char>::empty()] + levels(base)
}

/// Whether a topic is `/<base>` itself or lies below it.
pub open spec fn under(base: Seq<char>, topic: Seq<char>) -> bool {
    let stem = stem_of(base);
    levels(topic).len() >= stem.len() && levels(topic).take(stem.len() as int) == stem
}

/// Whether no level of a text is a wildcard.
pub open spec fn plain(text: Seq<char>) -> bool {
    forall|i: int|
        0 <= i < levels(text).len() ==> #[trigger] levels(text)[i] != many() && levels(text)[i]
            != single()
}

/// Levels without a wildcard, followed by `#`, match exactly the topics that
/// begin with those levels.
proof fn lemma_stem_then_many(stem: Seq<Seq<char>>, topic: Seq<Seq<char>>)
    requires
        forall|i: int| 0 <= i < stem.len() ==> #[trigger] stem[i] != many() && stem[i] != single(),
    ensures
        levels_match(stem.push(many()), topic) <==> topic.len() >= stem.len() && topic.take(
            stem.len() as int,
        ) == stem,
    decreases stem.len(),
{
    let filter = stem.push(many());
    if stem.len() == 0 {
        assert(topic.take(0) == stem);
    } else {
        assert(filter[0] == stem[0]);
        if topic.len() > 0 {
            let stem_rest = stem.skip(1);
            let topic_rest = topic.skip(1);
            assert(filter.skip(1) == stem_rest.push(many()));
            assert forall|i: int| 0 <= i < stem_rest.len() implies #[trigger] stem_rest[i]
                != many() && stem_rest[i] != single() by {
                assert(stem_rest[i] == stem[i + 1]);
            }
            lemma_stem_then_many(stem_rest, topic_rest);
            if topic.len() >= stem.len() && topic.take(stem.len() as int) == stem {
                assert(topic[0] == topic.take(stem.len() as int)[0]);
                assert(topic_rest.take(stem_rest.len() as int) == stem_rest) by {
                    assert forall|i: int| 0 <= i < stem_rest.len() implies topic_rest.take(
                        stem_rest.len() as int,
                    )[i] == stem_rest[i] by {
                        assert(topic.take(stem.len() as int)[i + 1] == stem[i + 1]);
                    }
                }
            }
            if topic[0] == stem[0] && topic_rest.len() >= stem_rest.len() && topic_rest.take(
                stem_rest.len() as int,
            ) == stem_rest {
                assert(topic.take(stem.len() as int) == stem) by {
                    assert forall|i: int| 0 <= i < stem.len() implies topic.take(
                        stem.len() as int,
                    )[i] == stem[i] by {
                        if i > 0 {
                            assert(topic_rest.take(stem_rest.len() as int)[i - 1] == stem_rest[i
                                - 1]);
                        }
                    }
                }
            }
        }
    }
}

/// The levels of a derived filter: `#` alone for the empty base, else the
/// stem of the base and then `#`.
pub proof fn lemma_filter_levels(base: Seq<char>)
    ensures
        levels(filter_of(base)) == if base.len() == 0 {
            seq![many()]
        } else {
            stem_of(base).push(many())
        },
{
    reveal_with_fuel(levels, 2);
    let hash = seq!['#'];
    assert(hash.drop_last() == Seq::<char>::empty());
    assert(levels(hash) == seq![many()]);
    if base.len() > 0 {
        let empty = Seq::<char>::empty();
        lemma_levels_join(base, hash);
        lemma_levels_join(empty, base + seq!['/'] + hash);
        assert(filter_of(base) == empty + seq!['/'] + (base + seq!['/'] + hash));
        assert(levels(empty) + (levels(base) + levels(hash)) == stem_of(base).push(many()));
    }
}

/// With an empty base the filter takes every topic but those the broker
/// keeps for itself.
pub proof fn law_open_filter(topic: Seq<char>)
    ensures
        matches(filter_of(Seq::<char>::empty()), topic) <==> !reserved(topic),
{
    lemma_filter_levels(Seq::<char>::empty());
}

/// With a base that holds no wildcard the filter takes exactly the topics
/// under `/<base>`: that topic itself and all below it, at any depth.
pub proof fn law_scoped_filter(base: Seq<char>, topic: Seq<char>)
    requires
        base.len() > 0,
        plain(base),
    ensures
        matches(filter_of(base), topic) <==> under(base, topic),
{
    lemma_filter_levels(base);
    let stem = stem_of(base);
    assert forall|i: int| 0 <= i < stem.len() implies #[trigger] stem[i] != many() && stem[i]
        != single() by {
        if i == 0 {
            assert(stem[0].len() == 0);
            assert(many().len() == 1);
            assert(single().len() == 1);
        } else {
            assert(stem[i] == levels(base)[i - 1]);
        }
    }
    lemma_stem_then_many(stem, levels(topic));
    assert(filter_of(base)[0] == '/');
}

/// A topic spelled `/<base>/<rest>` lies under the base, whatever the rest.
pub proof fn law_below_base_is_under(base: Seq<char>, rest: Seq<char>)
    ensures
        under(base, seq!['/'] + base + seq!['/'] + rest),
{
    let empty = Seq::<char>::empty();
    let topic = seq!['/'] + base + seq!['/'] + rest;
    lemma_levels_join(base, rest);
    lemma_levels_join(empty, base + seq!['/'] + rest);
    assert(topic == empty + seq!['/'] + (base + seq!['/'] + rest));
    lemma_levels_nonempty(rest);
    let stem = stem_of(base);
    assert(levels(topic) == stem + levels(rest));
    assert(levels(topic).take(stem.len() as int) == stem);
}

} // verus!
