//! What holds of the todo list, and of the hook report, across operations.

use vstd::prelude::*;

use crate::todo::{
    completed_count, done, first_index_of, has_id, is_first_with_id, lemma_first_index_is_unique,
    lemma_has_first, pending, toggled, without_id, TodoEntry,
};
use crate::shell::joined_lines;

verus! {

/// Filtering a sequence whose every element passes gives the sequence back.
proof fn lemma_filter_keeps_all<A>(s: Seq<A>, p: spec_fn(A) -> bool)
    requires
        forall|i: int| 0 <= i < s.len() ==> p(#[trigger] s[i]),
    ensures
        s.filter(p) == s,
    decreases s.len(),
{
    reveal(Seq::filter);
    if s.len() > 0 {
        lemma_filter_keeps_all(s.drop_last(), p);
        assert(s.drop_last().push(s.last()) =~= s);
    }
}

/// Filtering twice by one predicate is filtering once.
proof fn lemma_filter_twice<A>(s: Seq<A>, p: spec_fn(A) -> bool)
    ensures
        s.filter(p).filter(p) == s.filter(p),
{
    assert forall|i: int| 0 <= i < s.filter(p).len() implies p(#[trigger] s.filter(p)[i]) by {
        s.lemma_filter_pred(p, i);
    }
    lemma_filter_keeps_all(s.filter(p), p);
}

/// Where `q` is the negation of `p`, the two filters share out the sequence.
proof fn lemma_filter_split<A>(s: Seq<A>, p: spec_fn(A) -> bool, q: spec_fn(A) -> bool)
    requires
        forall|x: A| #[trigger] q(x) == !p(x),
    ensures
        s.filter(p).len() + s.filter(q).len() == s.len(),
    decreases s.len(),
{
    reveal(Seq::filter);
    if s.len() > 0 {
        lemma_filter_split(s.drop_last(), p, q);
        assert(q(s.last()) == !p(s.last()));
    }
}

/// Toggling the same id twice gives the list back.
pub proof fn law_toggle_twice_restores(s: Seq<TodoEntry>, id: Seq<char>)
    ensures
        toggled(toggled(s, id), id) == s,
{
    if has_id(s, id) {
        lemma_has_first(s, id);
        let i = first_index_of(s, id);
        let t = toggled(s, id);
        assert(t == s.update(i, s[i].flipped()));
        assert forall|j: int| 0 <= j < i implies #[trigger] t[j].id != id by {
            assert(s[j].id != id);
        }
        assert(is_first_with_id(t, id, i));
        lemma_first_index_is_unique(t, id, i);
        assert(t[i].flipped() == s[i]);
        assert(toggled(t, id) =~= s);
    }
}

/// Toggling keeps the length, the order and every id, text and time of
/// making; it turns over the flag of the first entry with the id and of no
/// other entry.
pub proof fn law_toggle_changes_only_the_first_match(s: Seq<TodoEntry>, id: Seq<char>)
    ensures
        toggled(s, id).len() == s.len(),
        forall|j: int|
            0 <= j < s.len() ==> {
                &&& #[trigger] toggled(s, id)[j].id == s[j].id
                &&& toggled(s, id)[j].text == s[j].text
                &&& toggled(s, id)[j].created_at == s[j].created_at
                &&& toggled(s, id)[j].completed == if has_id(s, id) && j == first_index_of(
                    s,
                    id,
                ) {
                    !s[j].completed
                } else {
                    s[j].completed
                }
            },
{
    if has_id(s, id) {
        lemma_has_first(s, id);
    }
}

/// Toggling an id that no entry has changes nothing.
pub proof fn law_toggle_unknown_id_changes_nothing(s: Seq<TodoEntry>, id: Seq<char>)
    requires
        !has_id(s, id),
    ensures
        toggled(s, id) == s,
{
}

/// After a delete no entry has the id, and every entry with another id is
/// still there.
pub proof fn law_delete_removes_exactly_the_matches(s: Seq<TodoEntry>, id: Seq<char>)
    ensures
        !has_id(without_id(s, id), id),
        forall|i: int|
            0 <= i < s.len() && s[i].id != id ==> without_id(s, id).contains(#[trigger] s[i]),
{
    let p = |t: TodoEntry| t.id != id;
    assert(without_id(s, id) == s.filter(p));
    assert forall|i: int| 0 <= i < s.filter(p).len() implies #[trigger] s.filter(p)[i].id
        != id by {
        s.lemma_filter_pred(p, i);
    }
    assert forall|i: int| 0 <= i < s.len() && s[i].id != id implies s.filter(p).contains(
        #[trigger] s[i],
    ) by {
        s.lemma_filter_contains(p, i);
    }
}

/// Deleting an id twice is deleting it once.
pub proof fn law_delete_twice_is_delete_once(s: Seq<TodoEntry>, id: Seq<char>)
    ensures
        without_id(without_id(s, id), id) == without_id(s, id),
{
    lemma_filter_twice(s, |t: TodoEntry| t.id != id);
}

/// Deleting an id that no entry has changes nothing.
pub proof fn law_delete_unknown_id_changes_nothing(s: Seq<TodoEntry>, id: Seq<char>)
    requires
        !has_id(s, id),
    ensures
        without_id(s, id) == s,
{
    let p = |t: TodoEntry| t.id != id;
    assert forall|i: int| 0 <= i < s.len() implies p(#[trigger] s[i]) by {
        assert(s[i].id != id);
    }
    lemma_filter_keeps_all(s, p);
}

/// Deleting the entry that was just appended, under an id that no other
/// entry has, gives the list from before the append.
pub proof fn law_delete_undoes_append(s: Seq<TodoEntry>, entry: TodoEntry)
    requires
        !has_id(s, entry.id),
    ensures
        without_id(s.push(entry), entry.id) == s,
{
    reveal(Seq::filter);
    assert(s.push(entry).drop_last() =~= s);
    law_delete_unknown_id_changes_nothing(s, entry.id);
}

/// Clearing drops exactly as many entries as are completed.
pub proof fn law_clear_counts_the_completed(s: Seq<TodoEntry>)
    ensures
        completed_count(s) + pending(s).len() == s.len(),
{
    let p = |t: TodoEntry| t.completed;
    let q = |t: TodoEntry| !t.completed;
    assert(done(s) == s.filter(p));
    assert(pending(s) == s.filter(q));
    lemma_filter_split(s, p, q);
}

/// After clearing no entry is completed, every entry that was not completed
/// is still there, and a second clear finds nothing to drop.
pub proof fn law_clear_leaves_only_pending(s: Seq<TodoEntry>)
    ensures
        forall|i: int| 0 <= i < pending(s).len() ==> !(#[trigger] pending(s)[i]).completed,
        forall|i: int| 0 <= i < s.len() && !s[i].completed ==> pending(s).contains(#[trigger] s[i]),
        completed_count(pending(s)) == 0,
{
    let q = |t: TodoEntry| !t.completed;
    assert(pending(s) == s.filter(q));
    assert forall|i: int| 0 <= i < pending(s).len() implies !(#[trigger] pending(s)[i]).completed by {
        s.lemma_filter_pred(q, i);
    }
    assert forall|i: int| 0 <= i < s.len() && !s[i].completed implies pending(s).contains(
        #[trigger] s[i],
    ) by {
        s.lemma_filter_contains(q, i);
    }
    law_clear_counts_the_completed(pending(s));
    law_clear_twice_is_clear_once(s);
}

/// Clearing twice is clearing once.
pub proof fn law_clear_twice_is_clear_once(s: Seq<TodoEntry>)
    ensures
        pending(pending(s)) == pending(s),
{
    lemma_filter_twice(s, |t: TodoEntry| !t.completed);
}

/// Deleting works entry by entry and keeps order: deleting from two lists
/// put end to end gives what is left of the first list followed by what is
/// left of the second.
pub proof fn law_delete_keeps_order_across_concatenation(
    a: Seq<TodoEntry>,
    b: Seq<TodoEntry>,
    id: Seq<char>,
)
    ensures
        without_id(a + b, id) == without_id(a, id) + without_id(b, id),
{
    Seq::filter_distributes_over_add(a, b, |t: TodoEntry| t.id != id);
}

/// Deleting from the empty list gives the empty list; deleting from a list
/// of one entry drops that entry exactly where it has the id.
pub proof fn law_delete_on_one_entry(e: TodoEntry, id: Seq<char>)
    ensures
        without_id(Seq::empty(), id) == Seq::<TodoEntry>::empty(),
        without_id(seq![e], id) == if e.id == id {
            Seq::<TodoEntry>::empty()
        } else {
            seq![e]
        },
{
    reveal_with_fuel(Seq::filter, 2);
    assert(seq![e].drop_last() =~= Seq::<TodoEntry>::empty());
    assert(Seq::<TodoEntry>::empty().push(e) =~= seq![e]);
}

/// Clearing works entry by entry and keeps order: clearing two lists put end
/// to end leaves the open entries of the first followed by those of the
/// second, and counts the completed entries of both.
pub proof fn law_clear_keeps_order_across_concatenation(a: Seq<TodoEntry>, b: Seq<TodoEntry>)
    ensures
        pending(a + b) == pending(a) + pending(b),
        completed_count(a + b) == completed_count(a) + completed_count(b),
{
    Seq::filter_distributes_over_add(a, b, |t: TodoEntry| !t.completed);
    Seq::filter_distributes_over_add(a, b, |t: TodoEntry| t.completed);
}

/// Clearing the empty list leaves it empty and counts nothing; clearing a
/// list of one entry drops and counts it exactly where it is completed.
pub proof fn law_clear_on_one_entry(e: TodoEntry)
    ensures
        pending(Seq::empty()) == Seq::<TodoEntry>::empty(),
        completed_count(Seq::empty()) == 0,
        pending(seq![e]) == if e.completed {
            Seq::<TodoEntry>::empty()
        } else {
            seq![e]
        },
        completed_count(seq![e]) == if e.completed {
            1nat
        } else {
            0nat
        },
{
    reveal_with_fuel(Seq::filter, 2);
    assert(seq![e].drop_last() =~= Seq::<TodoEntry>::empty());
    assert(Seq::<TodoEntry>::empty().push(e) =~= seq![e]);
}

/// The report of no lines is empty, and that of one line is the line.
pub proof fn law_join_of_one_line(line: Seq<char>)
    ensures
        joined_lines(Seq::empty()) == Seq::<char>::empty(),
        joined_lines(seq![line]) == line,
{
}

/// A further line goes at the end of the report, after a newline: no line is
/// dropped, and the lines keep their order.
pub proof fn law_join_adds_each_line_after_a_newline(lines: Seq<Seq<char>>, line: Seq<char>)
    requires
        lines.len() > 0,
    ensures
        joined_lines(lines.push(line)) == joined_lines(lines) + seq!['\n'] + line,
{
    assert(lines.push(line).drop_last() =~= lines);
}

} // verus!
