//! Block tags collected from block-type sources: each tag with the set of
//! blocks that carry it, both in ascending order.

use vstd::prelude::*;
use crate::text::{str_eq, str_le, text_le, LineBuffer, quoted_line, quoted_line_string};
use super::emit::{quoted_items_line, quoted_items_string};

verus! {

/// `a` comes strictly before `b`.
pub open spec fn text_lt(a: Seq<char>, b: Seq<char>) -> bool {
    text_le(a, b) && a != b
}

pub fn str_lt(a: &str, b: &str) -> (lt: bool)
    ensures
        lt == text_lt(a@, b@),
{
    str_le(a, b) && !str_eq(a, b)
}

/// `x` added to the ordered set `items`.
pub open spec fn set_insert(items: Seq<Seq<char>>, x: Seq<char>) -> Seq<Seq<char>>
    decreases items.len(),
{
    if items.len() == 0 {
        seq![x]
    } else if text_lt(items[0], x) {
        seq![items[0]] + set_insert(items.drop_first(), x)
    } else if items[0] == x {
        items
    } else {
        seq![x] + items
    }
}

/// A tag and the blocks that carry it.
#[derive(Debug, Clone)]
pub struct TagEntry {
    pub tag: String,
    pub blocks: Vec<String>,
}

pub open spec fn entry_view(e: TagEntry) -> (Seq<char>, Seq<Seq<char>>) {
    (e.tag@, e.blocks@.map_values(|b: String| b@))
}

/// `block` added to the blocks of `tag` in the ordered index `entries`.
pub open spec fn index_insert(
    entries: Seq<(Seq<char>, Seq<Seq<char>>)>,
    tag: Seq<char>,
    block: Seq<char>,
) -> Seq<(Seq<char>, Seq<Seq<char>>)>
    decreases entries.len(),
{
    if entries.len() == 0 {
        seq![(tag, seq![block])]
    } else if text_lt(entries[0].0, tag) {
        seq![entries[0]] + index_insert(entries.drop_first(), tag, block)
    } else if entries[0].0 == tag {
        seq![(tag, set_insert(entries[0].1, block))] + entries.drop_first()
    } else {
        seq![(tag, seq![block])] + entries
    }
}

proof fn lemma_set_insert_skip(items: Seq<Seq<char>>, x: Seq<char>, k: int)
    requires
        0 <= k <= items.len(),
        forall|i: int| 0 <= i < k ==> text_lt(#[trigger] items[i], x),
    ensures
        set_insert(items, x) == items.take(k) + set_insert(items.skip(k), x),
    decreases k,
{
    if k == 0 {
        assert(items.skip(0) =~= items);
        assert(items.take(0) + set_insert(items, x) =~= set_insert(items, x));
    } else {
        let t = items.drop_first();
        assert forall|i: int| 0 <= i < k - 1 implies text_lt(#[trigger] t[i], x) by {
            assert(t[i] == items[i + 1]);
        }
        lemma_set_insert_skip(t, x, k - 1);
        assert(t.skip(k - 1) =~= items.skip(k));
        assert(seq![items[0]] + t.take(k - 1) =~= items.take(k));
        assert(seq![items[0]] + (t.take(k - 1) + set_insert(t.skip(k - 1), x)) =~= items.take(k)
            + set_insert(items.skip(k), x));
    }
}

proof fn lemma_index_insert_skip(
    entries: Seq<(Seq<char>, Seq<Seq<char>>)>,
    tag: Seq<char>,
    block: Seq<char>,
    k: int,
)
    requires
        0 <= k <= entries.len(),
        forall|i: int| 0 <= i < k ==> text_lt(#[trigger] entries[i].0, tag),
    ensures
        index_insert(entries, tag, block) == entries.take(k) + index_insert(
            entries.skip(k),
            tag,
            block,
        ),
    decreases k,
{
    if k == 0 {
        assert(entries.skip(0) =~= entries);
        assert(entries.take(0) + index_insert(entries, tag, block) =~= index_insert(
            entries,
            tag,
            block,
        ));
    } else {
        let t = entries.drop_first();
        assert forall|i: int| 0 <= i < k - 1 implies text_lt(#[trigger] t[i].0, tag) by {
            assert(t[i] == entries[i + 1]);
        }
        lemma_index_insert_skip(t, tag, block, k - 1);
        assert(t.skip(k - 1) =~= entries.skip(k));
        assert(seq![entries[0]] + t.take(k - 1) =~= entries.take(k));
        assert(seq![entries[0]] + (t.take(k - 1) + index_insert(t.skip(k - 1), tag, block))
            =~= entries.take(k) + index_insert(entries.skip(k), tag, block));
    }
}

/// Adds `x` to the ordered set `items`.
fn insert_into_set(items: &mut Vec<String>, x: String)
    ensures
        final(items)@.map_values(|b: String| b@) == set_insert(
            old(items)@.map_values(|b: String| b@),
            x@,
        ),
{
    let ghost before = items@.map_values(|b: String| b@);
    let mut k: usize = 0;
    while k < items.len() && str_lt(items[k].as_str(), x.as_str())
        invariant
            0 <= k <= items@.len(),
            items@ == old(items)@,
            before == items@.map_values(|b: String| b@),
            forall|i: int| 0 <= i < k ==> text_lt(#[trigger] before[i], x@),
        decreases items.len() - k,
    {
        k = k + 1;
    }
    proof {
        lemma_set_insert_skip(before, x@, k as int);
    }
    if k < items.len() && str_eq(items[k].as_str(), x.as_str()) {
        proof {
            let rest = before.skip(k as int);
            assert(rest[0] == before[k as int]);
            assert(before.take(k as int) + rest =~= before);
        }
        return ;
    }
    items.insert(k, x);
    proof {
        let rest = before.skip(k as int);
        if k < before.len() {
            assert(rest[0] == before[k as int]);
        }
        assert(items@.map_values(|b: String| b@) =~= before.take(k as int) + set_insert(rest, x@));
    }
}

/// Tags and their blocks, both in ascending order, each once.
#[derive(Debug)]
pub struct TagIndex {
    entries: Vec<TagEntry>,
}

impl View for TagIndex {
    type V = Seq<(Seq<char>, Seq<Seq<char>>)>;

    closed spec fn view(&self) -> Seq<(Seq<char>, Seq<Seq<char>>)> {
        self.entries@.map_values(|e: TagEntry| entry_view(e))
    }
}

impl TagIndex {
    /// Tags stay in strictly ascending order, each with its blocks in
    /// strictly ascending order.
    #[verifier::type_invariant]
    pub open spec fn ascending(self) -> bool {
        index_ascending(self@)
    }

    pub fn new() -> (index: Self)
        ensures
            index@ == Seq::<(Seq<char>, Seq<Seq<char>>)>::empty(),
    {
        let entries: Vec<TagEntry> = Vec::new();
        assert(entries@.map_values(|e: TagEntry| entry_view(e)) =~= Seq::<
            (Seq<char>, Seq<Seq<char>>),
        >::empty());
        TagIndex { entries }
    }

    /// Records that `block` carries `tag`.
    pub fn insert(&mut self, tag: &str, block: String)
        ensures
            final(self)@ == index_insert(old(self)@, tag@, block@),
    {
        proof {
            use_type_invariant(&*self);
        }
        let ghost before = self@;
        let mut entries: Vec<TagEntry> = Vec::new();
        std::mem::swap(&mut entries, &mut self.entries);
        let mut k: usize = 0;
        while k < entries.len() && str_lt(entries[k].tag.as_str(), tag)
            invariant
                0 <= k <= entries@.len(),
                before == old(self)@,
                before == entries@.map_values(|e: TagEntry| entry_view(e)),
                forall|i: int| 0 <= i < k ==> text_lt(#[trigger] before[i].0, tag@),
            decreases entries.len() - k,
        {
            k = k + 1;
        }
        proof {
            lemma_index_insert_skip(before, tag@, block@, k as int);
        }
        let ghost rest = before.skip(k as int);
        if k < entries.len() && str_eq(entries[k].tag.as_str(), tag) {
            let mut entry = entries.remove(k);
            proof {
                assert(rest[0] == entry_view(entry));
            }
            insert_into_set(&mut entry.blocks, block);
            entries.insert(k, entry);
            proof {
                assert(entries@.map_values(|e: TagEntry| entry_view(e)) =~= before.take(k as int)
                    + index_insert(rest, tag@, block@));
            }
        } else {
            let mut blocks: Vec<String> = Vec::new();
            blocks.push(block);
            let entry = TagEntry { tag: crate::text::string_of(tag), blocks };
            proof {
                if k < before.len() {
                    assert(rest[0] == before[k as int]);
                }
                assert(entry_view(entry).1 =~= seq![block@]);
            }
            entries.insert(k, entry);
            proof {
                assert(entries@.map_values(|e: TagEntry| entry_view(e)) =~= before.take(k as int)
                    + index_insert(rest, tag@, block@));
            }
        }
        proof {
            lemma_index_insert_ascending(before, tag@, block@);
        }
        self.entries = entries;
    }
}

/// The `[[block_tags]]` tables of a tag index, in order.
pub open spec fn tag_tables_lines(entries: Seq<(Seq<char>, Seq<Seq<char>>)>) -> Seq<Seq<char>>
    decreases entries.len(),
{
    if entries.len() == 0 {
        Seq::empty()
    } else {
        tag_tables_lines(entries.drop_last()) + seq![
            "[[block_tags]]"@,
            quoted_line("key = "@, entries.last().0),
            quoted_items_line("blocks = "@, entries.last().1),
            ""@,
        ]
    }
}

impl TagIndex {
    /// Writes one `[[block_tags]]` table per tag.
    pub fn emit_tables(&self, out: &mut LineBuffer)
        requires
            old(out).wf(),
        ensures
            final(out).wf(),
            final(out).lines() == old(out).lines() + tag_tables_lines(self@),
    {
        let ghost all = self@;
        let mut i: usize = 0;
        assert(all.take(0) =~= Seq::<(Seq<char>, Seq<Seq<char>>)>::empty());
        assert(out.lines() =~= old(out).lines() + tag_tables_lines(all.take(0)));
        while i < self.entries.len()
            invariant
                0 <= i <= self.entries@.len(),
                all == self@,
                all == self.entries@.map_values(|e: TagEntry| entry_view(e)),
                out.wf(),
                out.lines() == old(out).lines() + tag_tables_lines(all.take(i as int)),
            decreases self.entries.len() - i,
        {
            let e = &self.entries[i];
            out.push("[[block_tags]]");
            out.push(quoted_line_string("key = ", e.tag.as_str()).as_str());
            out.push(quoted_items_string("blocks = ", &e.blocks).as_str());
            out.push("");
            proof {
                assert(all.take(i + 1).drop_last() =~= all.take(i as int));
                assert(all.take(i + 1).last() == entry_view(*e));
            }
            assert(out.lines() =~= old(out).lines() + tag_tables_lines(all.take(i + 1)));
            i = i + 1;
        }
        assert(all.take(all.len() as int) =~= all);
    }
}


/// Texts in strictly ascending order.
pub open spec fn strictly_ascending(items: Seq<Seq<char>>) -> bool {
    forall|i: int, j: int| 0 <= i < j < items.len() ==> text_lt(#[trigger] items[i], #[trigger] items[j])
}

/// Tags in strictly ascending order, each with its blocks in strictly
/// ascending order.
pub open spec fn index_ascending(entries: Seq<(Seq<char>, Seq<Seq<char>>)>) -> bool {
    &&& forall|i: int, j: int|
        0 <= i < j < entries.len() ==> text_lt(#[trigger] entries[i].0, #[trigger] entries[j].0)
    &&& forall|i: int| 0 <= i < entries.len() ==> strictly_ascending(#[trigger] entries[i].1)
}

proof fn lemma_text_lt_transitive(a: Seq<char>, b: Seq<char>, c: Seq<char>)
    requires
        text_lt(a, b),
        text_lt(b, c),
    ensures
        text_lt(a, c),
{
    crate::text::lemma_text_le_transitive(a, b, c);
    if a == c {
        crate::text::lemma_text_le_antisymmetric(a, b);
    }
}

proof fn lemma_text_lt_or_ge(a: Seq<char>, b: Seq<char>)
    ensures
        !text_lt(a, b) && a != b ==> text_lt(b, a),
{
    crate::text::lemma_text_le_total(a, b);
}

proof fn lemma_set_insert_contains(items: Seq<Seq<char>>, x: Seq<char>)
    ensures
        set_insert(items, x).contains(x),
    decreases items.len(),
{
    if items.len() == 0 {
        assert(set_insert(items, x)[0] == x);
    } else if text_lt(items[0], x) {
        lemma_set_insert_contains(items.drop_first(), x);
        let tail = set_insert(items.drop_first(), x);
        let m = choose|m: int| 0 <= m < tail.len() && tail[m] == x;
        assert(set_insert(items, x)[m + 1] == x);
    } else if items[0] == x {
        assert(set_insert(items, x)[0] == x);
    } else {
        assert(set_insert(items, x)[0] == x);
    }
}

/// Adding to an ascending set keeps it ascending; it then holds exactly its
/// old items and the new one.
pub proof fn lemma_set_insert_ascending(items: Seq<Seq<char>>, x: Seq<char>)
    requires
        strictly_ascending(items),
    ensures
        strictly_ascending(set_insert(items, x)),
        forall|y: Seq<char>| set_insert(items, x).contains(y) <==> (items.contains(y) || y == x),
    decreases items.len(),
{
    if items.len() == 0 {
        assert forall|y: Seq<char>| set_insert(items, x).contains(y) <==> (items.contains(y) || y
            == x) by {
            if y == x {
                assert(set_insert(items, x)[0] == x);
            }
        }
    } else {
        let rest = items.drop_first();
        assert forall|i: int, j: int| 0 <= i < j < rest.len() implies text_lt(
            #[trigger] rest[i],
            #[trigger] rest[j],
        ) by {
            assert(rest[i] == items[i + 1] && rest[j] == items[j + 1]);
        }
        if text_lt(items[0], x) {
            lemma_set_insert_ascending(rest, x);
            let r = set_insert(items, x);
            let tail = set_insert(rest, x);
            assert(r == seq![items[0]] + tail);
            assert forall|y: Seq<char>| tail.contains(y) implies text_lt(items[0], y) by {
                assert(set_insert(rest, x).contains(y) <==> (rest.contains(y) || y == x));
                if y != x {
                    assert(rest.contains(y));
                    let k = choose|k: int| 0 <= k < rest.len() && rest[k] == y;
                    assert(items[k + 1] == y);
                    assert(text_lt(items[0], items[k + 1]));
                }
            }
            assert forall|i: int, j: int| 0 <= i < j < r.len() implies text_lt(
                #[trigger] r[i],
                #[trigger] r[j],
            ) by {
                if i == 0 {
                    assert(r[j] == tail[j - 1]);
                    assert(tail.contains(tail[j - 1]));
                } else {
                    assert(r[i] == tail[i - 1] && r[j] == tail[j - 1]);
                }
            }
            assert forall|y: Seq<char>| r.contains(y) <==> (items.contains(y) || y == x) by {
                assert(set_insert(rest, x).contains(y) <==> (rest.contains(y) || y == x));
                lemma_set_insert_contains(rest, x);
                if r.contains(y) {
                    let k = choose|k: int| 0 <= k < r.len() && r[k] == y;
                    if k > 0 {
                        assert(tail[k - 1] == y);
                        assert(tail.contains(y));
                        if y != x {
                            assert(rest.contains(y));
                            let m = choose|m: int| 0 <= m < rest.len() && rest[m] == y;
                            assert(items[m + 1] == y);
                        }
                    } else {
                        assert(items[0] == y);
                    }
                }
                if items.contains(y) {
                    let k = choose|k: int| 0 <= k < items.len() && items[k] == y;
                    if k == 0 {
                        assert(r[0] == y);
                    } else {
                        assert(rest[k - 1] == y);
                        assert(rest.contains(y));
                        let m = choose|m: int| 0 <= m < tail.len() && tail[m] == y;
                        assert(r[m + 1] == y);
                    }
                }
                if y == x {
                    assert(tail.contains(x));
                    let m = choose|m: int| 0 <= m < tail.len() && tail[m] == x;
                    assert(r[m + 1] == x);
                }
            }
        } else if items[0] == x {
        } else {
            lemma_text_lt_or_ge(items[0], x);
            let r = set_insert(items, x);
            assert(r == seq![x] + items);
            assert forall|i: int, j: int| 0 <= i < j < r.len() implies text_lt(
                #[trigger] r[i],
                #[trigger] r[j],
            ) by {
                if i == 0 {
                    assert(r[j] == items[j - 1]);
                    if j > 1 {
                        lemma_text_lt_transitive(x, items[0], items[j - 1]);
                    }
                } else {
                    assert(r[i] == items[i - 1] && r[j] == items[j - 1]);
                }
            }
            assert forall|y: Seq<char>| r.contains(y) <==> (items.contains(y) || y == x) by {
                if r.contains(y) {
                    let k = choose|k: int| 0 <= k < r.len() && r[k] == y;
                    if k > 0 {
                        assert(items[k - 1] == y);
                    }
                }
                if items.contains(y) {
                    let k = choose|k: int| 0 <= k < items.len() && items[k] == y;
                    assert(r[k + 1] == y);
                }
                if y == x {
                    assert(r[0] == x);
                }
            }
        }
    }
}

/// Every tag of the index after an insertion was a tag before, or is the new one.
proof fn lemma_index_insert_tags(
    entries: Seq<(Seq<char>, Seq<Seq<char>>)>,
    tag: Seq<char>,
    block: Seq<char>,
)
    ensures
        forall|k: int|
            0 <= k < index_insert(entries, tag, block).len() ==> (#[trigger] index_insert(
                entries,
                tag,
                block,
            )[k].0 == tag || exists|m: int| 0 <= m < entries.len() && entries[m].0 == index_insert(
                entries,
                tag,
                block,
            )[k].0),
    decreases entries.len(),
{
    if entries.len() > 0 && text_lt(entries[0].0, tag) {
        let rest = entries.drop_first();
        lemma_index_insert_tags(rest, tag, block);
        let r = index_insert(entries, tag, block);
        let tail = index_insert(rest, tag, block);
        assert forall|k: int| 0 <= k < r.len() implies (#[trigger] r[k].0 == tag || exists|m: int|
            0 <= m < entries.len() && entries[m].0 == r[k].0) by {
            if k == 0 {
                assert(entries[0].0 == r[0].0);
            } else {
                assert(r[k] == tail[k - 1]);
                if tail[k - 1].0 != tag {
                    let m = choose|m: int| 0 <= m < rest.len() && rest[m].0 == tail[k - 1].0;
                    assert(entries[m + 1].0 == r[k].0);
                }
            }
        }
    } else if entries.len() > 0 && entries[0].0 == tag {
        let r = index_insert(entries, tag, block);
        assert forall|k: int| 0 <= k < r.len() implies (#[trigger] r[k].0 == tag || exists|m: int|
            0 <= m < entries.len() && entries[m].0 == r[k].0) by {
            if k > 0 {
                assert(entries[k].0 == r[k].0);
            }
        }
    } else if entries.len() > 0 {
        let r = index_insert(entries, tag, block);
        assert forall|k: int| 0 <= k < r.len() implies (#[trigger] r[k].0 == tag || exists|m: int|
            0 <= m < entries.len() && entries[m].0 == r[k].0) by {
            if k > 0 {
                assert(entries[k - 1].0 == r[k].0);
            }
        }
    }
}

/// Recording a block for a tag keeps the index ascending: tags are listed
/// in ascending order, each once, and each tag's blocks in ascending order,
/// each once.
pub proof fn lemma_index_insert_ascending(
    entries: Seq<(Seq<char>, Seq<Seq<char>>)>,
    tag: Seq<char>,
    block: Seq<char>,
)
    requires
        index_ascending(entries),
    ensures
        index_ascending(index_insert(entries, tag, block)),
    decreases entries.len(),
{
    let r = index_insert(entries, tag, block);
    if entries.len() == 0 {
        assert(strictly_ascending(seq![block]));
    } else {
        let rest = entries.drop_first();
        assert forall|i: int, j: int| 0 <= i < j < rest.len() implies text_lt(
            #[trigger] rest[i].0,
            #[trigger] rest[j].0,
        ) by {
            assert(rest[i] == entries[i + 1] && rest[j] == entries[j + 1]);
        }
        assert forall|i: int| 0 <= i < rest.len() implies strictly_ascending(#[trigger] rest[i].1) by {
            assert(rest[i] == entries[i + 1]);
        }
        if text_lt(entries[0].0, tag) {
            lemma_index_insert_ascending(rest, tag, block);
            lemma_index_insert_tags(rest, tag, block);
            let tail = index_insert(rest, tag, block);
            assert(r == seq![entries[0]] + tail);
            assert forall|i: int, j: int| 0 <= i < j < r.len() implies text_lt(
                #[trigger] r[i].0,
                #[trigger] r[j].0,
            ) by {
                if i == 0 {
                    assert(r[j] == tail[j - 1]);
                    if tail[j - 1].0 != tag {
                        let m = choose|m: int| 0 <= m < rest.len() && rest[m].0 == tail[j - 1].0;
                        assert(entries[m + 1].0 == tail[j - 1].0);
                    }
                } else {
                    assert(r[i] == tail[i - 1] && r[j] == tail[j - 1]);
                }
            }
            assert forall|i: int| 0 <= i < r.len() implies strictly_ascending(#[trigger] r[i].1) by {
                if i > 0 {
                    assert(r[i] == tail[i - 1]);
                }
            }
        } else if entries[0].0 == tag {
            lemma_set_insert_ascending(entries[0].1, block);
            assert forall|i: int, j: int| 0 <= i < j < r.len() implies text_lt(
                #[trigger] r[i].0,
                #[trigger] r[j].0,
            ) by {
                assert(r[j] == entries[j]);
                if i > 0 {
                    assert(r[i] == entries[i]);
                }
            }
            assert forall|i: int| 0 <= i < r.len() implies strictly_ascending(#[trigger] r[i].1) by {
                if i > 0 {
                    assert(r[i] == entries[i]);
                }
            }
        } else {
            lemma_text_lt_or_ge(entries[0].0, tag);
            assert forall|i: int, j: int| 0 <= i < j < r.len() implies text_lt(
                #[trigger] r[i].0,
                #[trigger] r[j].0,
            ) by {
                assert(r[j] == entries[j - 1]);
                if i == 0 {
                    if j > 1 {
                        lemma_text_lt_transitive(tag, entries[0].0, entries[j - 1].0);
                    }
                } else {
                    assert(r[i] == entries[i - 1]);
                }
            }
            assert forall|i: int| 0 <= i < r.len() implies strictly_ascending(#[trigger] r[i].1) by {
                if i > 0 {
                    assert(r[i] == entries[i - 1]);
                } else {
                    assert(r[0].1 == seq![block]);
                }
            }
        }
    }
}
} // verus!
