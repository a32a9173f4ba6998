//! What a mail mutation does to the local copy: the effect applied once
//! the daemon confirms it, and the change of provider labels on a
//! message.
use vstd::prelude::*;
use crate::mailbox::MessageId;
use crate::text::str_eq;

verus! {

broadcast use vstd::string::group_string_axioms;

/// The effect a confirmed mutation has on the local mail list.
pub enum MutationEffect {
    RemoveFromList(MessageId),
    RemoveFromListMany(Vec<MessageId>),
    /// New flags (bits of the message flag set) for one message.
    UpdateFlags { message_id: MessageId, flags: u32 },
    UpdateFlagsMany { updates: Vec<(MessageId, u32)> },
    ModifyLabels { message_ids: Vec<MessageId>, add: Vec<String>, remove: Vec<String>, status: String },
    ReplyLater { message_id: MessageId, flag: bool, status: String },
    RefreshList,
    StatusOnly(String),
    /// A sent draft: the status to show, when to be reminded (a Unix
    /// timestamp), and the sent message.
    SentSuccess { status: String, remind_at: Option<i64>, sent_message_id: Option<MessageId> },
}

/// The effect that takes the given messages off the list: the
/// single-message form for one message, the many-message form otherwise.
pub fn remove_from_list_effect(ids: &[MessageId]) -> (r: MutationEffect)
    ensures
        ids.len() == 1 ==> r == MutationEffect::RemoveFromList(ids@[0]),
        ids.len() != 1 ==> (r matches MutationEffect::RemoveFromListMany(v) && v@ == ids@),
{
    if ids.len() == 1 {
        MutationEffect::RemoveFromList(ids[0])
    } else {
        let mut v: Vec<MessageId> = Vec::new();
        let mut i: usize = 0;
        while i < ids.len()
            invariant
                i <= ids.len(),
                v@ == ids@.take(i as int),
            decreases ids.len() - i,
        {
            v.push(ids[i]);
            i = i + 1;
            assert(v@ =~= ids@.take(i as int));
        }
        assert(ids@.take(ids.len() as int) =~= ids@);
        MutationEffect::RemoveFromListMany(v)
    }
}

// ---------------------------------------------------------------------
// Provider labels
// ---------------------------------------------------------------------

/// The characters of each string.
pub open spec fn views_of(v: Seq<String>) -> Seq<Seq<char>> {
    v.map_values(|s: String| s@)
}

/// `ids` without the entries that occur in `remove`, in order.
pub open spec fn without(ids: Seq<Seq<char>>, remove: Seq<Seq<char>>) -> Seq<Seq<char>>
    decreases ids.len(),
{
    if ids.len() == 0 {
        ids
    } else {
        let before = without(ids.drop_last(), remove);
        if remove.contains(ids.last()) {
            before
        } else {
            before.push(ids.last())
        }
    }
}

/// `ids` followed by each entry of `add` that is not already there, in
/// order.
pub open spec fn with_added(ids: Seq<Seq<char>>, add: Seq<Seq<char>>) -> Seq<Seq<char>>
    decreases add.len(),
{
    if add.len() == 0 {
        ids
    } else {
        let before = with_added(ids, add.drop_last());
        if before.contains(add.last()) {
            before
        } else {
            before.push(add.last())
        }
    }
}

/// The labels of a message after a change: the removed ones taken out,
/// then the added ones appended where missing.
pub open spec fn labels_after(ids: Seq<Seq<char>>, add: Seq<Seq<char>>, remove: Seq<Seq<char>>) -> Seq<Seq<char>> {
    with_added(without(ids, remove), add)
}

fn contains_string(v: &[String], s: &str) -> (b: bool)
    ensures
        b == views_of(v@).contains(s@),
{
    let mut i: usize = 0;
    while i < v.len()
        invariant
            i <= v.len(),
            forall|k: int| 0 <= k < i ==> (#[trigger] v@[k])@ != s@,
        decreases v.len() - i,
    {
        if str_eq(v[i].as_str(), s) {
            assert(views_of(v@)[i as int] == s@);
            return true;
        }
        i = i + 1;
    }
    assert forall|k: int| 0 <= k < views_of(v@).len() implies views_of(v@)[k] != s@ by {
        assert(views_of(v@)[k] == v@[k]@);
    }
    false
}

/// Changes the provider labels of a message: drops those in
/// `remove_provider_ids`, then appends those of `add_provider_ids` it
/// does not have yet.
pub fn apply_provider_label_changes(
    label_provider_ids: &mut Vec<String>,
    add_provider_ids: &[String],
    remove_provider_ids: &[String],
)
    ensures
        views_of(final(label_provider_ids)@) == labels_after(
            views_of(old(label_provider_ids)@),
            views_of(add_provider_ids@),
            views_of(remove_provider_ids@),
        ),
{
    let ghost start = views_of(label_provider_ids@);
    let ghost add = views_of(add_provider_ids@);
    let ghost remove = views_of(remove_provider_ids@);
    let mut kept: Vec<String> = Vec::new();
    let mut i: usize = 0;
    while i < label_provider_ids.len()
        invariant
            i <= label_provider_ids.len(),
            views_of(label_provider_ids@) == start,
            remove == views_of(remove_provider_ids@),
            views_of(kept@) == without(start.take(i as int), remove),
        decreases label_provider_ids.len() - i,
    {
        let ghost t = start.take(i as int + 1);
        assert(t.drop_last() =~= start.take(i as int));
        assert(t.last() == label_provider_ids@[i as int]@);
        if !contains_string(remove_provider_ids, label_provider_ids[i].as_str()) {
            kept.push(label_provider_ids[i].clone());
            assert(views_of(kept@) =~= without(start.take(i as int), remove).push(
                label_provider_ids@[i as int]@,
            ));
        }
        i = i + 1;
    }
    assert(start.take(label_provider_ids.len() as int) =~= start);
    let ghost kept_view = views_of(kept@);
    let mut j: usize = 0;
    while j < add_provider_ids.len()
        invariant
            j <= add_provider_ids.len(),
            add == views_of(add_provider_ids@),
            kept_view == without(start, remove),
            views_of(kept@) == with_added(kept_view, add.take(j as int)),
        decreases add_provider_ids.len() - j,
    {
        let ghost t = add.take(j as int + 1);
        assert(t.drop_last() =~= add.take(j as int));
        assert(t.last() == add_provider_ids@[j as int]@);
        if !contains_string(kept.as_slice(), add_provider_ids[j].as_str()) {
            kept.push(add_provider_ids[j].clone());
            assert(views_of(kept@) =~= with_added(kept_view, add.take(j as int)).push(
                add_provider_ids@[j as int]@,
            ));
        }
        j = j + 1;
    }
    assert(add.take(add_provider_ids.len() as int) =~= add);
    *label_provider_ids = kept;
}

// ---------------------------------------------------------------------
// Laws
// ---------------------------------------------------------------------

proof fn lemma_without(ids: Seq<Seq<char>>, remove: Seq<Seq<char>>, x: Seq<char>)
    ensures
        without(ids, remove).contains(x) <==> (ids.contains(x) && !remove.contains(x)),
    decreases ids.len(),
{
    if ids.len() > 0 {
        lemma_without(ids.drop_last(), remove, x);
        assert(ids =~= ids.drop_last().push(ids.last()));
        let before = without(ids.drop_last(), remove);
        if before.contains(x) {
            let k = choose|k: int| 0 <= k < before.len() && before[k] == x;
            assert(before.push(ids.last())[k] == x);
        }
        if ids.contains(x) && !remove.contains(x) {
            let k = choose|k: int| 0 <= k < ids.len() && ids[k] == x;
            if k < ids.len() - 1 {
                assert(ids.drop_last()[k] == x);
            } else {
                assert(before.push(ids.last())[before.len() as int] == x);
            }
        }
    }
}

proof fn lemma_with_added(ids: Seq<Seq<char>>, add: Seq<Seq<char>>, x: Seq<char>)
    ensures
        with_added(ids, add).contains(x) <==> (ids.contains(x) || add.contains(x)),
    decreases add.len(),
{
    if add.len() > 0 {
        lemma_with_added(ids, add.drop_last(), x);
        let before = with_added(ids, add.drop_last());
        if before.contains(x) {
            let k = choose|k: int| 0 <= k < before.len() && before[k] == x;
            assert(before.push(add.last())[k] == x);
        }
        if add.contains(x) {
            let k = choose|k: int| 0 <= k < add.len() && add[k] == x;
            if k < add.len() - 1 {
                assert(add.drop_last()[k] == x);
            } else if !before.contains(x) {
                assert(before.push(add.last())[before.len() as int] == x);
            }
        }
        if add.drop_last().contains(x) {
            let k = choose|k: int| 0 <= k < add.len() - 1 && add.drop_last()[k] == x;
            assert(add[k] == x);
        }
    }
}

/// After a label change a message carries exactly the labels it carried
/// and that were not removed, and the labels that were added: an added
/// label is always there, a removed one only if it was also added.
pub proof fn law_label_change_membership(
    ids: Seq<Seq<char>>,
    add: Seq<Seq<char>>,
    remove: Seq<Seq<char>>,
    x: Seq<char>,
)
    ensures
        labels_after(ids, add, remove).contains(x) <==> (add.contains(x) || (ids.contains(x)
            && !remove.contains(x))),
{
    lemma_with_added(without(ids, remove), add, x);
    lemma_without(ids, remove, x);
}

} // verus!
