use vstd::prelude::*;
use crate::message_dialog::text_views;

verus! {

/// A named group of file extensions, written without the leading dot.
#[derive(Debug)]
pub struct Filter {
    pub name: String,
    pub extensions: Vec<String>,
}

/// A platform-neutral description of a file picker.
#[derive(Debug)]
pub struct FileDialog {
    pub filters: Vec<Filter>,
}

/// The extensions of all filters, filter by filter, each in declared order.
pub open spec fn filter_extensions(filters: Seq<Filter>) -> Seq<Seq<char>>
    decreases filters.len(),
{
    if filters.len() == 0 {
        Seq::empty()
    } else {
        filter_extensions(filters.drop_last()) + text_views(filters.last().extensions@)
    }
}

/// What the native control accepts: every extension of every filter, after a dot.
pub open spec fn accept_items(filters: Seq<Filter>) -> Seq<Seq<char>> {
    filter_extensions(filters).map_values(|e: Seq<char>| seq!['.'] + e)
}

/// The items one after the other, with a comma between two neighbours.
pub open spec fn join_with_commas(items: Seq<Seq<char>>) -> Seq<char>
    decreases items.len(),
{
    if items.len() == 0 {
        Seq::empty()
    } else if items.len() == 1 {
        items[0]
    } else {
        join_with_commas(items.drop_last()) + seq![','] + items.last()
    }
}

/// `item` is an extension of one of the filters, after a dot.
pub open spec fn is_dotted_extension(filters: Seq<Filter>, item: Seq<char>) -> bool {
    exists|i: int, j: int|
        0 <= i < filters.len() && 0 <= j < filters[i].extensions@.len()
            && item == seq!['.'] + #[trigger] filters[i].extensions@[j]@
}

proof fn lemma_extension_listed(filters: Seq<Filter>, i: int, j: int)
    requires
        0 <= i < filters.len(),
        0 <= j < filters[i].extensions@.len(),
    ensures
        filter_extensions(filters).contains(filters[i].extensions@[j]@),
    decreases filters.len(),
{
    let prev = filter_extensions(filters.drop_last());
    let all = filter_extensions(filters);
    if i == filters.len() - 1 {
        assert(all[prev.len() + j] == filters[i].extensions@[j]@);
    } else {
        assert(filters.drop_last()[i] == filters[i]);
        lemma_extension_listed(filters.drop_last(), i, j);
        let k = choose|k: int| 0 <= k < prev.len() && prev[k] == filters[i].extensions@[j]@;
        assert(all[k] == prev[k]);
    }
}

proof fn lemma_listed_extension_declared(filters: Seq<Filter>, k: int)
    requires
        0 <= k < filter_extensions(filters).len(),
    ensures
        exists|i: int, j: int|
            0 <= i < filters.len() && 0 <= j < filters[i].extensions@.len()
                && filter_extensions(filters)[k] == #[trigger] filters[i].extensions@[j]@,
    decreases filters.len(),
{
    let prev = filter_extensions(filters.drop_last());
    let all = filter_extensions(filters);
    let last = filters.len() - 1;
    if k < prev.len() {
        lemma_listed_extension_declared(filters.drop_last(), k);
        let (i, j) = choose|i: int, j: int|
            0 <= i < filters.drop_last().len() && 0 <= j < filters.drop_last()[i].extensions@.len()
                && prev[k] == #[trigger] filters.drop_last()[i].extensions@[j]@;
        assert(filters.drop_last()[i] == filters[i]);
        assert(all[k] == filters[i].extensions@[j]@);
    } else {
        assert(all[k] == filters[last].extensions@[k - prev.len()]@);
    }
}

/// The native control accepts the union of all filters: every extension of
/// every filter, after a dot, and nothing else.
pub proof fn lemma_accept_is_union_of_filters(filters: Seq<Filter>)
    ensures
        forall|i: int, j: int|
            0 <= i < filters.len() && 0 <= j < filters[i].extensions@.len()
                ==> accept_items(filters).contains(seq!['.'] + #[trigger] filters[i].extensions@[j]@),
        forall|k: int|
            0 <= k < accept_items(filters).len() ==> is_dotted_extension(filters, #[trigger] accept_items(filters)[k]),
{
    let all = filter_extensions(filters);
    assert forall|i: int, j: int|
        0 <= i < filters.len() && 0 <= j < filters[i].extensions@.len()
            implies accept_items(filters).contains(seq!['.'] + #[trigger] filters[i].extensions@[j]@) by {
        lemma_extension_listed(filters, i, j);
        let k = choose|k: int| 0 <= k < all.len() && all[k] == filters[i].extensions@[j]@;
        assert(accept_items(filters)[k] == seq!['.'] + all[k]);
    }
    assert forall|k: int|
        0 <= k < accept_items(filters).len() implies is_dotted_extension(filters, #[trigger] accept_items(filters)[k]) by {
        lemma_listed_extension_declared(filters, k);
        let (i, j) = choose|i: int, j: int|
            0 <= i < filters.len() && 0 <= j < filters[i].extensions@.len()
                && all[k] == #[trigger] filters[i].extensions@[j]@;
        assert(accept_items(filters)[k] == seq!['.'] + filters[i].extensions@[j]@);
    }
}

} // verus!
