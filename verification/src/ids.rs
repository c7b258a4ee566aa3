//! Facts about lists of ids in which no id occurs twice.

use vstd::prelude::*;

verus! {

/// `index_of_first` gives the first index at which an id stands, which is
/// the only one where no id occurs twice, and nothing if it stands nowhere.
pub proof fn lemma_index_of_first(ids: Seq<Seq<char>>, id: Seq<char>)
    ensures
        match ids.index_of_first(id) {
            Some(i) => {
                &&& ids.contains(id)
                &&& 0 <= i < ids.len()
                &&& ids[i] == id
                &&& forall|j: int| 0 <= j < i ==> #[trigger] ids[j] != id
                &&& ids.no_duplicates() ==> forall|j: int|
                    0 <= j < ids.len() && j != i ==> #[trigger] ids[j] != id
            },
            None => {
                &&& !ids.contains(id)
                &&& forall|j: int| 0 <= j < ids.len() ==> #[trigger] ids[j] != id
            },
        },
{
    ids.index_of_first_ensures(id);
}

/// A new id at the end keeps the ids distinct.
pub proof fn lemma_push_keeps_distinct(ids: Seq<Seq<char>>, id: Seq<char>)
    requires
        ids.no_duplicates(),
        !ids.contains(id),
    ensures
        ids.push(id).no_duplicates(),
{
}

/// Taking an id out keeps the others distinct, and the id is gone.
pub proof fn lemma_remove_keeps_distinct(ids: Seq<Seq<char>>, index: int)
    requires
        ids.no_duplicates(),
        0 <= index < ids.len(),
    ensures
        ids.remove(index).no_duplicates(),
        !ids.remove(index).contains(ids[index]),
{
}

} // verus!
