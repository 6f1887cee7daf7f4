//! Converting whole lists.
use vstd::prelude::*;

verus! {

/// Each item of `to` is what the item of `from` at the same position is converted to.
pub open spec fn each_into<A: Into<B>, B>(from: Seq<A>, to: Seq<B>) -> bool {
    &&& to.len() == from.len()
    &&& forall|i: int|
        0 <= i < from.len() ==> call_ensures(
            <A as Into<B>>::into,
            (from[i],),
            #[trigger] to[i],
        )
}

/// Converts every item of a list.
pub(crate) fn into_all<A: Into<B>, B>(items: Vec<A>) -> (r: Vec<B>)
    ensures
        each_into(items@, r@),
{
    let mut converted: Vec<B> = Vec::new();
    for item in iter: items
        invariant
            iter.seq() == items@,
            converted.len() == iter.index(),
            forall|i: int|
                0 <= i < converted.len() ==> call_ensures(
                    <A as Into<B>>::into,
                    (items@[i],),
                    #[trigger] converted@[i],
                ),
    {
        converted.push(item.into());
    }
    converted
}

/// Converting a list converts every item, in order, and neither drops nor adds one.
pub proof fn lists_are_converted_item_by_item<A: Into<B>, B>(items: Seq<A>, converted: Seq<B>)
    requires
        each_into(items, converted),
    ensures
        converted.len() == items.len(),
        forall|i: int|
            0 <= i < items.len() ==> call_ensures(
                <A as Into<B>>::into,
                (items[i],),
                #[trigger] converted[i],
            ),
{
}

} // verus!
