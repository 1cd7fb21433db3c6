//! Sequences that are made of a part for each number.

use vstd::prelude::*;

verus! {

/// The parts for 0, 1 and so on up to `n`, without `n`, one after the other.
pub open spec fn gather<A>(n: int, part: spec_fn(int) -> Seq<A>) -> Seq<A>
    decreases n,
{
    if n <= 0 {
        Seq::empty()
    } else {
        gather(n - 1, part) + part(n - 1)
    }
}

/// What each item gives, one after the other.
pub open spec fn in_turn<A, B>(items: Seq<A>, given: spec_fn(A) -> Seq<B>) -> Seq<B>
    decreases items.len(),
{
    if items.len() == 0 {
        Seq::empty()
    } else {
        in_turn(items.drop_last(), given) + given(items.last())
    }
}

/// The parts hold what is in one of them, and nothing else.
pub proof fn gathered_is_in_a_part<A>(n: int, part: spec_fn(int) -> Seq<A>, item: A)
    ensures
        gather(n, part).contains(item) <==> exists|k: int|
            0 <= k < n && (#[trigger] part(k)).contains(item),
    decreases n,
{
    if n > 0 {
        gathered_is_in_a_part(n - 1, part, item);
        let before = gather(n - 1, part);
        let last = part(n - 1);
        if gather(n, part).contains(item) {
            let i = choose|i: int| 0 <= i < gather(n, part).len() && gather(n, part)[i] == item;
            if i < before.len() {
                assert(before[i] == item);
            } else {
                assert(last[i - before.len()] == item);
            }
        }
        if before.contains(item) {
            let i = choose|i: int| 0 <= i < before.len() && before[i] == item;
            assert(gather(n, part)[i] == item);
        }
        if last.contains(item) {
            let i = choose|i: int| 0 <= i < last.len() && last[i] == item;
            assert(gather(n, part)[before.len() + i] == item);
        }
    }
}

/// What items give holds what one of them gives, and nothing else.
pub proof fn given_by_an_item<A, B>(items: Seq<A>, given: spec_fn(A) -> Seq<B>, item: B)
    ensures
        in_turn(items, given).contains(item) <==> exists|k: int|
            0 <= k < items.len() && given(#[trigger] items[k]).contains(item),
    decreases items.len(),
{
    if items.len() > 0 {
        given_by_an_item(items.drop_last(), given, item);
        let all = in_turn(items, given);
        let before = in_turn(items.drop_last(), given);
        let last = given(items.last());
        if all.contains(item) {
            let i = choose|i: int| 0 <= i < all.len() && all[i] == item;
            if i < before.len() {
                assert(before[i] == item);
                let k = choose|k: int|
                    0 <= k < items.drop_last().len() && given(
                        #[trigger] items.drop_last()[k],
                    ).contains(item);
                assert(given(items[k]).contains(item));
            } else {
                assert(last[i - before.len()] == item);
                assert(given(items[items.len() - 1]).contains(item));
            }
        }
        if exists|k: int| 0 <= k < items.len() && given(#[trigger] items[k]).contains(item) {
            let k = choose|k: int|
                0 <= k < items.len() && given(#[trigger] items[k]).contains(item);
            if k < items.len() - 1 {
                assert(given(items.drop_last()[k]).contains(item));
                let i = choose|i: int| 0 <= i < before.len() && before[i] == item;
                assert(all[i] == item);
            } else {
                let i = choose|i: int| 0 <= i < last.len() && last[i] == item;
                assert(all[before.len() + i] == item);
            }
        }
    }
}

/// How many numbers there are from 0 up to `n`, without `n`.
pub open spec fn count(n: i32) -> nat {
    if n < 0 {
        0
    } else {
        n as nat
    }
}

/// The items of a list, none where there is no list.
pub open spec fn listed<A>(items: Option<Seq<A>>) -> Seq<A> {
    match items {
        Some(items) => items,
        None => Seq::empty(),
    }
}

/// Add an item to others.
pub(crate) fn add_item<T: DeepView>(items: &mut Vec<T>, item: T)
    ensures
        final(items).deep_view() == old(items).deep_view().push(item.deep_view()),
{
    items.push(item);
    assert(items.deep_view() =~= old(items).deep_view().push(item.deep_view()));
}

/// No items yet.
pub(crate) fn no_items<T: DeepView>() -> (items: Vec<T>)
    ensures
        items.deep_view() == Seq::<T::V>::empty(),
{
    let items: Vec<T> = Vec::new();
    assert(items.deep_view() =~= Seq::<T::V>::empty());
    items
}

/// Something made of each item, in the order of the items.
pub(crate) fn made_of<A: DeepView, B: DeepView, F: Fn(&A) -> B>(
    items: &[A],
    make: F,
    Ghost(made): Ghost<spec_fn(A::V) -> B::V>,
) -> (all: Vec<B>)
    requires
        forall|item: &A| call_requires(make, (item,)),
        forall|item: &A, result: B|
            #[trigger] call_ensures(make, (item,), result) ==> result.deep_view() == made(
                item.deep_view(),
            ),
    ensures
        all.deep_view() == items.deep_view().map_values(made),
{
    let mut all = no_items();
    assert(all.deep_view() =~= items.deep_view().map_values(made).take(0));
    let mut i: usize = 0;
    while i < items.len()
        invariant
            i <= items.len(),
            all.deep_view() == items.deep_view().map_values(made).take(i as int),
            forall|item: &A| call_requires(make, (item,)),
            forall|item: &A, result: B|
                #[trigger] call_ensures(make, (item,), result) ==> result.deep_view() == made(
                    item.deep_view(),
                ),
        decreases items.len() - i,
    {
        add_item(&mut all, make(&items[i]));
        i = i + 1;
        assert(all.deep_view() =~= items.deep_view().map_values(made).take(i as int));
    }
    assert(all.deep_view() =~= items.deep_view().map_values(made));
    all
}

/// Something made of each item of a list, nothing where there is no list.
pub(crate) fn made_of_listed<A: DeepView, B: DeepView, F: Fn(&A) -> B>(
    items: &Option<Vec<A>>,
    make: F,
    Ghost(made): Ghost<spec_fn(A::V) -> B::V>,
) -> (all: Vec<B>)
    requires
        forall|item: &A| call_requires(make, (item,)),
        forall|item: &A, result: B|
            #[trigger] call_ensures(make, (item,), result) ==> result.deep_view() == made(
                item.deep_view(),
            ),
    ensures
        all.deep_view() == listed(items.deep_view()).map_values(made),
{
    match items {
        Some(items) => made_of(items, make, Ghost(made)),
        None => {
            let all = no_items();
            assert(all.deep_view() =~= Seq::<A::V>::empty().map_values(made));
            all
        },
    }
}

/// Copies of texts.
pub(crate) fn copy_texts(texts: &[String]) -> (copies: Vec<String>)
    ensures
        copies.deep_view() == texts.deep_view(),
{
    let ghost same = |text: Seq<char>| text;
    let make = |text: &String| -> (copy: String)
        ensures
            copy.deep_view() == text.deep_view(),
    {
        text.clone()
    };
    let copies = made_of(texts, make, Ghost(same));
    assert(copies.deep_view() =~= texts.deep_view());
    copies
}

/// The parts stand one after the other, in the order of their numbers, and nothing else does.
pub proof fn parts_stand_in_order<A>(n: int, part: spec_fn(int) -> Seq<A>)
    ensures
        gather(n, part) == Seq::new(
            if n < 0 {
                0
            } else {
                n as nat
            },
            part,
        ).flatten(),
    decreases n,
{
    let all = Seq::new(
        if n < 0 {
            0
        } else {
            n as nat
        },
        part,
    );
    all.lemma_flatten_and_flatten_alt_are_equivalent();
    if n > 0 {
        parts_stand_in_order(n - 1, part);
        let before = Seq::new((n - 1) as nat, part);
        before.lemma_flatten_and_flatten_alt_are_equivalent();
        assert(all.drop_last() =~= before);
        assert(all.last() == part(n - 1));
    }
}

/// What items give stands one after the other, in the order of the items, and nothing else does.
pub proof fn items_give_in_order<A, B>(items: Seq<A>, given: spec_fn(A) -> Seq<B>)
    ensures
        in_turn(items, given) == items.map_values(given).flatten(),
    decreases items.len(),
{
    let all = items.map_values(given);
    all.lemma_flatten_and_flatten_alt_are_equivalent();
    if items.len() > 0 {
        items_give_in_order(items.drop_last(), given);
        let before = items.drop_last().map_values(given);
        before.lemma_flatten_and_flatten_alt_are_equivalent();
        assert(all.drop_last() =~= before);
        assert(all.last() == given(items.last()));
    }
}

/// A list that is there is itself, and one that is not there is empty; there are as many numbers
/// from zero up to another as that other one tells, and none up to a negative one.
pub proof fn a_list_is_itself<A>(items: Seq<A>, n: i32)
    ensures
        listed(Some(items)) == items,
        listed::<A>(None) == Seq::<A>::empty(),
        n >= 0 ==> count(n) == n,
        n < 0 ==> count(n) == 0,
{
}

/// Where each item gives one thing, there are as many of these as there are items, in their order.
pub proof fn items_give_one_each<A, B>(
    items: Seq<A>,
    given: spec_fn(A) -> Seq<B>,
    one: spec_fn(A) -> B,
)
    requires
        forall|item: A| #[trigger] given(item) == seq![one(item)],
    ensures
        in_turn(items, given) == items.map_values(one),
    decreases items.len(),
{
    if items.len() > 0 {
        items_give_one_each(items.drop_last(), given, one);
        assert(given(items.last()) == seq![one(items.last())]);
        assert(in_turn(items, given) =~= items.map_values(one));
    } else {
        assert(in_turn(items, given) =~= items.map_values(one));
    }
}

/// Where each part holds one thing, there are as many of these as there are parts, in their order.
pub proof fn parts_hold_one_each<A>(n: nat, part: spec_fn(int) -> Seq<A>, one: spec_fn(int) -> A)
    requires
        forall|k: int| 0 <= k < n ==> #[trigger] part(k) == seq![one(k)],
    ensures
        gather(n as int, part) == Seq::new(n, one),
    decreases n,
{
    if n > 0 {
        parts_hold_one_each((n - 1) as nat, part, one);
        assert(part(n - 1) == seq![one(n - 1)]);
        assert(gather(n as int, part) =~= Seq::new(n, one));
    } else {
        assert(gather(n as int, part) =~= Seq::new(n, one));
    }
}

} // verus!
