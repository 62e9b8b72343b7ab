//! The cart reducer: applies one cart action to a cart.
use vstd::prelude::*;
use crate::error::MaleeError;
use crate::models::malee::cart::{
    first_match, lemma_first_match, lemma_line_le_total, lemma_total_push, lemma_total_update,
    total_quantity, with_quantity, CartItem,
    CartState,
};

verus! {

/// A change requested of the cart.
#[derive(Debug)]
pub enum CartAction {
    /// Add a product; an existing line for the same product grows instead.
    AddItem { product: CartItem },
    /// Remove every line for the product.
    RemoveItem { product_id: String },
    /// Set the quantity of the product's first line; zero removes its lines.
    SetQuantity { product_id: String, quantity: u32 },
    /// Empty the cart.
    Clear,
}

/// Lines of `items` whose product id is not `pid`.
pub open spec fn without_product(items: Seq<CartItem>, pid: Seq<char>) -> Seq<CartItem> {
    items.filter(|it: CartItem| it.product_id@ != pid)
}

/// The inputs on which `reduce` computes without integer overflow.
pub open spec fn reduce_defined(items: Seq<CartItem>, action: CartAction, max_items: usize) -> bool {
    &&& total_quantity(items) <= u32::MAX
    &&& match action {
        CartAction::AddItem { product } => (first_match(items, product.product_id@) is Some
            || items.len() < max_items) ==> total_quantity(items) + product.quantity <= u32::MAX,
        CartAction::SetQuantity { product_id, quantity } => quantity != 0 ==> match first_match(
            items,
            product_id@,
        ) {
            Some(i) => {
                let diff = (quantity as i32) - (items[i].quantity as i32);
                &&& i32::MIN <= diff <= i32::MAX
                &&& diff > 0 ==> total_quantity(items) + diff <= u32::MAX
            },
            None => true,
        },
        _ => true,
    }
}

/// The cart lines after applying `action`, or the error it raises.
pub open spec fn reduce_spec(items: Seq<CartItem>, action: CartAction, max_items: usize) -> Result<
    Seq<CartItem>,
    MaleeError,
> {
    let count = total_quantity(items);
    let cap = max_items as u32;
    match action {
        CartAction::AddItem { product } => match first_match(items, product.product_id@) {
            Some(i) => if count + product.quantity > cap {
                Err(MaleeError::CartFull(max_items))
            } else {
                Ok(
                    items.update(
                        i,
                        with_quantity(items[i], (items[i].quantity + product.quantity) as u32),
                    ),
                )
            },
            None => if items.len() >= max_items || count + product.quantity > cap {
                Err(MaleeError::CartFull(max_items))
            } else {
                Ok(items.push(product))
            },
        },
        CartAction::RemoveItem { product_id } => Ok(without_product(items, product_id@)),
        CartAction::SetQuantity { product_id, quantity } => if quantity == 0 {
            Ok(without_product(items, product_id@))
        } else {
            match first_match(items, product_id@) {
                Some(i) => {
                    let diff = (quantity as i32) - (items[i].quantity as i32);
                    if diff > 0 && count + diff > cap {
                        Err(MaleeError::CartFull(max_items))
                    } else {
                        Ok(items.update(i, with_quantity(items[i], quantity)))
                    }
                },
                None => Ok(items),
            }
        },
        CartAction::Clear => Ok(Seq::empty()),
    }
}

/// Index of the first line for `pid`.
fn find_line(items: &Vec<CartItem>, pid: &String) -> (r: Option<usize>)
    ensures
        r matches Some(i) ==> i < items@.len() && first_match(items@, pid@) == Some(i as int),
        r is None ==> first_match(items@, pid@) is None,
{
    proof {
        lemma_first_match(items@, pid@);
    }
    let mut i: usize = 0;
    while i < items.len()
        invariant
            i <= items@.len(),
            forall|j: int| 0 <= j < i ==> items@[j].product_id@ != pid@,
            match first_match(items@, pid@) {
                Some(k) => 0 <= k < items@.len() && items@[k].product_id@ == pid@ && forall|j: int|
                    0 <= j < k ==> items@[j].product_id@ != pid@,
                None => forall|j: int| 0 <= j < items@.len() ==> items@[j].product_id@ != pid@,
            },
        decreases items@.len() - i,
    {
        if items[i].product_id == *pid {
            return Some(i);
        }
        i = i + 1;
    }
    None
}

/// Drops every line for `pid`, keeping the others in order.
fn remove_product(items: Vec<CartItem>, pid: &String) -> (r: Vec<CartItem>)
    ensures
        r@ == without_product(items@, pid@),
{
    let ghost orig = items@;
    let mut kept: Vec<CartItem> = Vec::new();
    let n = items.len();
    let mut rest = items;
    let mut k: usize = 0;
    while rest.len() > 0
        invariant
            n == orig.len(),
            k + rest@.len() == orig.len(),
            rest@ == orig.skip(k as int),
            kept@ == without_product(orig.take(k as int), pid@),
        decreases rest@.len(),
    {
        let it = rest.remove(0);
        proof {
            reveal_with_fuel(Seq::<_>::filter, 1);
            let t = orig.take(k + 1);
            assert(it == orig[k as int]);
            assert(t.drop_last() =~= orig.take(k as int));
            assert(t.last() == it);
            assert(rest@ =~= orig.skip(k + 1));
            assert(without_product(t, pid@) == if it.product_id@ != pid@ {
                without_product(orig.take(k as int), pid@).push(it)
            } else {
                without_product(orig.take(k as int), pid@)
            });
        }
        let keep = !(it.product_id == *pid);
        if keep {
            kept.push(it);
        }
        k = k + 1;
    }
    proof {
        assert(orig.take(k as int) =~= orig);
    }
    kept
}

/// Applies `action` to `state`. Adding fails with `CartFull(max_items)` when the
/// cart would hold more than `max_items` units (or, for a new product, when it
/// already has `max_items` lines); raising a quantity fails the same way.
pub fn reduce(state: CartState, action: CartAction, max_items: usize) -> (r: Result<
    CartState,
    MaleeError,
>)
    requires
        reduce_defined(state.items@, action, max_items),
    ensures
        match reduce_spec(state.items@, action, max_items) {
            Ok(items) => r matches Ok(s) && s.items@ == items,
            Err(e) => r == Err::<CartState, MaleeError>(e),
        },
{
    let mut state = state;
    let current_count = state.item_count();
    let cap = max_items as u32;
    match action {
        CartAction::AddItem { product } => {
            match find_line(&state.items, &product.product_id) {
                Some(i) => {
                    if current_count + product.quantity > cap {
                        return Err(MaleeError::CartFull(max_items));
                    }
                    proof {
                        lemma_line_le_total(state.items@, i as int);
                    }
                    let mut line = state.items.remove(i);
                    line.quantity = line.quantity + product.quantity;
                    state.items.insert(i, line);
                },
                None => {
                    if state.items.len() >= max_items || current_count + product.quantity > cap {
                        return Err(MaleeError::CartFull(max_items));
                    }
                    state.items.push(product);
                },
            }
        },
        CartAction::RemoveItem { product_id } => {
            state.items = remove_product(state.items, &product_id);
        },
        CartAction::SetQuantity { product_id, quantity } => {
            if quantity == 0 {
                state.items = remove_product(state.items, &product_id);
            } else {
                match find_line(&state.items, &product_id) {
                    Some(i) => {
                        let diff: i32 = quantity as i32 - state.items[i].quantity as i32;
                        if diff > 0 && current_count + diff as u32 > cap {
                            return Err(MaleeError::CartFull(max_items));
                        }
                        let mut line = state.items.remove(i);
                        line.quantity = quantity;
                        state.items.insert(i, line);
                    },
                    None => {},
                }
            }
        },
        CartAction::Clear => {
            state.items.clear();
        },
    }
    Ok(state)
}

/// No two lines of `items` are for the same product.
pub open spec fn distinct_products(items: Seq<CartItem>) -> bool {
    forall|i: int, j: int|
        0 <= i < j < items.len() ==> items[i].product_id@ != items[j].product_id@
}

proof fn lemma_without_product_total(items: Seq<CartItem>, pid: Seq<char>)
    ensures
        total_quantity(without_product(items, pid)) <= total_quantity(items),
    decreases items.len(),
{
    reveal_with_fuel(Seq::<_>::filter, 1);
    if items.len() > 0 {
        lemma_without_product_total(items.drop_last(), pid);
        lemma_total_push(without_product(items.drop_last(), pid), items.last());
    }
}

proof fn lemma_without_product_distinct(items: Seq<CartItem>, pid: Seq<char>)
    requires
        distinct_products(items),
    ensures
        distinct_products(without_product(items, pid)),
        forall|k: int|
            0 <= k < without_product(items, pid).len() ==> exists|m: int|
                0 <= m < items.len() && #[trigger] without_product(items, pid)[k] == items[m],
    decreases items.len(),
{
    reveal_with_fuel(Seq::<_>::filter, 1);
    if items.len() > 0 {
        let d = items.drop_last();
        lemma_without_product_distinct(d, pid);
        let f = without_product(d, pid);
        assert forall|k: int| 0 <= k < f.len() implies f[k].product_id@ != items.last().product_id@ by {
            let m = choose|m: int| 0 <= m < d.len() && f[k] == d[m];
            assert(items[m] == d[m]);
        }
        let g = without_product(items, pid);
        assert forall|k: int| 0 <= k < g.len() implies exists|m: int|
            0 <= m < items.len() && #[trigger] g[k] == items[m] by {
            if k < f.len() {
                let m = choose|m: int| 0 <= m < d.len() && f[k] == d[m];
                assert(g[k] == items[m]);
            } else {
                assert(g[k] == items[items.len() - 1]);
            }
        }
    }
}

/// Removing a product leaves no line for it; every other line is kept, and the
/// total quantity does not grow.
pub proof fn law_remove_clears_product(items: Seq<CartItem>, pid: Seq<char>)
    ensures
        forall|k: int|
            0 <= k < without_product(items, pid).len() ==> (#[trigger] without_product(
                items,
                pid,
            )[k]).product_id@ != pid,
        forall|k: int|
            0 <= k < items.len() && items[k].product_id@ != pid ==> without_product(
                items,
                pid,
            ).contains(#[trigger] items[k]),
        total_quantity(without_product(items, pid)) <= total_quantity(items),
{
    broadcast use vstd::seq_lib::group_filter_ensures;

    lemma_without_product_total(items, pid);
}

/// Setting a product's quantity to 0 removes the product: it always
/// succeeds, no line of the result is for that product, every line of
/// another product is kept, and it does exactly what removing the product
/// does.
pub proof fn law_zero_quantity_removes(items: Seq<CartItem>, pid: String, max_items: usize)
    ensures
        reduce_spec(items, CartAction::SetQuantity { product_id: pid, quantity: 0 }, max_items) is Ok,
        forall|k: int|
            0 <= k < reduce_spec(
                items,
                CartAction::SetQuantity { product_id: pid, quantity: 0 },
                max_items,
            )->Ok_0.len() ==> (#[trigger] reduce_spec(
                items,
                CartAction::SetQuantity { product_id: pid, quantity: 0 },
                max_items,
            )->Ok_0[k]).product_id@ != pid@,
        forall|k: int|
            0 <= k < items.len() && items[k].product_id@ != pid@ ==> reduce_spec(
                items,
                CartAction::SetQuantity { product_id: pid, quantity: 0 },
                max_items,
            )->Ok_0.contains(#[trigger] items[k]),
        reduce_spec(items, CartAction::SetQuantity { product_id: pid, quantity: 0 }, max_items)
            == reduce_spec(items, CartAction::RemoveItem { product_id: pid }, max_items),
{
    law_remove_clears_product(items, pid@);
}

/// Adding a product the cart already holds adds to its first line: when it
/// succeeds, the cart keeps its lines, that line's quantity grows by the
/// quantity added, and every other line is unchanged. Adding a product the
/// cart does not hold appends it as a new last line.
pub proof fn law_add_merges_into_existing_line(items: Seq<CartItem>, product: CartItem, max_items: usize, i: int)
    ensures
        0 <= i < items.len() && items[i].product_id@ == product.product_id@ && (forall|j: int|
            0 <= j < i ==> items[j].product_id@ != product.product_id@) && reduce_spec(
            items,
            CartAction::AddItem { product },
            max_items,
        ) is Ok ==> ({
            let out = reduce_spec(items, CartAction::AddItem { product }, max_items)->Ok_0;
            &&& out.len() == items.len()
            &&& out[i].product_id == items[i].product_id
            &&& out[i].quantity == items[i].quantity + product.quantity
            &&& forall|j: int| 0 <= j < items.len() && j != i ==> out[j] == items[j]
        }),
        (forall|j: int| 0 <= j < items.len() ==> items[j].product_id@ != product.product_id@)
            && reduce_spec(items, CartAction::AddItem { product }, max_items) is Ok ==> reduce_spec(
            items,
            CartAction::AddItem { product },
            max_items,
        )->Ok_0 == items.push(product),
{
    lemma_first_match(items, product.product_id@);
    if 0 <= i < items.len() && items[i].product_id@ == product.product_id@ && (forall|j: int|
        0 <= j < i ==> items[j].product_id@ != product.product_id@) {
        match first_match(items, product.product_id@) {
            Some(f) => {
                if f < i {
                    assert(items[f].product_id@ != product.product_id@);
                }
                assert(f == i);
                lemma_line_le_total(items, i);
            },
            None => {
                assert(items[i].product_id@ != product.product_id@);
            },
        }
    }
    if forall|j: int| 0 <= j < items.len() ==> items[j].product_id@ != product.product_id@ {
        match first_match(items, product.product_id@) {
            Some(f) => {
                assert(items[f].product_id@ != product.product_id@);
            },
            None => {},
        }
    }
}

/// Setting a positive quantity for a product sets its first line to exactly
/// that quantity when it succeeds, and leaves every other line as it was;
/// for a product the cart does not hold it changes nothing.
pub proof fn law_set_quantity_sets_line(items: Seq<CartItem>, pid: String, quantity: u32, max_items: usize, i: int)
    requires
        quantity > 0,
    ensures
        0 <= i < items.len() && items[i].product_id@ == pid@ && (forall|j: int|
            0 <= j < i ==> items[j].product_id@ != pid@) && reduce_spec(
            items,
            CartAction::SetQuantity { product_id: pid, quantity },
            max_items,
        ) is Ok ==> ({
            let out = reduce_spec(items, CartAction::SetQuantity { product_id: pid, quantity }, max_items)->Ok_0;
            &&& out.len() == items.len()
            &&& out[i].product_id == items[i].product_id
            &&& out[i].quantity == quantity
            &&& forall|j: int| 0 <= j < items.len() && j != i ==> out[j] == items[j]
        }),
        (forall|j: int| 0 <= j < items.len() ==> items[j].product_id@ != pid@) ==> reduce_spec(
            items,
            CartAction::SetQuantity { product_id: pid, quantity },
            max_items,
        ) == Ok::<Seq<CartItem>, MaleeError>(items),
{
    lemma_first_match(items, pid@);
    if 0 <= i < items.len() && items[i].product_id@ == pid@ && (forall|j: int|
        0 <= j < i ==> items[j].product_id@ != pid@) {
        match first_match(items, pid@) {
            Some(f) => {
                if f < i {
                    assert(items[f].product_id@ != pid@);
                }
                assert(f == i);
            },
            None => {
                assert(items[i].product_id@ != pid@);
            },
        }
    }
    if forall|j: int| 0 <= j < items.len() ==> items[j].product_id@ != pid@ {
        match first_match(items, pid@) {
            Some(f) => {
                assert(items[f].product_id@ != pid@);
            },
            None => {},
        }
    }
}

/// Removing a product twice is the same as removing it once.
pub proof fn law_remove_idempotent(items: Seq<CartItem>, pid: Seq<char>)
    ensures
        without_product(without_product(items, pid), pid) == without_product(items, pid),
    decreases items.len(),
{
    reveal_with_fuel(Seq::<_>::filter, 1);
    if items.len() > 0 {
        law_remove_idempotent(items.drop_last(), pid);
        let f = without_product(items.drop_last(), pid);
        if items.last().product_id@ != pid {
            assert(f.push(items.last()).drop_last() =~= f);
        }
    }
}

/// Whenever `reduce` succeeds and the cart grew in units, the cart holds at
/// most `max_items` units (taken as `u32`). A quantity above `i32::MAX` wraps
/// to a negative difference and slips past the check, so such quantities are
/// left out.
pub proof fn law_reduce_respects_limit(items: Seq<CartItem>, action: CartAction, max_items: usize)
    requires
        reduce_defined(items, action, max_items),
        action matches CartAction::SetQuantity { quantity, .. } ==> quantity <= i32::MAX,
    ensures
        reduce_spec(items, action, max_items) matches Ok(next) ==> (total_quantity(next)
            > total_quantity(items) ==> total_quantity(next) <= max_items as u32),
{
    match action {
        CartAction::AddItem { product } => {
            lemma_first_match(items, product.product_id@);
            match first_match(items, product.product_id@) {
                Some(i) => {
                    lemma_line_le_total(items, i);
                    let nq = (items[i].quantity + product.quantity) as u32;
                    lemma_total_update(items, i, nq);
                    if total_quantity(items) + product.quantity <= max_items as u32 {
                        let next = items.update(i, with_quantity(items[i], nq));
                        assert(reduce_spec(items, action, max_items) == Ok::<Seq<CartItem>, MaleeError>(next));
                    } else {
                        assert(reduce_spec(items, action, max_items) is Err);
                    }
                },
                None => {
                    lemma_total_push(items, product);
                    if !(items.len() >= max_items || total_quantity(items) + product.quantity
                        > max_items as u32) {
                        assert(reduce_spec(items, action, max_items) == Ok::<
                            Seq<CartItem>,
                            MaleeError,
                        >(items.push(product)));
                    } else {
                        assert(reduce_spec(items, action, max_items) is Err);
                    }
                },
            }
        },
        CartAction::RemoveItem { product_id } => {
            lemma_without_product_total(items, product_id@);
        },
        CartAction::SetQuantity { product_id, quantity } => {
            lemma_without_product_total(items, product_id@);
            lemma_first_match(items, product_id@);
            if let Some(i) = first_match(items, product_id@) {
                lemma_total_update(items, i, quantity);
                if quantity > items[i].quantity {
                    assert((quantity as i32) - (items[i].quantity as i32) == quantity
                        - items[i].quantity);
                }
            }
        },
        CartAction::Clear => {},
    }
}

/// A cart with one line per product keeps one line per product under every action.
pub proof fn law_reduce_keeps_products_distinct(
    items: Seq<CartItem>,
    action: CartAction,
    max_items: usize,
)
    requires
        distinct_products(items),
    ensures
        reduce_spec(items, action, max_items) matches Ok(next) ==> distinct_products(next),
{
    match action {
        CartAction::AddItem { product } => {
            lemma_first_match(items, product.product_id@);
            match first_match(items, product.product_id@) {
                Some(i) => {
                    let next = items.update(
                        i,
                        with_quantity(items[i], (items[i].quantity + product.quantity) as u32),
                    );
                    assert forall|a: int, b: int|
                        0 <= a < b < next.len() implies next[a].product_id@
                        != next[b].product_id@ by {
                        assert(next[a].product_id == items[a].product_id);
                        assert(next[b].product_id == items[b].product_id);
                    }
                },
                None => {
                    let next = items.push(product);
                    assert forall|a: int, b: int|
                        0 <= a < b < next.len() implies next[a].product_id@
                        != next[b].product_id@ by {
                        if b == items.len() {
                            assert(next[a] == items[a]);
                        }
                    }
                },
            }
        },
        CartAction::RemoveItem { product_id } => {
            lemma_without_product_distinct(items, product_id@);
        },
        CartAction::SetQuantity { product_id, quantity } => {
            lemma_without_product_distinct(items, product_id@);
            lemma_first_match(items, product_id@);
            if let Some(i) = first_match(items, product_id@) {
                let next = items.update(i, with_quantity(items[i], quantity));
                assert forall|a: int, b: int|
                    0 <= a < b < next.len() implies next[a].product_id@ != next[b].product_id@ by {
                    assert(next[a].product_id == items[a].product_id);
                    assert(next[b].product_id == items[b].product_id);
                }
            }
        },
        CartAction::Clear => {},
    }
}

} // verus!
