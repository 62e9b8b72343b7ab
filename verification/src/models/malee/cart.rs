//! The shopping cart held in a Malee session.
use vstd::prelude::*;

verus! {

/// One product line in the cart.
#[derive(Debug, Clone)]
pub struct CartItem {
    pub product_id: String,
    pub name: String,
    pub price_lkr: i64,
    pub quantity: u32,
    pub image_url: Option<String>,
    pub is_perishable: bool,
}

/// The cart: an ordered list of product lines.
#[derive(Debug, Clone)]
pub struct CartState {
    pub items: Vec<CartItem>,
}

/// Sum of the quantities of `items`.
pub open spec fn total_quantity(items: Seq<CartItem>) -> nat
    decreases items.len(),
{
    if items.len() == 0 {
        0
    } else {
        total_quantity(items.drop_last()) + items.last().quantity as nat
    }
}

/// Sum of price times quantity over `items`.
pub open spec fn total_price(items: Seq<CartItem>) -> int
    decreases items.len(),
{
    if items.len() == 0 {
        0
    } else {
        total_price(items.drop_last()) + items.last().price_lkr * items.last().quantity
    }
}

/// Every running total of the cart's value fits in an `i64`.
pub open spec fn prices_fit(items: Seq<CartItem>) -> bool {
    forall|k: int|
        #![trigger items.take(k)]
        0 <= k <= items.len() ==> i64::MIN <= total_price(items.take(k)) <= i64::MAX
            && (k < items.len() ==> i64::MIN <= items[k].price_lkr * items[k].quantity
            <= i64::MAX)
}

pub proof fn lemma_total_quantity_prefix(items: Seq<CartItem>, k: int)
    requires
        0 <= k <= items.len(),
    ensures
        total_quantity(items.take(k)) <= total_quantity(items),
    decreases items.len(),
{
    if k < items.len() {
        assert(items.drop_last().take(k) =~= items.take(k));
        lemma_total_quantity_prefix(items.drop_last(), k);
    } else {
        assert(items.take(k) =~= items);
    }
}

pub proof fn lemma_total_quantity_step(items: Seq<CartItem>, k: int)
    requires
        0 <= k < items.len(),
    ensures
        total_quantity(items.take(k + 1)) == total_quantity(items.take(k)) + items[k].quantity,
{
    assert(items.take(k + 1).drop_last() =~= items.take(k));
}

/// Index of the first line of `items` whose product id is `pid`, if any.
pub open spec fn first_match(items: Seq<CartItem>, pid: Seq<char>) -> Option<int>
    decreases items.len(),
{
    if items.len() == 0 {
        None
    } else if items[0].product_id@ == pid {
        Some(0)
    } else {
        match first_match(items.drop_first(), pid) {
            Some(i) => Some(i + 1),
            None => None,
        }
    }
}

/// `first_match` finds exactly the first matching line.
pub proof fn lemma_first_match(items: Seq<CartItem>, pid: Seq<char>)
    ensures
        match first_match(items, pid) {
            Some(i) => 0 <= i < items.len() && items[i].product_id@ == pid && forall|j: int|
                0 <= j < i ==> items[j].product_id@ != pid,
            None => forall|j: int| 0 <= j < items.len() ==> items[j].product_id@ != pid,
        },
    decreases items.len(),
{
    if items.len() > 0 && items[0].product_id@ != pid {
        lemma_first_match(items.drop_first(), pid);
        assert forall|j: int| 1 <= j < items.len() implies items[j] == items.drop_first()[j - 1] by {}
    }
}

/// A line equal to `it` except for its quantity.
pub open spec fn with_quantity(it: CartItem, q: u32) -> CartItem {
    CartItem {
        product_id: it.product_id,
        name: it.name,
        price_lkr: it.price_lkr,
        quantity: q,
        image_url: it.image_url,
        is_perishable: it.is_perishable,
    }
}

/// A line's quantity never exceeds the cart's total quantity.
pub proof fn lemma_line_le_total(items: Seq<CartItem>, i: int)
    requires
        0 <= i < items.len(),
    ensures
        items[i].quantity <= total_quantity(items),
    decreases items.len(),
{
    if i < items.len() - 1 {
        lemma_line_le_total(items.drop_last(), i);
    }
}

/// Changing one line's quantity changes the total by the difference.
pub proof fn lemma_total_update(items: Seq<CartItem>, i: int, q: u32)
    requires
        0 <= i < items.len(),
    ensures
        total_quantity(items.update(i, with_quantity(items[i], q))) == total_quantity(items)
            - items[i].quantity + q,
    decreases items.len(),
{
    let u = items.update(i, with_quantity(items[i], q));
    if i < items.len() - 1 {
        assert(u.drop_last() =~= items.drop_last().update(i, with_quantity(items[i], q)));
        lemma_total_update(items.drop_last(), i, q);
    } else {
        assert(u.drop_last() =~= items.drop_last());
    }
}

/// Appending a line adds its quantity to the total.
pub proof fn lemma_total_push(items: Seq<CartItem>, it: CartItem)
    ensures
        total_quantity(items.push(it)) == total_quantity(items) + it.quantity,
{
    assert(items.push(it).drop_last() =~= items);
}

impl CartItem {
    /// A field-by-field copy of this line.
    pub fn duplicate(&self) -> (r: Self)
        ensures
            r == *self,
    {
        let image_url = match &self.image_url {
            Some(u) => Some(u.clone()),
            None => None,
        };
        CartItem {
            product_id: self.product_id.clone(),
            name: self.name.clone(),
            price_lkr: self.price_lkr,
            quantity: self.quantity,
            image_url,
            is_perishable: self.is_perishable,
        }
    }
}

impl Default for CartState {
    fn default() -> (r: Self)
        ensures
            r.items@.len() == 0,
    {
        CartState { items: Vec::new() }
    }
}

impl CartState {
    /// An empty cart.
    pub fn new() -> (r: Self)
        ensures
            r.items@.len() == 0,
    {
        CartState { items: Vec::new() }
    }

    /// A line-by-line copy of the cart.
    pub fn duplicate(&self) -> (r: Self)
        ensures
            r.items@ == self.items@,
    {
        let mut items: Vec<CartItem> = Vec::new();
        let mut i: usize = 0;
        while i < self.items.len()
            invariant
                i <= self.items@.len(),
                items@ == self.items@.take(i as int),
            decreases self.items@.len() - i,
        {
            items.push(self.items[i].duplicate());
            i = i + 1;
            proof {
                assert(self.items@.take(i as int) =~= self.items@.take(i - 1).push(self.items@[i - 1]));
            }
        }
        proof {
            assert(self.items@.take(i as int) =~= self.items@);
        }
        CartState { items }
    }

    /// Total number of units in the cart.
    pub open spec fn spec_item_count(&self) -> nat {
        total_quantity(self.items@)
    }

    /// Total number of units in the cart.
    pub fn item_count(&self) -> (r: u32)
        requires
            self.spec_item_count() <= u32::MAX,
        ensures
            r == self.spec_item_count(),
    {
        let mut count: u32 = 0;
        let mut i: usize = 0;
        while i < self.items.len()
            invariant
                i <= self.items@.len(),
                count == total_quantity(self.items@.take(i as int)),
                total_quantity(self.items@) <= u32::MAX,
            decreases self.items@.len() - i,
        {
            proof {
                lemma_total_quantity_step(self.items@, i as int);
                lemma_total_quantity_prefix(self.items@, i as int + 1);
            }
            count = count + self.items[i].quantity;
            i = i + 1;
        }
        proof {
            assert(self.items@.take(i as int) =~= self.items@);
        }
        count
    }

    /// Total value of the cart in LKR (price times quantity, summed).
    pub open spec fn spec_subtotal_lkr(&self) -> int {
        total_price(self.items@)
    }

    /// Total value of the cart in LKR.
    pub fn subtotal_lkr(&self) -> (r: i64)
        requires
            prices_fit(self.items@),
        ensures
            r == self.spec_subtotal_lkr(),
    {
        let mut sum: i64 = 0;
        let mut i: usize = 0;
        while i < self.items.len()
            invariant
                i <= self.items@.len(),
                sum == total_price(self.items@.take(i as int)),
                prices_fit(self.items@),
            decreases self.items@.len() - i,
        {
            let item = &self.items[i];
            proof {
                assert(self.items@.take(i + 1).drop_last() =~= self.items@.take(i as int));
                assert(i64::MIN <= total_price(self.items@.take(i + 1)) <= i64::MAX);
                assert(i64::MIN <= item.price_lkr * item.quantity <= i64::MAX);
            }
            let line = item.price_lkr * (item.quantity as i64);
            sum = sum + line;
            i = i + 1;
        }
        proof {
            assert(self.items@.take(i as int) =~= self.items@);
        }
        sum
    }
}

} // verus!
