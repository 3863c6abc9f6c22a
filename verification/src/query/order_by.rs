//! Ordering entries.

use vstd::prelude::*;

verus! {

/// The direction of an ordering entry.
pub enum OrderType {
    ASC,
    DESC,
}

/// One entry of `ORDER BY`: a column and a direction.
pub struct Order<'a> {
    pub col: &'a str,
    pub direction: OrderType,
}

/// The rendered entries of an order list.
pub open spec fn order_texts(orders: Seq<Order>) -> Seq<Seq<char>> {
    orders.map_values(|o: Order| o.render())
}

impl<'a> Order<'a> {
    /// The column, followed by ` DESC` for a descending entry. Ascending
    /// order is the absence of a keyword.
    pub open spec fn render(self) -> Seq<char> {
        match self.direction {
            OrderType::ASC => self.col@,
            OrderType::DESC => self.col@ + " DESC"@,
        }
    }

    /// An entry for `col` in the given direction.
    pub fn new(col: &'a str, direction: OrderType) -> (r: Self)
        ensures
            r == (Order { col, direction }),
    {
        Order { col, direction }
    }

    /// Appends this entry to `out`.
    pub fn fmt(&self, out: &mut String)
        ensures
            final(out)@ == old(out)@ + self.render(),
    {
        out.append(self.col);
        match self.direction {
            OrderType::ASC => {},
            OrderType::DESC => out.append(" DESC"),
        }
    }
}

} // verus!
