//! Lists of operands for the set-membership operators.

use super::value::Value;
use vstd::prelude::*;
use vstd::std_specs::convert::IntoSpec;

verus! {

/// An ordered list of operands. It may be empty.
pub struct Array<'a> {
    pub array: Vec<Value<'a>>,
}

/// The first `n` of `values`, each rendered, with `, ` between neighbours.
pub open spec fn values_text(values: Seq<Value>, n: nat) -> Seq<char>
    decreases values, n,
{
    if n == 0 || n > values.len() {
        Seq::empty()
    } else if n == 1 {
        values[0].render()
    } else {
        values_text(values, (n - 1) as nat) + ", "@ + values[n - 1].render()
    }
}

impl<'a> Array<'a> {
    /// The elements in order, separated by `, `; empty for an empty list.
    pub open spec fn render(self) -> Seq<char> {
        values_text(self.array@, self.array@.len())
    }

    /// The empty list.
    pub fn new() -> (r: Self)
        ensures
            r.array@ == Seq::<Value<'a>>::empty(),
    {
        Array { array: Vec::new() }
    }

    /// The list with what `value` converts into added at its end.
    pub fn push<T: Into<Value<'a>>>(self, value: T) -> (r: Self)
        ensures
            r.array@.len() == self.array@.len() + 1,
            r.array@ == self.array@.push(r.array@.last()),
            call_ensures(T::into, (value,), r.array@.last()),
            T::obeys_into_spec() ==> r.array@ == self.array@.push(value.into_spec()),
    {
        let mut list = self;
        list.array.push(value.into());
        list
    }

    /// Appends the elements, separated by `, `, to `out`.
    pub fn fmt(&self, out: &mut String)
        ensures
            final(out)@ == old(out)@ + self.render(),
        decreases self,
    {
        let ghost base = out@;
        assert(base + values_text(self.array@, 0) == base);
        let mut i: usize = 0;
        while i < self.array.len()
            invariant
                i <= self.array.len(),
                out@ == base + values_text(self.array@, i as nat),
            decreases self.array.len() - i,
        {
            if i > 0 {
                out.append(", ");
            }
            self.array[i].fmt(out);
            i += 1;
        }
    }

    /// The elements, separated by `, `.
    pub fn to_string(&self) -> (text: String)
        ensures
            text@ == self.render(),
    {
        let mut out = String::new();
        self.fmt(&mut out);
        out
    }
}

impl<'a> From<Vec<Value<'a>>> for Array<'a> {
    fn from(v: Vec<Value<'a>>) -> (r: Self) {
        Array { array: v }
    }
}

impl<'a> vstd::std_specs::convert::FromSpecImpl<Vec<Value<'a>>> for Array<'a> {
    open spec fn obeys_from_spec() -> bool {
        true
    }

    open spec fn from_spec(v: Vec<Value<'a>>) -> Self {
        Array { array: v }
    }
}

} // verus!
