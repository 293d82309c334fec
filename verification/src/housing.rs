//! Housing records and their mapping to a design matrix and target vector.
//!
//! A `HouseData` record carries the integer attributes of one listed house.
//! `Houses` fixes the number of records in its type and turns them into the
//! rows of a design matrix (one feature column per attribute plus a constant
//! bias column) and a target vector of prices. The application shell widens
//! these integer columns to the numeric type its regression runs on; that
//! widening is exact for every attribute a record can hold.

use vstd::prelude::*;

verus! {

/// One housing record: the sale price and the four attributes used as
/// features.
#[derive(Clone, Copy, Debug, PartialEq, Eq, Structural)]
pub struct HouseData {
    pub price: i32,
    pub area: i32,
    pub bedrooms: i32,
    pub bathrooms: i32,
    pub stories: i32,
}

/// The feature row a record contributes to the design matrix: its four
/// attributes in order, then the constant bias entry `1`.
pub open spec fn feature_row(h: HouseData) -> Seq<i32> {
    seq![h.area, h.bedrooms, h.bathrooms, h.stories, 1i32]
}

/// A collection of exactly `N` housing records; `N` is part of the type.
pub struct Houses<const N: usize> {
    pub data: Vec<HouseData>,
}

impl<const N: usize> Houses<N> {
    /// The collection really holds `N` records.
    pub open spec fn wf(&self) -> bool {
        self.data@.len() == N
    }

    /// Builds the design matrix and target vector: row `i` of the matrix is
    /// `feature_row` of record `i`, and entry `i` of the target is that
    /// record's price.
    pub fn to_xy_data(&self) -> (r: (Vec<Vec<i32>>, Vec<i32>))
        requires
            self.wf(),
        ensures
            r.0@.len() == N,
            r.1@.len() == N,
            forall|i: int| 0 <= i < N ==> (#[trigger] r.0@[i])@ == feature_row(self.data@[i]),
            forall|i: int| 0 <= i < N ==> #[trigger] r.1@[i] == self.data@[i].price,
    {
        let mut x: Vec<Vec<i32>> = Vec::new();
        let mut y: Vec<i32> = Vec::new();
        let mut i: usize = 0;
        while i < N
            invariant
                i <= N,
                self.wf(),
                x@.len() == i,
                y@.len() == i,
                forall|p: int| 0 <= p < i ==> (#[trigger] x@[p])@ == feature_row(self.data@[p]),
                forall|p: int| 0 <= p < i ==> #[trigger] y@[p] == self.data@[p].price,
            decreases N - i,
        {
            let h = self.data[i];
            let mut row: Vec<i32> = Vec::new();
            row.push(h.area);
            row.push(h.bedrooms);
            row.push(h.bathrooms);
            row.push(h.stories);
            row.push(1i32);
            proof {
                assert(row@ =~= feature_row(h));
            }
            x.push(row);
            y.push(h.price);
            i = i + 1;
        }
        (x, y)
    }
}

/// Shapes a list of records into the fixed record count `N` that `Houses`
/// expects. The caller must supply exactly `N` records; the contents come
/// through unchanged.
pub fn house_vec_to_arr<const N: usize>(v: Vec<HouseData>) -> (r: Vec<HouseData>)
    requires
        v@.len() == N,
    ensures
        r@ == v@,
        r@.len() == N,
{
    v
}

} // verus!
