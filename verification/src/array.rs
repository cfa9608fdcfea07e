use vstd::prelude::*;

verus! {

/// A one-dimensional array of numeric elements.
///
/// The element type is generic, so the element-wise logic below serves any
/// scalar representation a caller picks; the scalar arithmetic itself is
/// handed in as a closure.
pub struct NumArray<T> {
    elems: Vec<T>,
}

impl<T> View for NumArray<T> {
    type V = Seq<T>;

    closed spec fn view(&self) -> Seq<T> {
        self.elems@
    }
}

impl<T: Copy> NumArray<T> {
    /// Builds an array holding exactly the given elements, in order.
    pub fn from_vec(elems: Vec<T>) -> (a: NumArray<T>)
        ensures
            a@ == elems@,
    {
        NumArray { elems }
    }

    /// The number of elements.
    pub fn len(&self) -> (n: usize)
        ensures
            n == self@.len(),
    {
        self.elems.len()
    }

    /// The element at position `i`.
    pub fn get(&self, i: usize) -> (x: T)
        requires
            i < self@.len(),
        ensures
            x == self@[i as int],
    {
        self.elems[i]
    }

    /// Copies the elements out, in order.
    pub fn to_vec(&self) -> (v: Vec<T>)
        ensures
            v@ == self@,
    {
        let mut v: Vec<T> = Vec::new();
        let mut j: usize = 0;
        while j < self.elems.len()
            invariant
                j <= self@.len(),
                v@.len() == j,
                forall|i: int| 0 <= i < j ==> v@[i] == self@[i],
            decreases self@.len() - j,
        {
            v.push(self.elems[j]);
            j += 1;
        }
        assert(v@ =~= self@);
        v
    }
}

/// Element-wise product of two equal-length arrays, returning a new array.
///
/// The scalar multiplication is supplied as the closure `mul_op`; every element
/// of the result is related to the operands' corresponding elements exactly
/// as `mul_op`'s contract says. Neither operand is changed.
pub fn multiply_arrays<T: Copy, F: Fn(T, T) -> T>(
    a: &NumArray<T>,
    b: &NumArray<T>,
    mul_op: F,
) -> (c: NumArray<T>)
    requires
        a@.len() == b@.len(),
        forall|i: int| 0 <= i < a@.len() ==> call_requires(mul_op, (a@[i], b@[i])),
    ensures
        c@.len() == a@.len(),
        forall|i: int| 0 <= i < a@.len() ==> call_ensures(mul_op, (a@[i], b@[i]), #[trigger] c@[i]),
{
    let n = a.elems.len();
    let mut elems: Vec<T> = Vec::new();
    let mut j: usize = 0;
    while j < n
        invariant
            n == a@.len(),
            b@.len() == n,
            j <= n,
            elems@.len() == j,
            forall|i: int| 0 <= i < n ==> call_requires(mul_op, (a@[i], b@[i])),
            forall|i: int| 0 <= i < j ==> call_ensures(mul_op, (a@[i], b@[i]), #[trigger] elems@[i]),
        decreases n - j,
    {
        elems.push(mul_op(a.elems[j], b.elems[j]));
        j += 1;
    }
    NumArray { elems }
}

/// Element-wise product of two equal-length arrays, in place.
///
/// Overwrites each element of `a` with the result that the closure `mul_op`
/// gives for the old element of `a` and the corresponding element of `b`;
/// `b` is not changed.
pub fn multiply_arrays_inplace<T: Copy, F: Fn(T, T) -> T>(
    a: &mut NumArray<T>,
    b: &NumArray<T>,
    mul_op: F,
)
    requires
        old(a)@.len() == b@.len(),
        forall|i: int| 0 <= i < old(a)@.len() ==> call_requires(mul_op, (old(a)@[i], b@[i])),
    ensures
        final(a)@.len() == old(a)@.len(),
        forall|i: int|
            0 <= i < old(a)@.len() ==> call_ensures(
                mul_op,
                (old(a)@[i], b@[i]),
                #[trigger] final(a)@[i],
            ),
{
    let n = a.elems.len();
    let mut j: usize = 0;
    while j < n
        invariant
            n == old(a)@.len(),
            b@.len() == n,
            j <= n,
            a@.len() == n,
            forall|i: int| 0 <= i < n ==> call_requires(mul_op, (old(a)@[i], b@[i])),
            forall|i: int| j <= i < n ==> a@[i] == old(a)@[i],
            forall|i: int| 0 <= i < j ==> call_ensures(mul_op, (old(a)@[i], b@[i]), #[trigger] a@[i]),
        decreases n - j,
    {
        let x = a.elems[j];
        let y = b.elems[j];
        a.elems[j] = mul_op(x, y);
        j += 1;
    }
}

/// Element-wise sum of two equal-length arrays, in place.
///
/// Overwrites each element of `a` with the result that the closure `add_op`
/// gives for the old element of `a` and the corresponding element of `b`;
/// `b` is not changed.
pub fn add_arrays_inplace<T: Copy, F: Fn(T, T) -> T>(a: &mut NumArray<T>, b: &NumArray<T>, add_op: F)
    requires
        old(a)@.len() == b@.len(),
        forall|i: int| 0 <= i < old(a)@.len() ==> call_requires(add_op, (old(a)@[i], b@[i])),
    ensures
        final(a)@.len() == old(a)@.len(),
        forall|i: int|
            0 <= i < old(a)@.len() ==> call_ensures(
                add_op,
                (old(a)@[i], b@[i]),
                #[trigger] final(a)@[i],
            ),
{
    let n = a.elems.len();
    let mut j: usize = 0;
    while j < n
        invariant
            n == old(a)@.len(),
            b@.len() == n,
            j <= n,
            a@.len() == n,
            forall|i: int| 0 <= i < n ==> call_requires(add_op, (old(a)@[i], b@[i])),
            forall|i: int| j <= i < n ==> a@[i] == old(a)@[i],
            forall|i: int| 0 <= i < j ==> call_ensures(add_op, (old(a)@[i], b@[i]), #[trigger] a@[i]),
        decreases n - j,
    {
        let x = a.elems[j];
        let y = b.elems[j];
        a.elems[j] = add_op(x, y);
        j += 1;
    }
}

/// Law: element-wise combination is deterministic. When the scalar operation
/// allows at most one result for each pair of operands, any two outcomes that
/// the element-wise contracts above admit for the same operands are equal, so
/// repeating an operation on the same inputs gives the identical array.
pub proof fn lemma_elementwise_deterministic<T, F: Fn(T, T) -> T>(
    op: F,
    a: Seq<T>,
    b: Seq<T>,
    c1: Seq<T>,
    c2: Seq<T>,
)
    requires
        forall|x: T, y: T, r1: T, r2: T|
            #[trigger] call_ensures(op, (x, y), r1) && #[trigger] call_ensures(op, (x, y), r2)
                ==> r1 == r2,
        a.len() == b.len(),
        c1.len() == a.len(),
        c2.len() == a.len(),
        forall|i: int| 0 <= i < a.len() ==> call_ensures(op, (a[i], b[i]), #[trigger] c1[i]),
        forall|i: int| 0 <= i < a.len() ==> call_ensures(op, (a[i], b[i]), #[trigger] c2[i]),
    ensures
        c1 == c2,
{
    assert forall|i: int| 0 <= i < a.len() implies c1[i] == c2[i] by {
        assert(call_ensures(op, (a[i], b[i]), c1[i]));
        assert(call_ensures(op, (a[i], b[i]), c2[i]));
    }
    assert(c1 =~= c2);
}

} // verus!
