//! Validity masks: one flag per element, `true` where the element is present.
use vstd::prelude::*;
use crate::error::ShapeError;

verus! {

/// The validity flags of a column's elements, in storage order.
pub struct MaskData {
    values: Vec<bool>,
}

/// The number of `true` flags among the first `n`.
pub open spec fn count_valid(s: Seq<bool>, n: int) -> nat
    decreases n,
{
    if n <= 0 {
        0
    } else {
        count_valid(s, n - 1) + if s[n - 1] { 1nat } else { 0nat }
    }
}

proof fn lemma_count_valid_bound(s: Seq<bool>, n: int)
    requires
        0 <= n <= s.len(),
    ensures
        count_valid(s, n) <= n,
    decreases n,
{
    if n > 0 {
        lemma_count_valid_bound(s, n - 1);
    }
}

/// No flag is valid exactly when the count of valid flags is zero; all are
/// valid exactly when it is the length.
proof fn lemma_count_valid_extremes(s: Seq<bool>, n: int)
    requires
        0 <= n <= s.len(),
    ensures
        (count_valid(s, n) == 0) == (forall|i: int| 0 <= i < n ==> !s[i]),
        (count_valid(s, n) == n) == (forall|i: int| 0 <= i < n ==> s[i]),
    decreases n,
{
    if n > 0 {
        lemma_count_valid_extremes(s, n - 1);
        lemma_count_valid_bound(s, n - 1);
    }
}

impl View for MaskData {
    type V = Seq<bool>;

    closed spec fn view(&self) -> Seq<bool> {
        self.values@
    }
}

impl MaskData {
    pub fn new(values: Vec<bool>) -> (r: MaskData)
        ensures
            r@ == values@,
    {
        MaskData { values }
    }

    pub fn len(&self) -> (r: usize)
        ensures
            r == self@.len(),
    {
        self.values.len()
    }

    pub fn is_valid(&self, i: usize) -> (r: bool)
        requires
            i < self@.len(),
        ensures
            r == self@[i as int],
    {
        self.values[i]
    }

    /// The number of valid elements.
    pub fn num_valid(&self) -> (r: usize)
        ensures
            r == count_valid(self@, self@.len() as int),
    {
        let mut n: usize = 0;
        let mut i: usize = 0;
        while i < self.values.len()
            invariant
                i <= self.values@.len(),
                n == count_valid(self.values@, i as int),
            decreases self.values@.len() - i,
        {
            proof {
                lemma_count_valid_bound(self.values@, i as int);
            }
            if self.values[i] {
                n += 1;
            }
            i += 1;
        }
        n
    }

    /// The number of null elements.
    pub fn num_masked(&self) -> (r: usize)
        ensures
            r == self@.len() - count_valid(self@, self@.len() as int),
    {
        proof {
            lemma_count_valid_bound(self.values@, self.values@.len() as int);
        }
        self.values.len() - self.num_valid()
    }
}

/// Walks the validity flags in order. A mask with no null element, or with no
/// valid one, is walked as a constant without reading its flags.
pub enum ValidityIter {
    Constant(usize, bool),
    Values { inner: MaskData, index: usize },
}

impl View for ValidityIter {
    type V = Seq<bool>;

    /// The flags that are still to come.
    open spec fn view(&self) -> Seq<bool> {
        match self {
            ValidityIter::Constant(n, v) => Seq::new(*n as nat, |_i: int| *v),
            ValidityIter::Values { inner, index } => inner@.skip(*index as int),
        }
    }
}

impl ValidityIter {
    pub open spec fn wf(&self) -> bool {
        match self {
            ValidityIter::Constant(_, _) => true,
            ValidityIter::Values { inner, index } => *index <= inner@.len(),
        }
    }

    /// Walks `inner` from its first flag.
    pub fn new(inner: MaskData) -> (r: ValidityIter)
        ensures
            r.wf(),
            r@ == inner@,
    {
        match ValidityIter::as_constant(&inner) {
            Some(c) => c,
            None => {
                let r = ValidityIter::Values { inner, index: 0 };
                assert(r@ =~= inner@);
                r
            },
        }
    }

    /// The constant form, where every flag of `inner` is the same.
    pub fn as_constant(inner: &MaskData) -> (r: Option<ValidityIter>)
        ensures
            r matches Some(c) ==> c@ == inner@ && c is Constant,
            r is None ==> (exists|i: int| 0 <= i < inner@.len() && inner@[i]) && (exists|i: int|
                0 <= i < inner@.len() && !inner@[i]),
            (forall|i: int| 0 <= i < inner@.len() ==> inner@[i]) ==> r == Some(
                ValidityIter::Constant(inner@.len() as usize, true),
            ),
            (exists|i: int| 0 <= i < inner@.len() && !inner@[i]) && (forall|i: int|
                0 <= i < inner@.len() ==> !inner@[i]) ==> r == Some(ValidityIter::Constant(inner@.len() as usize, false)),
    {
        proof {
            lemma_count_valid_extremes(inner@, inner@.len() as int);
        }
        if inner.num_masked() == 0 {
            let r = ValidityIter::Constant(inner.len(), true);
            assert(r@ =~= inner@);
            Some(r)
        } else if inner.num_valid() == 0 {
            let r = ValidityIter::Constant(inner.len(), false);
            assert(r@ =~= inner@);
            Some(r)
        } else {
            None
        }
    }

    /// The number of flags still to come.
    pub fn len(&self) -> (r: usize)
        requires
            self.wf(),
        ensures
            r == self@.len(),
    {
        match self {
            ValidityIter::Constant(n, _) => *n,
            ValidityIter::Values { inner, index } => inner.len() - *index,
        }
    }

    /// The exact number of flags still to come, as lower and upper bound.
    pub fn size_hint(&self) -> (r: (usize, Option<usize>))
        requires
            self.wf(),
        ensures
            r.0 == self@.len(),
            r.1 == Some(r.0),
    {
        let n = self.len();
        (n, Some(n))
    }

    /// The next flag, if any.
    pub fn next(&mut self) -> (r: Option<bool>)
        requires
            old(self).wf(),
        ensures
            final(self).wf(),
            old(self)@.len() == 0 ==> r is None && final(self)@ == old(self)@,
            old(self)@.len() > 0 ==> r == Some(old(self)@[0]) && final(self)@ == old(self)@.skip(1),
    {
        match self {
            ValidityIter::Constant(remaining, value) => {
                if *remaining > 0 {
                    *remaining = *remaining - 1;
                    let r = Some(*value);
                    assert(self@ =~= old(self)@.skip(1));
                    r
                } else {
                    None
                }
            },
            ValidityIter::Values { inner, index } => {
                if *index < inner.len() {
                    let value = inner.is_valid(*index);
                    *index = *index + 1;
                    assert(self@ =~= old(self)@.skip(1));
                    Some(value)
                } else {
                    None
                }
            },
        }
    }

    /// All the flags still to come, in order.
    pub fn collect(self) -> (r: Vec<bool>)
        requires
            self.wf(),
        ensures
            r@ == self@,
    {
        let mut it = self;
        let ghost all = it@;
        let mut out: Vec<bool> = Vec::new();
        loop
            invariant
                it.wf(),
                all == self@,
                all == out@ + it@,
            decreases it@.len(),
        {
            let ghost before = it@;
            match it.next() {
                Some(v) => {
                    out.push(v);
                    assert(all =~= out@ + it@) by {
                        assert(before =~= seq![v] + it@);
                    }
                },
                None => {
                    assert(out@ =~= all);
                    return out;
                },
            }
        }
    }
}

/// A validity mask laid out over `rows` rows of `width` elements each. The
/// flag of element `(r, c)` is stored at `r * row_stride + c * col_stride`.
pub struct Mask {
    values: MaskData,
    rows: usize,
    width: usize,
    row_stride: usize,
    col_stride: usize,
}

/// Where element `i`, counted in row-major order, is stored.
pub open spec fn offset(i: int, width: int, row_stride: int, col_stride: int) -> int {
    (i / width) * row_stride + (i % width) * col_stride
}

proof fn lemma_offset_in_bounds(i: int, rows: int, width: int, rs: int, cs: int, len: int)
    requires
        0 <= i < rows * width,
        rows > 0,
        width > 0,
        rs >= 0,
        cs >= 0,
        (rows - 1) * rs + (width - 1) * cs < len,
    ensures
        0 <= offset(i, width, rs, cs) < len,
        0 <= (i / width) * rs < len,
        0 <= (i % width) * cs < len,
{
    let r = i / width;
    let c = i % width;
    assert(0 <= r < rows) by (nonlinear_arith)
        requires
            0 <= i < rows * width,
            width > 0,
            r == i / width,
    ;
    assert(0 <= c < width) by (nonlinear_arith)
        requires
            width > 0,
            c == i % width,
    ;
    assert(r * rs <= (rows - 1) * rs) by (nonlinear_arith)
        requires
            r <= rows - 1,
            rs >= 0,
    ;
    assert(c * cs <= (width - 1) * cs) by (nonlinear_arith)
        requires
            c <= width - 1,
            cs >= 0,
    ;
    assert(r * rs >= 0 && c * cs >= 0) by (nonlinear_arith)
        requires
            r >= 0,
            rs >= 0,
            c >= 0,
            cs >= 0,
    ;
}

impl Mask {
    pub open spec fn num_elements(&self) -> nat {
        (self.rows_spec() * self.width_spec()) as nat
    }

    pub closed spec fn rows_spec(&self) -> nat {
        self.rows as nat
    }

    pub closed spec fn width_spec(&self) -> nat {
        self.width as nat
    }

    pub closed spec fn flags(&self) -> Seq<bool> {
        self.values@
    }

    /// Every element's flag is stored inside the flags.
    pub closed spec fn wf(&self) -> bool {
        &&& self.rows * self.width <= usize::MAX
        &&& (self.rows > 0 && self.width > 0) ==> (self.rows - 1) * self.row_stride + (self.width - 1)
            * self.col_stride < self.values@.len()
    }

    /// Row-major order with no gap: the flags are read in storage order.
    pub closed spec fn is_standard_spec(&self) -> bool {
        &&& self.col_stride == 1
        &&& self.row_stride == self.width
        &&& self.values@.len() == self.rows * self.width
    }

    /// The flag of the element in row `row` and column `col`.
    pub closed spec fn flag_at(&self, row: int, col: int) -> bool {
        self.values@[row * self.row_stride + col * self.col_stride]
    }

    /// The flags in the order of the mask's indices, row by row.
    pub closed spec fn view_spec(&self) -> Seq<bool> {
        Seq::new(
            self.num_elements(),
            |i: int| self.values@[offset(i, self.width as int, self.row_stride as int, self.col_stride as int)],
        )
    }

    /// A one-dimensional mask over `values`.
    pub fn from_values(values: Vec<bool>) -> (r: Mask)
        ensures
            r.wf(),
            r.view_spec() == values@,
            r.is_standard_spec(),
            r.rows_spec() == values@.len(),
            r.width_spec() == 1,
    {
        let rows = values.len();
        let r = Mask { values: MaskData::new(values), rows, width: 1, row_stride: 1, col_stride: 1 };
        assert forall|i: int| 0 <= i < rows implies offset(i, 1, 1, 1) == i by {}
        assert(r.view_spec() =~= r.values@);
        r
    }

    /// A mask over `values` laid out as `rows` rows of `width` elements with the
    /// given strides. Fails where an element would lie outside `values`.
    pub fn with_layout(values: Vec<bool>, rows: usize, width: usize, row_stride: usize, col_stride: usize) -> (r:
        Result<Mask, ShapeError>)
        ensures
            r matches Ok(m) ==> m.wf() && m.rows_spec() == rows && m.width_spec() == width && m.view_spec()
                == Seq::new(
                (rows * width) as nat,
                |i: int| values@[offset(i, width as int, row_stride as int, col_stride as int)],
            ),
            r is Err <==> (rows * width > usize::MAX || (rows > 0 && width > 0 && (rows - 1) * row_stride + (
            width - 1) * col_stride >= values@.len())),
    {
        let len = values.len();
        let n = match rows.checked_mul(width) {
            Some(n) => n,
            None => {
                return Err(ShapeError::ArraySize(len, vec![rows, width]));
            },
        };
        if rows > 0 && width > 0 {
            let last = match (rows - 1).checked_mul(row_stride) {
                Some(a) => match (width - 1).checked_mul(col_stride) {
                    Some(b) => a.checked_add(b),
                    None => None,
                },
                None => None,
            };
            let fits = match last {
                Some(l) => l < len,
                None => false,
            };
            if !fits {
                return Err(ShapeError::ArraySize(len, vec![rows, width]));
            }
        }
        let r = Mask { values: MaskData::new(values), rows, width, row_stride, col_stride };
        assert(r.view_spec() =~= Seq::new(
            (rows * width) as nat,
            |i: int| values@[offset(i, width as int, row_stride as int, col_stride as int)],
        ));
        Ok(r)
    }

    /// The same flags seen with rows and columns exchanged.
    pub fn transpose(self) -> (r: Mask)
        requires
            self.wf(),
        ensures
            r.wf(),
            r.rows_spec() == self.width_spec(),
            r.width_spec() == self.rows_spec(),
            forall|row: int, col: int| #[trigger] r.flag_at(row, col) == self.flag_at(col, row),
    {
        let r = Mask {
            values: self.values,
            rows: self.width,
            width: self.rows,
            row_stride: self.col_stride,
            col_stride: self.row_stride,
        };
        assert(r.rows * r.width == self.rows * self.width) by (nonlinear_arith)
            requires
                r.rows == self.width,
                r.width == self.rows,
        ;
        r
    }

    pub fn is_standard_layout(&self) -> (r: bool)
        ensures
            r == self.is_standard_spec(),
    {
        self.col_stride == 1 && self.row_stride == self.width && self.rows.checked_mul(self.width)
            == Some(self.values.len())
    }

    pub fn len(&self) -> (r: usize)
        requires
            self.wf(),
        ensures
            r == self.view_spec().len(),
    {
        self.rows * self.width
    }

    /// Walks the flags in index order.
    pub fn iter(self) -> (r: MaskIter)
        requires
            self.wf(),
        ensures
            r.wf(),
            r.view_spec() == self.view_spec(),
    {
        MaskIter::new(self)
    }
}

/// The flag at position `i` of a mask's index order is that of row
/// `i / width`, column `i % width`.
pub proof fn lemma_view_flag_at(m: Mask, i: int)
    requires
        0 <= i < m.num_elements(),
    ensures
        m.width_spec() > 0,
        m.view_spec()[i] == m.flag_at(i / m.width_spec() as int, i % m.width_spec() as int),
{
    assert(m.width_spec() > 0) by (nonlinear_arith)
        requires
            0 <= i < m.rows_spec() * m.width_spec(),
    ;
}

/// Walks a mask's flags in index order: a mask in standard layout flag by flag
/// as stored, any other through its strides.
pub enum MaskIter {
    Flat(ValidityIter),
    Shaped { inner: Mask, index: usize },
}

impl MaskIter {
    pub open spec fn wf(&self) -> bool {
        match self {
            MaskIter::Flat(v) => v.wf(),
            MaskIter::Shaped { inner, index } => inner.wf() && *index <= inner.num_elements(),
        }
    }

    /// The flags still to come.
    pub open spec fn view_spec(&self) -> Seq<bool> {
        match self {
            MaskIter::Flat(v) => v@,
            MaskIter::Shaped { inner, index } => inner.view_spec().skip(*index as int),
        }
    }

    pub fn new(inner: Mask) -> (r: MaskIter)
        requires
            inner.wf(),
        ensures
            r.wf(),
            r.view_spec() == inner.view_spec(),
    {
        if inner.is_standard_layout() {
            proof {
                let w = inner.width as int;
                assert forall|i: int| 0 <= i < inner.num_elements() implies offset(i, w, w, 1) == i by {
                    if w > 0 {
                        vstd::arithmetic::div_mod::lemma_fundamental_div_mod(i, w);
                        assert((i / w) * w == w * (i / w)) by (nonlinear_arith);
                    } else {
                        assert(inner.num_elements() == 0) by (nonlinear_arith)
                            requires inner.width == 0, inner.num_elements() == inner.rows * inner.width;
                    }
                }
                assert(inner.view_spec() =~= inner.flags());
            }
            MaskIter::Flat(ValidityIter::new(inner.values))
        } else {
            let r = MaskIter::Shaped { inner, index: 0 };
            assert(r.view_spec() =~= r->inner.view_spec());
            r
        }
    }

    pub fn len(&self) -> (r: usize)
        requires
            self.wf(),
        ensures
            r == self.view_spec().len(),
    {
        match self {
            MaskIter::Flat(v) => v.len(),
            MaskIter::Shaped { inner, index } => inner.len() - *index,
        }
    }

    /// The exact number of flags still to come, as lower and upper bound.
    pub fn size_hint(&self) -> (r: (usize, Option<usize>))
        requires
            self.wf(),
        ensures
            r.0 == self.view_spec().len(),
            r.1 == Some(r.0),
    {
        let n = self.len();
        (n, Some(n))
    }

    /// The next flag in index order, if any.
    pub fn next(&mut self) -> (r: Option<bool>)
        requires
            old(self).wf(),
        ensures
            final(self).wf(),
            old(self).view_spec().len() == 0 ==> r is None && final(self).view_spec() == old(self).view_spec(),
            old(self).view_spec().len() > 0 ==> r == Some(old(self).view_spec()[0]) && final(self).view_spec()
                == old(self).view_spec().skip(1),
    {
        match self {
            MaskIter::Flat(v) => v.next(),
            MaskIter::Shaped { inner, index } => {
                if *index < inner.len() {
                    let i = *index;
                    let w = inner.width;
                    proof {
                        assert(inner.rows > 0 && w > 0) by (nonlinear_arith)
                            requires i < inner.rows * w;
                        lemma_offset_in_bounds(
                            i as int,
                            inner.rows as int,
                            w as int,
                            inner.row_stride as int,
                            inner.col_stride as int,
                            inner.values@.len() as int,
                        );
                    }
                    let r = i / w;
                    let c = i % w;
                    proof {
                        assert(r * inner.row_stride + c * inner.col_stride == offset(i as int, w as int, inner.row_stride as int, inner.col_stride as int));
                    }
                    let stored = inner.values.len();
                    assert((r as int) * (inner.row_stride as int) < stored);
                    let at = r * inner.row_stride + c * inner.col_stride;
                    let value = inner.values.is_valid(at);
                    *index = i + 1;
                    assert(self.view_spec() =~= old(self).view_spec().skip(1));
                    Some(value)
                } else {
                    None
                }
            },
        }
    }

    /// All the flags still to come, in order.
    pub fn collect(self) -> (r: Vec<bool>)
        requires
            self.wf(),
        ensures
            r@ == self.view_spec(),
    {
        let mut it = self;
        let ghost all = it.view_spec();
        let mut out: Vec<bool> = Vec::new();
        loop
            invariant
                it.wf(),
                all == self.view_spec(),
                all == out@ + it.view_spec(),
            decreases it.view_spec().len(),
        {
            let ghost before = it.view_spec();
            match it.next() {
                Some(v) => {
                    out.push(v);
                    assert(all =~= out@ + it.view_spec()) by {
                        assert(before =~= seq![v] + it.view_spec());
                    }
                },
                None => {
                    assert(out@ =~= all);
                    return out;
                },
            }
        }
    }
}

/// Walking a mask built from `v` yields `v`, whichever form the walk takes: the
/// constant forms agree with the flags when all flags are equal.
pub proof fn lemma_constant_forms_agree(v: Seq<bool>)
    ensures
        (forall|i: int| 0 <= i < v.len() ==> v[i]) ==> Seq::new(v.len(), |_i: int| true) == v,
        (forall|i: int| 0 <= i < v.len() ==> !v[i]) ==> Seq::new(v.len(), |_i: int| false) == v,
{
    if forall|i: int| 0 <= i < v.len() ==> v[i] {
        assert(Seq::new(v.len(), |_i: int| true) =~= v);
    }
    if forall|i: int| 0 <= i < v.len() ==> !v[i] {
        assert(Seq::new(v.len(), |_i: int| false) =~= v);
    }
}

} // verus!
