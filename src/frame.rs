//! Typed, shaped, nullable columns and the data frames made of them.
use vstd::prelude::*;
use crate::error::{Error, ShapeError};
use crate::info::TensorType;

verus! {

/// The elements of a tensor, in row-major order.
#[derive(Debug)]
pub enum TensorData {
    Bool(Vec<bool>),
    Int8(Vec<i8>),
    Int16(Vec<i16>),
    Int32(Vec<i32>),
    Int64(Vec<i64>),
    UInt8(Vec<u8>),
    UInt16(Vec<u16>),
    UInt32(Vec<u32>),
    UInt64(Vec<u64>),
    String(Vec<String>),
}

impl TensorData {
    pub open spec fn len_spec(&self) -> nat {
        match self {
            TensorData::Bool(v) => v@.len(),
            TensorData::Int8(v) => v@.len(),
            TensorData::Int16(v) => v@.len(),
            TensorData::Int32(v) => v@.len(),
            TensorData::Int64(v) => v@.len(),
            TensorData::UInt8(v) => v@.len(),
            TensorData::UInt16(v) => v@.len(),
            TensorData::UInt32(v) => v@.len(),
            TensorData::UInt64(v) => v@.len(),
            TensorData::String(v) => v@.len(),
        }
    }

    pub open spec fn type_spec(&self) -> TensorType {
        match self {
            TensorData::Bool(_) => TensorType::Bool,
            TensorData::Int8(_) => TensorType::Int8,
            TensorData::Int16(_) => TensorType::Int16,
            TensorData::Int32(_) => TensorType::Int32,
            TensorData::Int64(_) => TensorType::Int64,
            TensorData::UInt8(_) => TensorType::UInt8,
            TensorData::UInt16(_) => TensorType::UInt16,
            TensorData::UInt32(_) => TensorType::UInt32,
            TensorData::UInt64(_) => TensorType::UInt64,
            TensorData::String(_) => TensorType::String,
        }
    }

    pub fn len(&self) -> (r: usize)
        ensures
            r == self.len_spec(),
    {
        match self {
            TensorData::Bool(v) => v.len(),
            TensorData::Int8(v) => v.len(),
            TensorData::Int16(v) => v.len(),
            TensorData::Int32(v) => v.len(),
            TensorData::Int64(v) => v.len(),
            TensorData::UInt8(v) => v.len(),
            TensorData::UInt16(v) => v.len(),
            TensorData::UInt32(v) => v.len(),
            TensorData::UInt64(v) => v.len(),
            TensorData::String(v) => v.len(),
        }
    }

    /// The element type of the data.
    pub fn tensor_type(&self) -> (r: TensorType)
        ensures
            r == self.type_spec(),
    {
        match self {
            TensorData::Bool(_) => TensorType::Bool,
            TensorData::Int8(_) => TensorType::Int8,
            TensorData::Int16(_) => TensorType::Int16,
            TensorData::Int32(_) => TensorType::Int32,
            TensorData::Int64(_) => TensorType::Int64,
            TensorData::UInt8(_) => TensorType::UInt8,
            TensorData::UInt16(_) => TensorType::UInt16,
            TensorData::UInt32(_) => TensorType::UInt32,
            TensorData::UInt64(_) => TensorType::UInt64,
            TensorData::String(_) => TensorType::String,
        }
    }
}

/// The number of elements of a shape: the product of its dimensions.
pub open spec fn shape_size(s: Seq<usize>) -> int
    decreases s.len(),
{
    if s.len() == 0 {
        1
    } else {
        shape_size(s.drop_last()) * s.last()
    }
}

/// A shaped array of elements of one type, each valid or null.
#[derive(Debug)]
pub struct Tensor {
    shape: Vec<usize>,
    data: TensorData,
    validity: Vec<bool>,
}

/// The mathematical value of a tensor: element type, shape, validity flags.
pub type TensorModel = (TensorType, Seq<usize>, Seq<bool>);

impl View for Tensor {
    type V = TensorModel;

    closed spec fn view(&self) -> TensorModel {
        (self.data.type_spec(), self.shape@, self.validity@)
    }
}

/// The number of elements of `shape`, or `None` where it exceeds `usize`.
fn checked_size(shape: &Vec<usize>) -> (r: Option<usize>)
    ensures
        r matches Some(n) ==> n == shape_size(shape@),
        r is None ==> shape_size(shape@) > usize::MAX,
        shape_size(shape@) <= usize::MAX ==> r is Some,
{
    let mut z: usize = 0;
    while z < shape.len()
        invariant
            z <= shape@.len(),
            forall|j: int| 0 <= j < z ==> shape@[j] != 0,
        decreases shape@.len() - z,
    {
        if shape[z] == 0 {
            proof {
                lemma_shape_size_zero(shape@, z as int);
            }
            return Some(0);
        }
        z += 1;
    }
    let mut n: usize = 1;
    let mut i: usize = 0;
    assert(shape@.take(0) =~= Seq::<usize>::empty());
    while i < shape.len()
        invariant
            i <= shape@.len(),
            n == shape_size(shape@.take(i as int)),
            forall|j: int| 0 <= j < shape@.len() ==> shape@[j] != 0,
        decreases shape@.len() - i,
    {
        assert(shape@.take(i as int + 1).drop_last() =~= shape@.take(i as int));
        match n.checked_mul(shape[i]) {
            Some(m) => {
                n = m;
            },
            None => {
                proof {
                    lemma_shape_size_monotone(shape@, i as int + 1);
                }
                return None;
            },
        }
        i += 1;
    }
    assert(shape@.take(i as int) =~= shape@);
    Some(n)
}

/// A shape with a zero dimension holds no element.
proof fn lemma_shape_size_zero(s: Seq<usize>, j: int)
    requires
        0 <= j < s.len(),
        s[j] == 0,
    ensures
        shape_size(s) == 0,
    decreases s.len(),
{
    if j < s.len() - 1 {
        assert(s.drop_last()[j] == 0);
        lemma_shape_size_zero(s.drop_last(), j);
        assert(shape_size(s) == 0 * s.last());
    } else {
        assert(s.last() == 0);
        assert(shape_size(s) == shape_size(s.drop_last()) * 0);
    }
}

/// A shape whose leading dimensions already hold more than `usize::MAX`
/// elements holds more too, unless a later dimension is zero.
proof fn lemma_shape_size_monotone(s: Seq<usize>, k: int)
    requires
        0 <= k <= s.len(),
        shape_size(s.take(k)) > usize::MAX,
    ensures
        shape_size(s) > usize::MAX || exists|j: int| k <= j < s.len() && s[j] == 0,
    decreases s.len() - k,
{
    if k < s.len() {
        assert(s.take(k + 1).drop_last() =~= s.take(k));
        if s[k] == 0 {
        } else {
            let p = shape_size(s.take(k));
            assert(p * s[k] >= p) by (nonlinear_arith)
                requires
                    p > 0,
                    s[k] >= 1,
            ;
            lemma_shape_size_monotone(s, k + 1);
        }
    } else {
        assert(s.take(k) =~= s);
    }
}

impl Tensor {
    pub closed spec fn wf(&self) -> bool {
        &&& shape_size(self.shape@) == self.data.len_spec()
        &&& self.validity@.len() == self.data.len_spec()
    }

    /// A tensor of the given shape whose elements are all valid. Fails where
    /// the number of elements differs from what the shape holds.
    pub fn new(data: TensorData, shape: Vec<usize>) -> (r: Result<Tensor, ShapeError>)
        ensures
            r matches Ok(t) ==> t.wf() && t@ == (data.type_spec(), shape@, Seq::new(
                data.len_spec(),
                |_i: int| true,
            )),
            r is Ok <==> shape_size(shape@) == data.len_spec(),
            shape_size(shape@) != data.len_spec() ==> (r matches Err(ShapeError::ArraySize(n, s)) && n == data.len_spec() && s@ == shape@),
    {
        let n = data.len();
        let validity = vec![true; n];
        match checked_size(&shape) {
            Some(size) => {
                if size != n {
                    return Err(ShapeError::ArraySize(n, shape));
                }
            },
            None => {
                return Err(ShapeError::ArraySize(n, shape));
            },
        }
        let r = Tensor { shape, data, validity };
        assert(r@.2 =~= Seq::new(n as nat, |_i: int| true));
        Ok(r)
    }

    /// A tensor whose element `i` is null where `validity[i]` is false.
    pub fn with_validity(data: TensorData, shape: Vec<usize>, validity: Vec<bool>) -> (r: Result<Tensor, ShapeError>)
        ensures
            r matches Ok(t) ==> t.wf() && t@ == (data.type_spec(), shape@, validity@),
            shape_size(shape@) != data.len_spec() ==> (r matches Err(ShapeError::ArraySize(n, s)) && n == data.len_spec() && s@ == shape@),
            shape_size(shape@) == data.len_spec() && validity@.len() != data.len_spec() ==> (r matches Err(ShapeError::ArraySize(n, s)) && n == validity@.len() && s@ == shape@),
            shape_size(shape@) == data.len_spec() && validity@.len() == data.len_spec() ==> r is Ok,
    {
        let n = data.len();
        match checked_size(&shape) {
            Some(size) => {
                if size != n {
                    return Err(ShapeError::ArraySize(n, shape));
                }
            },
            None => {
                return Err(ShapeError::ArraySize(n, shape));
            },
        }
        if validity.len() != n {
            return Err(ShapeError::ArraySize(validity.len(), shape));
        }
        Ok(Tensor { shape, data, validity })
    }

    pub fn shape(&self) -> (r: &Vec<usize>)
        ensures
            r@ == self@.1,
    {
        &self.shape
    }

    pub fn tensor_type(&self) -> (r: TensorType)
        ensures
            r == self@.0,
    {
        self.data.tensor_type()
    }

    pub fn data(&self) -> (r: &TensorData)
        ensures
            r.type_spec() == self@.0,
            self.wf() ==> r.len_spec() == self@.2.len(),
    {
        &self.data
    }

    /// Whether element `i` is valid.
    pub fn is_valid(&self, i: usize) -> (r: bool)
        requires
            i < self@.2.len(),
        ensures
            r == self@.2[i as int],
    {
        self.validity[i]
    }
}

/// A tensor with a column name.
#[derive(Debug)]
pub struct NamedColumn {
    name: String,
    tensor: Tensor,
}

/// The mathematical value of a column: its name and its tensor.
pub type ColumnView = (Seq<char>, TensorModel);

impl View for NamedColumn {
    type V = ColumnView;

    closed spec fn view(&self) -> ColumnView {
        (self.name@, self.tensor@)
    }
}

impl NamedColumn {
    pub closed spec fn wf(&self) -> bool {
        self.tensor.wf()
    }

    pub fn new(name: &str, tensor: Tensor) -> (r: NamedColumn)
        ensures
            r@ == (name@, tensor@),
            r.wf() == tensor.wf(),
    {
        NamedColumn { name: name.to_owned(), tensor }
    }

    pub fn name(&self) -> (r: &String)
        ensures
            r@ == self@.0,
    {
        &self.name
    }

    pub fn tensor(&self) -> (r: &Tensor)
        ensures
            r@ == self@.1,
            self.wf() ==> r.wf(),
    {
        &self.tensor
    }
}

/// A set of named columns with one row count: the first dimension of every
/// column's shape.
#[derive(Debug)]
pub struct DataFrame {
    rows: usize,
    columns: Vec<NamedColumn>,
}

/// `i` is the first column named `name`.
pub open spec fn is_first_named(cols: Seq<ColumnView>, name: Seq<char>, i: int) -> bool {
    &&& 0 <= i < cols.len()
    &&& cols[i].0 == name
    &&& forall|j: int| 0 <= j < i ==> (#[trigger] cols[j]).0 != name
}

impl DataFrame {
    pub closed spec fn view_spec(&self) -> Seq<ColumnView> {
        self.columns@.map_values(|c: NamedColumn| c@)
    }

    pub closed spec fn rows_spec(&self) -> nat {
        self.rows as nat
    }

    /// Every column is well formed and its first dimension is the row count.
    pub closed spec fn wf(&self) -> bool {
        &&& forall|i: int|
            0 <= i < self.columns@.len() ==> (#[trigger] self.columns@[i]).wf() && self.columns@[i]@.1.1.len() > 0
                && self.columns@[i]@.1.1[0] == self.rows
        &&& self.columns@.len() == 0 ==> self.rows == 0
    }

    /// A frame of `columns`. Fails where a column has no dimension, or where
    /// two columns differ in their first dimension; the row count is that of
    /// the first column, or zero without columns.
    pub fn new(columns: Vec<NamedColumn>) -> (r: Result<DataFrame, Error>)
        requires
            forall|i: int| 0 <= i < columns@.len() ==> (#[trigger] columns@[i]).wf(),
        ensures
            r matches Ok(f) ==> f.wf() && f.view_spec() == columns@.map_values(|c: NamedColumn| c@) && f.rows_spec()
                == (if columns@.len() == 0 {
                0
            } else {
                columns@[0]@.1.1[0] as nat
            }),
            r is Ok <==> forall|i: int|
                0 <= i < columns@.len() ==> (#[trigger] columns@[i])@.1.1.len() > 0 && columns@[i]@.1.1[0]
                    == columns@[0]@.1.1[0],
            r is Err ==> r matches Err(Error::Shape(_)),
            (r matches Err(Error::Shape(ShapeError::Ndim { .. }))) ==> exists|i: int|
                0 <= i < columns@.len() && (#[trigger] columns@[i])@.1.1.len() == 0,
            (forall|i: int| 0 <= i < columns@.len() ==> (#[trigger] columns@[i])@.1.1.len() > 0) && r is Err ==> (r matches Err(
                Error::Shape(ShapeError::Incompatible(_)),
            )),
    {
        if columns.len() == 0 {
            let f = DataFrame { rows: 0, columns };
            assert(f.view_spec() =~= f.columns@.map_values(|c: NamedColumn| c@));
            return Ok(f);
        }
        if columns[0].tensor.shape.len() == 0 {
            return Err(Error::Shape(ShapeError::ndim(1, 0)));
        }
        let rows = columns[0].tensor.shape[0];
        let mut i: usize = 1;
        while i < columns.len()
            invariant
                1 <= i <= columns@.len(),
                columns@[0]@.1.1.len() > 0,
                rows == columns@[0]@.1.1[0],
                forall|j: int| 0 <= j < i ==> (#[trigger] columns@[j])@.1.1.len() > 0 && columns@[j]@.1.1[0] == rows,
            decreases columns@.len() - i,
        {
            let shape = &columns[i].tensor.shape;
            if shape.len() == 0 {
                return Err(Error::Shape(ShapeError::ndim(1, 0)));
            }
            if shape[0] != rows {
                return Err(Error::Shape(ShapeError::incompatible(vec![rows].as_slice())));
            }
            i += 1;
        }
        let f = DataFrame { rows, columns };
        assert(f.view_spec() =~= f.columns@.map_values(|c: NamedColumn| c@));
        Ok(f)
    }

    pub fn ncols(&self) -> (r: usize)
        ensures
            r == self.view_spec().len(),
    {
        self.columns.len()
    }

    pub fn nrows(&self) -> (r: usize)
        ensures
            r == self.rows_spec(),
            self.wf() ==> forall|i: int|
                0 <= i < self.view_spec().len() ==> (#[trigger] self.view_spec()[i]).1.1.len() > 0
                    && self.view_spec()[i].1.1[0] == r,
            self.wf() && self.view_spec().len() == 0 ==> r == 0,
    {
        self.rows
    }

    /// Column `i`.
    pub fn column(&self, i: usize) -> (r: &NamedColumn)
        requires
            i < self.view_spec().len(),
        ensures
            r@ == self.view_spec()[i as int],
            self.wf() ==> r@.1.1.len() > 0 && r@.1.1[0] == self.rows_spec(),
    {
        &self.columns[i]
    }

    /// The tensor of the first column named `name`, if its element type is
    /// `data_type`. Fails where no column has that name, or where the type
    /// differs.
    pub fn col(&self, name: &str, data_type: TensorType) -> (r: Result<&Tensor, Error>)
        ensures
            (forall|i: int| 0 <= i < self.view_spec().len() ==> (#[trigger] self.view_spec()[i]).0 != name@)
                ==> (r matches Err(Error::ColumnLookup(n)) && n@ == name@),
            forall|i: int|
                is_first_named(self.view_spec(), name@, i) ==> {
                    &&& self.view_spec()[i].1.0 == data_type ==> (r matches Ok(t) && t@ == self.view_spec()[i].1)
                    &&& self.view_spec()[i].1.0 != data_type ==> r == Err::<&Tensor, Error>(
                        Error::Cast { to: data_type, from: self.view_spec()[i].1.0 },
                    )
                },
    {
        let key = name.to_owned();
        let mut i: usize = 0;
        while i < self.columns.len()
            invariant
                i <= self.columns@.len(),
                key@ == name@,
                forall|j: int| 0 <= j < i ==> (#[trigger] self.view_spec()[j]).0 != name@,
            decreases self.columns@.len() - i,
        {
            if self.columns[i].name == key {
                assert(is_first_named(self.view_spec(), name@, i as int));
                assert forall|k: int| is_first_named(self.view_spec(), name@, k) implies k == i by {
                    if k < i {
                    } else if k > i {
                        assert(self.view_spec()[i as int].0 == name@);
                    }
                }
                return self.icol(i, data_type);
            }
            i += 1;
        }
        Err(Error::ColumnLookup(name.to_owned()))
    }

    /// The tensor of column `i`, if its element type is `data_type`.
    pub fn icol(&self, i: usize, data_type: TensorType) -> (r: Result<&Tensor, Error>)
        requires
            i < self.view_spec().len(),
        ensures
            self.view_spec()[i as int].1.0 == data_type ==> (r matches Ok(t) && t@ == self.view_spec()[i as int].1),
            self.view_spec()[i as int].1.0 != data_type ==> r == Err::<&Tensor, Error>(
                Error::Cast { to: data_type, from: self.view_spec()[i as int].1.0 },
            ),
    {
        let t = &self.columns[i].tensor;
        let from = t.tensor_type();
        if from == data_type {
            Ok(t)
        } else {
            Err(Error::cast(data_type, from))
        }
    }
}

} // verus!
