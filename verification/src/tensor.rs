//! Owned tensor buffers: a dense numeric byte buffer with an ordered shape,
//! an element encoding, and a contiguity flag. A contiguous tensor holds
//! exactly `product(shape) * element size` bytes in row-major order with no
//! interior padding.

use vstd::prelude::*;

use crate::format::TensorEncoding;
use crate::format::spec_tensor_size;
use crate::format::tensor_size;

verus! {

/// Product of the dimensions of a shape.
pub open spec fn spec_product(s: Seq<usize>) -> int
    decreases s.len(),
{
    if s.len() == 0 {
        1
    } else {
        spec_product(s.drop_last()) * s.last()
    }
}

/// With every dimension positive, the product of a prefix of a shape is no
/// more than the product of the whole shape.
pub proof fn lemma_product_prefix_le(s: Seq<usize>, i: int)
    requires
        0 <= i <= s.len(),
        forall|j: int| 0 <= j < s.len() ==> s[j] > 0,
    ensures
        spec_product(s.take(i)) <= spec_product(s),
        spec_product(s) > 0,
    decreases s.len() - i,
{
    if i == s.len() {
        assert(s.take(i) =~= s);
        lemma_product_positive(s);
    } else {
        lemma_product_prefix_le(s, i + 1);
        lemma_product_positive(s.take(i));
        assert(s.take(i + 1).drop_last() =~= s.take(i));
        assert(s.take(i + 1).last() == s[i]);
        assert(spec_product(s.take(i)) * s[i] >= spec_product(s.take(i)) * 1) by (nonlinear_arith)
            requires
                s[i] >= 1,
                spec_product(s.take(i)) >= 0,
        ;
    }
}

/// With every dimension positive, the product of a shape is positive.
pub proof fn lemma_product_positive(s: Seq<usize>)
    requires
        forall|j: int| 0 <= j < s.len() ==> s[j] > 0,
    ensures
        spec_product(s) > 0,
    decreases s.len(),
{
    if s.len() > 0 {
        lemma_product_positive(s.drop_last());
        assert(spec_product(s.drop_last()) * s.last() > 0) by (nonlinear_arith)
            requires
                spec_product(s.drop_last()) > 0,
                s.last() >= 1,
        ;
    }
}

/// The product of a two-dimensional shape.
pub proof fn lemma_product2(a: usize, b: usize)
    ensures
        spec_product(seq![a, b]) == a * b,
{
    let e = Seq::<usize>::empty();
    assert(spec_product(e) == 1);
    assert(seq![a].drop_last() =~= e);
    assert(seq![a].last() == a);
    assert(spec_product(seq![a]) == spec_product(seq![a].drop_last()) * seq![a].last());
    assert(seq![a, b].drop_last() =~= seq![a]);
    assert(seq![a, b].last() == b);
    assert(spec_product(seq![a, b]) == spec_product(seq![a, b].drop_last()) * seq![a, b].last());
}

/// The product of a three-dimensional shape.
pub proof fn lemma_product3(a: usize, b: usize, c: usize)
    ensures
        spec_product(seq![a, b, c]) == a * b * c,
{
    lemma_product2(a, b);
    assert(seq![a, b, c].drop_last() =~= seq![a, b]);
    assert(seq![a, b, c].last() == c);
    assert(spec_product(seq![a, b, c]) == spec_product(seq![a, b, c].drop_last()) * seq![
        a,
        b,
        c,
    ].last());
}

/// An owned dense numeric buffer. The shape is interpreted by the converter
/// as `[height, width]` or `[height, width, channels]`; an external transform
/// may hand back any rank, and the converter guards the rank itself.
#[derive(Debug)]
#[verifier::ext_equal]
pub struct Tensor {
    pub shape: Vec<usize>,
    pub encoding: TensorEncoding,
    pub contiguous: bool,
    pub data: Vec<u8>,
}

impl Tensor {
    /// Number of dimensions of the shape.
    pub open spec fn rank(self) -> int {
        self.shape.len() as int
    }

    /// The tensor invariant: every dimension is positive, and a contiguous
    /// tensor holds exactly its elements' bytes, row-major, unpadded.
    pub open spec fn wf(self) -> bool {
        &&& forall|j: int| 0 <= j < self.shape.len() ==> self.shape@[j] > 0
        &&& self.contiguous ==> self.data.len() == spec_product(self.shape@) * spec_tensor_size(
            self.encoding,
        )
    }

    /// Build a tensor from raw attributes, validating the invariant; returns
    /// `None` exactly when the attributes do not form a well-formed tensor.
    pub fn new(shape: Vec<usize>, encoding: TensorEncoding, contiguous: bool, data: Vec<u8>) -> (r:
        Option<Tensor>)
        ensures
            r is Some <==> {
                &&& forall|j: int| 0 <= j < shape.len() ==> shape@[j] > 0
                &&& contiguous ==> data.len() == spec_product(shape@) * spec_tensor_size(encoding)
            },
            r matches Some(t) ==> {
                &&& t.shape@ == shape@
                &&& t.encoding == encoding
                &&& t.contiguous == contiguous
                &&& t.data@ == data@
                &&& t.wf()
            },
    {
        let mut i: usize = 0;
        while i < shape.len()
            invariant
                0 <= i <= shape.len(),
                forall|j: int| 0 <= j < i ==> shape@[j] > 0,
            decreases shape.len() - i,
        {
            if shape[i] == 0 {
                return None;
            }
            i = i + 1;
        }
        if contiguous {
            let expected: usize = data.len();
            let sz = tensor_size(encoding);
            let mut prod: usize = 1;
            let mut k: usize = 0;
            while k < shape.len()
                invariant
                    0 <= k <= shape.len(),
                    forall|j: int| 0 <= j < shape.len() ==> shape@[j] > 0,
                    prod == spec_product(shape@.take(k as int)),
                    expected == data.len(),
                    sz == spec_tensor_size(encoding),
                    contiguous,
                decreases shape.len() - k,
            {
                proof {
                    assert(shape@.take(k + 1).drop_last() =~= shape@.take(k as int));
                    assert(shape@.take(k + 1).last() == shape@[k as int]);
                }
                prod = match prod.checked_mul(shape[k]) {
                    Some(p) => p,
                    None => {
                        proof {
                            lemma_product_prefix_le(shape@, k + 1);
                            assert(spec_product(shape@) > usize::MAX);
                            assert(spec_product(shape@) * spec_tensor_size(encoding)
                                >= spec_product(shape@)) by (nonlinear_arith)
                                requires
                                    spec_tensor_size(encoding) >= 1,
                                    spec_product(shape@) >= 0,
                            ;
                            assert(expected < spec_product(shape@) * spec_tensor_size(encoding));
                        }
                        return None;
                    },
                };
                k = k + 1;
            }
            proof {
                assert(shape@.take(shape.len() as int) =~= shape@);
            }
            let total = match prod.checked_mul(sz) {
                Some(t) => t,
                None => {
                    return None;
                },
            };
            if total != expected {
                return None;
            }
        }
        Some(Tensor { shape, encoding, contiguous, data })
    }
}

} // verus!
