use vstd::prelude::*;

verus! {

/// Bytes in one component of any attribute type: vertex data are 32-bit words.
pub const COMPONENT_BYTES: u32 = 4;

/// The most components one attribute may have.
pub const MAX_COMPONENTS: u32 = 4;

/// Numeric type of an attribute's components, each one 32-bit word wide.
#[derive(PartialEq, Eq, Structural, Clone, Copy, Debug)]
pub enum ScalarKind {
    Float,
    Int,
    UnsignedInt,
}

/// How one attribute slot reads from an interleaved vertex record.
#[derive(PartialEq, Eq, Structural, Clone, Copy, Debug)]
pub struct VertexAttribute {
    /// Attribute slot (`layout (location = n)` in the vertex stage).
    pub location: u32,
    /// Components per vertex, 1 to 4.
    pub components: u32,
    pub kind: ScalarKind,
    pub normalized: bool,
    /// Bytes from one vertex record to the next.
    pub stride: u32,
    /// Bytes from the start of a record to this attribute's first component.
    pub offset: u32,
}

impl VertexAttribute {
    /// Bytes this attribute covers within one record.
    pub open spec fn span(self) -> int {
        self.components * COMPONENT_BYTES
    }
}

/// An ordered attribute layout over records of `stride` bytes.
#[derive(Clone, Debug)]
pub struct VertexLayout {
    pub stride: u32,
    pub attributes: Vec<VertexAttribute>,
}

/// Sum of the spans of `attrs`.
pub open spec fn span_sum(attrs: Seq<VertexAttribute>) -> int
    decreases attrs.len(),
{
    if attrs.len() == 0 {
        0
    } else {
        span_sum(attrs.drop_last()) + attrs.last().span()
    }
}

/// The byte ranges of `a` and `b` within a record do not overlap.
pub open spec fn disjoint(a: VertexAttribute, b: VertexAttribute) -> bool {
    a.offset + a.span() <= b.offset || b.offset + b.span() <= a.offset
}

/// `a` has 1 to 4 components, declares `stride` and lies inside the record.
pub open spec fn attribute_fits(a: VertexAttribute, stride: int) -> bool {
    &&& 1 <= a.components <= MAX_COMPONENTS
    &&& a.stride == stride
    &&& a.offset + a.span() <= stride
}

/// A layout the device can read records through: every attribute fits the
/// record, no two overlap, and together they cover exactly `stride` bytes.
pub open spec fn valid_layout(stride: int, attrs: Seq<VertexAttribute>) -> bool {
    &&& stride > 0
    &&& forall|i: int| 0 <= i < attrs.len() ==> attribute_fits(#[trigger] attrs[i], stride)
    &&& forall|i: int, j: int|
        0 <= i < j < attrs.len() ==> disjoint(#[trigger] attrs[i], #[trigger] attrs[j])
    &&& span_sum(attrs) == stride
}

proof fn lemma_span_sum_prefix(attrs: Seq<VertexAttribute>, k: int)
    requires
        0 <= k <= attrs.len(),
    ensures
        0 <= span_sum(attrs.take(k)) <= span_sum(attrs),
    decreases attrs.len(),
{
    if k < attrs.len() {
        assert(attrs.drop_last().take(k) =~= attrs.take(k));
        lemma_span_sum_prefix(attrs.drop_last(), k);
    } else {
        assert(attrs.take(k) =~= attrs);
        if attrs.len() > 0 {
            lemma_span_sum_prefix(attrs.drop_last(), k - 1);
            assert(attrs.drop_last().take(k - 1) =~= attrs.drop_last());
        }
    }
}


/// Sum of `counts`.
pub open spec fn count_sum(counts: Seq<u32>) -> int
    decreases counts.len(),
{
    if counts.len() == 0 {
        0
    } else {
        count_sum(counts.drop_last()) + counts.last()
    }
}

/// Counts a tightly packed float layout can be built from: each one 1 to 4,
/// at least one, and the record size fits a `u32`.
pub open spec fn packable(counts: Seq<u32>) -> bool {
    &&& counts.len() > 0
    &&& forall|i: int| 0 <= i < counts.len() ==> 1 <= #[trigger] counts[i] <= MAX_COMPONENTS
    &&& count_sum(counts) * COMPONENT_BYTES <= u32::MAX
}

/// Attribute `i` of the tightly packed float layout of `counts`: slot `i`,
/// placed right after the attributes before it.
pub open spec fn packed_attribute(counts: Seq<u32>, i: int) -> VertexAttribute {
    VertexAttribute {
        location: i as u32,
        components: counts[i],
        kind: ScalarKind::Float,
        normalized: false,
        stride: (count_sum(counts) * COMPONENT_BYTES) as u32,
        offset: (count_sum(counts.take(i)) * COMPONENT_BYTES) as u32,
    }
}

proof fn lemma_count_sum_nonneg(counts: Seq<u32>)
    ensures
        count_sum(counts) >= 0,
        (forall|i: int| 0 <= i < counts.len() ==> 1 <= #[trigger] counts[i]) ==> count_sum(counts) >= counts.len(),
    decreases counts.len(),
{
    if counts.len() > 0 {
        lemma_count_sum_nonneg(counts.drop_last());
    }
}

proof fn lemma_count_sum_prefix(counts: Seq<u32>, a: int, b: int)
    requires
        0 <= a <= b <= counts.len(),
    ensures
        count_sum(counts.take(a)) <= count_sum(counts.take(b)),
    decreases b - a,
{
    if a < b {
        lemma_count_sum_prefix(counts, a, b - 1);
        assert(counts.take(b).drop_last() =~= counts.take(b - 1));
    }
}

proof fn lemma_count_sum_step(counts: Seq<u32>, i: int)
    requires
        0 <= i < counts.len(),
    ensures
        count_sum(counts.take(i + 1)) == count_sum(counts.take(i)) + counts[i],
{
    assert(counts.take(i + 1).drop_last() =~= counts.take(i));
}

proof fn lemma_span_sum_counts(attrs: Seq<VertexAttribute>, counts: Seq<u32>)
    requires
        attrs.len() == counts.len(),
        forall|i: int| 0 <= i < attrs.len() ==> (#[trigger] attrs[i]).components == counts[i],
    ensures
        span_sum(attrs) == count_sum(counts) * COMPONENT_BYTES,
    decreases attrs.len(),
{
    if attrs.len() > 0 {
        lemma_span_sum_counts(attrs.drop_last(), counts.drop_last());
    }
}

impl VertexLayout {
    pub open spec fn valid(&self) -> bool {
        valid_layout(self.stride as int, self.attributes@)
    }

    /// The tightly packed float layout of `counts`: attribute `i` sits at slot
    /// `i` with `counts[i]` components, right after attribute `i - 1`, and the
    /// stride is the whole record. `None` when `counts` is not packable.
    pub fn interleaved(counts: &Vec<u32>) -> (r: Option<VertexLayout>)
        ensures
            r is Some <==> packable(counts@),
            r matches Some(l) ==> {
                &&& l.stride == count_sum(counts@) * COMPONENT_BYTES
                &&& l.attributes@.len() == counts@.len()
                &&& forall|i: int| 0 <= i < counts@.len() ==> #[trigger] l.attributes@[i] == packed_attribute(counts@, i)
                &&& l.valid()
            },
    {
        if counts.len() == 0 {
            return None;
        }
        let mut total: u64 = 0;
        let mut i: usize = 0;
        while i < counts.len()
            invariant
                0 <= i <= counts.len(),
                total == count_sum(counts@.take(i as int)) * COMPONENT_BYTES,
                total <= u32::MAX,
                forall|k: int| 0 <= k < i ==> 1 <= #[trigger] counts@[k] <= MAX_COMPONENTS,
            decreases counts.len() - i,
        {
            let c = counts[i];
            if c < 1 || c > MAX_COMPONENTS {
                return None;
            }
            proof {
                lemma_count_sum_step(counts@, i as int);
            }
            total = total + c as u64 * 4;
            if total > u32::MAX as u64 {
                proof {
                    lemma_count_sum_prefix(counts@, i + 1, counts@.len() as int);
                    assert(counts@.take(counts@.len() as int) =~= counts@);
                }
                return None;
            }
            i = i + 1;
        }
        assert(counts@.take(counts@.len() as int) =~= counts@);
        let stride = total as u32;
        let mut attributes: Vec<VertexAttribute> = Vec::new();
        let mut offset: u32 = 0;
        let mut i: usize = 0;
        while i < counts.len()
            invariant
                packable(counts@),
                stride == count_sum(counts@) * COMPONENT_BYTES,
                0 <= i <= counts.len(),
                attributes@.len() == i,
                offset == count_sum(counts@.take(i as int)) * COMPONENT_BYTES,
                forall|k: int| 0 <= k < i ==> #[trigger] attributes@[k] == packed_attribute(counts@, k),
            decreases counts.len() - i,
        {
            proof {
                lemma_count_sum_step(counts@, i as int);
                lemma_count_sum_prefix(counts@, i + 1, counts@.len() as int);
                assert(counts@.take(counts@.len() as int) =~= counts@);
                lemma_count_sum_nonneg(counts@);
                lemma_count_sum_nonneg(counts@.take(i as int));
            }
            let c = counts[i];
            attributes.push(VertexAttribute {
                location: i as u32,
                components: c,
                kind: ScalarKind::Float,
                normalized: false,
                stride,
                offset,
            });
            offset = offset + c * 4;
            i = i + 1;
        }
        let l = VertexLayout { stride, attributes };
        proof {
            let attrs = l.attributes@;
            let cs = counts@;
            assert forall|i: int| 0 <= i < attrs.len() implies attribute_fits(#[trigger] attrs[i], stride as int) by {
                lemma_count_sum_step(cs, i);
                lemma_count_sum_prefix(cs, i + 1, cs.len() as int);
                lemma_count_sum_nonneg(cs.take(i));
                assert(cs.take(cs.len() as int) =~= cs);
            }
            assert forall|i: int, j: int| 0 <= i < j < attrs.len() implies disjoint(#[trigger] attrs[i], #[trigger] attrs[j]) by {
                lemma_count_sum_step(cs, i);
                lemma_count_sum_prefix(cs, i + 1, j);
                lemma_count_sum_prefix(cs, j, cs.len() as int);
                lemma_count_sum_nonneg(cs.take(i));
                assert(cs.take(cs.len() as int) =~= cs);
            }
            lemma_span_sum_counts(attrs, cs);
            lemma_count_sum_nonneg(cs);
        }
        Some(l)
    }

    /// The record used by the demo geometry: position (3 floats), color
    /// (3 floats) and texture coordinates (2 floats), 32 bytes in all, at
    /// offsets 0, 12 and 24.
    pub fn position_color_texcoord() -> (r: VertexLayout)
        ensures
            r.valid(),
            r.stride == 32,
            r.attributes@.len() == 3,
            r.attributes@[0] == (VertexAttribute { location: 0, components: 3, kind: ScalarKind::Float, normalized: false, stride: 32, offset: 0 }),
            r.attributes@[1] == (VertexAttribute { location: 1, components: 3, kind: ScalarKind::Float, normalized: false, stride: 32, offset: 12 }),
            r.attributes@[2] == (VertexAttribute { location: 2, components: 2, kind: ScalarKind::Float, normalized: false, stride: 32, offset: 24 }),
    {
        let counts: Vec<u32> = vec![3, 3, 2];
        proof {
            let cs = counts@;
            assert(cs.take(0) =~= Seq::<u32>::empty());
            assert(cs.take(1).drop_last() =~= cs.take(0));
            assert(cs.take(2).drop_last() =~= cs.take(1));
            assert(cs.drop_last() =~= cs.take(2));
            assert(count_sum(cs.take(0)) == 0);
            assert(count_sum(cs.take(1)) == 3);
            assert(count_sum(cs.take(2)) == 6);
            assert(count_sum(cs) == 8);
        }
        Self::interleaved(&counts).unwrap()
    }

    /// Checks the layout before anything is uploaded through it.
    pub fn validate(&self) -> (r: bool)
        ensures
            r == self.valid(),
    {
        let attrs = &self.attributes;
        let stride = self.stride;
        if stride == 0 {
            return false;
        }
        let mut sum: u64 = 0;
        let mut i: usize = 0;
        while i < attrs.len()
            invariant
                attrs == &self.attributes,
                stride == self.stride,
                0 <= i <= attrs.len(),
                sum == span_sum(attrs@.take(i as int)),
                sum <= stride,
                forall|k: int| 0 <= k < i ==> attribute_fits(#[trigger] attrs@[k], stride as int),
            decreases attrs.len() - i,
        {
            let a = attrs[i];
            assert(attrs@.take(i + 1).drop_last() =~= attrs@.take(i as int));
            if a.components < 1 || a.components > MAX_COMPONENTS || a.stride != stride
                || a.offset as u64 + a.components as u64 * 4 > stride as u64 {
                assert(!attribute_fits(attrs@[i as int], stride as int));
                return false;
            }
            sum = sum + a.components as u64 * 4;
            if sum > stride as u64 {
                proof {
                    lemma_span_sum_prefix(attrs@, i + 1);
                }
                return false;
            }
            i = i + 1;
        }
        assert(attrs@.take(i as int) =~= attrs@);
        if sum != stride as u64 {
            return false;
        }
        let mut i: usize = 0;
        while i < attrs.len()
            invariant
                attrs == &self.attributes,
                0 <= i <= attrs.len(),
                forall|p: int, q: int|
                    0 <= p < q < attrs.len() && p < i ==> disjoint(#[trigger] attrs@[p], #[trigger] attrs@[q]),
            decreases attrs.len() - i,
        {
            let mut j: usize = i + 1;
            while j < attrs.len()
                invariant
                    attrs == &self.attributes,
                    i < attrs.len(),
                    i + 1 <= j <= attrs.len(),
                    forall|p: int, q: int|
                        0 <= p < q < attrs.len() && p < i ==> disjoint(#[trigger] attrs@[p], #[trigger] attrs@[q]),
                    forall|q: int| i < q < j ==> disjoint(attrs@[i as int], #[trigger] attrs@[q]),
                decreases attrs.len() - j,
            {
                let a = attrs[i];
                let b = attrs[j];
                if !(a.offset as u64 + a.components as u64 * 4 <= b.offset as u64
                    || b.offset as u64 + b.components as u64 * 4 <= a.offset as u64) {
                    return false;
                }
                j = j + 1;
            }
            i = i + 1;
        }
        true
    }
}

} // verus!
