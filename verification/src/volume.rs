use vstd::prelude::*;
use vstd::slice::slice_subrange;

use crate::error::ExportError;

verus! {

/// A read-only view of a 3D stack of signed 16-bit samples, row-major and
/// frame-major: the depth-slice `z` occupies the sample range
/// `[z * width * height, (z + 1) * width * height)` of the backing buffer.
///
/// The buffer is borrowed, never copied: slices handed out by `get_slice`
/// alias it. A well-formed volume has exactly `width * height * depth`
/// samples; the constructor does not enforce this, since the dimensions come
/// from an external reader — instead `get_slice` re-checks every computed
/// range against the buffer and reports a bounds error on any mismatch.
pub struct Volume3D<'a> {
    data: &'a [i16],
    nx: usize,
    ny: usize,
    nz: usize,
}

/// `z * w * h`, `(z + 1) * w * h` and their regroupings around `w * h`, as
/// one product identity: flattened and grouped forms agree, and one slice
/// step advances the start of the range by `w * h`.
proof fn lemma_slice_range_arith(z: int, w: int, h: int)
    ensures
        z * (w * h) == z * w * h,
        (z + 1) * w * h == z * w * h + w * h,
{
    assert(z * (w * h) == z * w * h) by (nonlinear_arith);
    assert((z + 1) * w * h == z * w * h + w * h) by (nonlinear_arith);
}

impl<'a> Volume3D<'a> {
    /// The backing samples.
    pub closed spec fn samples(self) -> Seq<i16> {
        self.data@
    }

    pub closed spec fn width(self) -> nat {
        self.nx as nat
    }

    pub closed spec fn height(self) -> nat {
        self.ny as nat
    }

    pub closed spec fn depth(self) -> nat {
        self.nz as nat
    }

    /// The buffer length matches the claimed dimensions.
    pub open spec fn wf(self) -> bool {
        self.samples().len() == self.width() * self.height() * self.depth()
    }

    /// Whether the sample range of the depth-slice `z` lies inside the
    /// buffer.
    pub open spec fn slice_in_bounds(self, z: int) -> bool {
        0 <= z < self.depth() && (z + 1) * self.width() * self.height()
            <= self.samples().len()
    }

    /// The samples of the depth-slice `z`.
    pub open spec fn slice_spec(self, z: int) -> Seq<i16>
        recommends
            self.slice_in_bounds(z),
    {
        self.samples().subrange(
            z * self.width() * self.height(),
            (z + 1) * self.width() * self.height(),
        )
    }

    /// A slice that is in bounds holds exactly `width * height` samples.
    pub proof fn lemma_slice_spec_len(self, z: int)
        requires
            self.slice_in_bounds(z),
        ensures
            self.slice_spec(z).len() == self.width() * self.height(),
    {
        let w = self.width() as int;
        let h = self.height() as int;
        lemma_slice_range_arith(z, w, h);
        assert(z * (w * h) >= 0) by (nonlinear_arith)
            requires
                0 <= z,
                0 <= w,
                0 <= h,
        ;
    }

    /// In a well-formed volume every slice index below `depth` is in
    /// bounds.
    pub proof fn lemma_wf_slice_in_bounds(self, z: int)
        requires
            self.wf(),
            0 <= z < self.depth(),
        ensures
            self.slice_in_bounds(z),
    {
        let w = self.width() as int;
        let h = self.height() as int;
        let d = self.depth() as int;
        assert((z + 1) * w * h <= w * h * d) by (nonlinear_arith)
            requires
                z + 1 <= d,
                0 <= w,
                0 <= h,
        ;
    }

    pub fn new(data: &'a [i16], nx: usize, ny: usize, nz: usize) -> (v: Volume3D<'a>)
        ensures
            v.samples() == data@,
            v.width() == nx,
            v.height() == ny,
            v.depth() == nz,
    {
        Volume3D { data, nx, ny, nz }
    }

    pub fn dimensions(&self) -> (r: (usize, usize, usize))
        ensures
            r.0 == self.width(),
            r.1 == self.height(),
            r.2 == self.depth(),
    {
        (self.nx, self.ny, self.nz)
    }

    /// Bounds-checked, zero-copy access to the depth-slice `z`: exactly the
    /// `width * height` consecutive samples starting at
    /// `z * width * height`. Fails with a bounds error when `z` is at or
    /// beyond `depth`, and also when the computed range runs past the end of
    /// the buffer (a defence against mis-reported dimensions).
    pub fn get_slice(&self, z: usize) -> (r: Result<&'a [i16], ExportError>)
        ensures
            r is Ok <==> self.slice_in_bounds(z as int),
            r matches Ok(s) ==> s@ == self.slice_spec(z as int),
            r matches Err(e) ==> e == ExportError::Bounds,
    {
        let buf_len = self.data.len();
        proof {
            lemma_slice_range_arith(z as int, self.width() as int, self.height() as int);
        }
        if z >= self.nz {
            return Err(ExportError::Bounds);
        }
        let slice_size = match self.nx.checked_mul(self.ny) {
            Some(s) => s,
            None => {
                proof {
                    lemma_range_exceeds_small_buffer(
                        z as int,
                        self.width() as int * self.height() as int,
                        buf_len as int,
                    );
                }
                return Err(ExportError::Bounds);
            },
        };
        let start = match z.checked_mul(slice_size) {
            Some(s) => s,
            None => {
                proof {
                    lemma_range_exceeds_small_buffer(
                        z as int,
                        self.width() as int * self.height() as int,
                        buf_len as int,
                    );
                }
                return Err(ExportError::Bounds);
            },
        };
        let end = match start.checked_add(slice_size) {
            Some(e) => e,
            None => {
                return Err(ExportError::Bounds);
            },
        };
        if end > buf_len {
            return Err(ExportError::Bounds);
        }
        Ok(slice_subrange(self.data, start, end))
    }
}

/// When `w * h` itself, or the start offset `z * (w * h)`, already exceeds
/// the buffer length, the whole slice range `(z + 1) * (w * h)` exceeds it
/// too.
proof fn lemma_range_exceeds_small_buffer(z: int, wh: int, len: int)
    requires
        0 <= z,
        0 <= wh,
        wh > len || z * wh > len,
    ensures
        (z + 1) * wh > len,
{
    assert((z + 1) * wh == z * wh + wh) by (nonlinear_arith);
    assert(z * wh >= 0) by (nonlinear_arith)
        requires
            0 <= z,
            0 <= wh,
    ;
}

} // verus!
