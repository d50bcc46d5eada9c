//! The interpolant of the pipeline: a cubic Hermite spline over
//! log-energy with quadratic end conditions, fitted by peroxide, together
//! with its binary cache. Two knots are the degenerate case in which the
//! quadratic end conditions collapse the interpolant to the straight line
//! through the knots; that case is computed here, in verified code. The
//! cache stores the knot bit patterns through bincode; loading refits,
//! which reproduces the interpolant exactly because the fit is a
//! deterministic function of the knots.

use vstd::prelude::*;
use peroxide::numerical::spline::CubicHermiteSpline;
use crate::Error;
use crate::fp::{
    fp_sum, fp_diff, fp_quot, fp_prod, fp_lt_cmp,
    f_add, f_sub, f_div, f_mul, f_lt,
};

verus! {

#[verifier::external_type_specification]
#[verifier::external_body]
pub struct ExCubicHermiteSpline(CubicHermiteSpline);

#[verifier::external_type_specification]
#[verifier::external_body]
pub struct ExPolynomial(peroxide::structure::polynomial::Polynomial);

#[verifier::external_type_specification]
#[verifier::external_body]
pub struct ExBincodeErrorKind(bincode::ErrorKind);

/// The knots a fitted peroxide spline was built over, as pairs of
/// abscissa and ordinate bit patterns.
pub uninterp spec fn spline_knots(cs: CubicHermiteSpline) -> Seq<(u64, u64)>;

/// Whether a peroxide spline was fitted with the quadratic slope method.
pub uninterp spec fn spline_quad(cs: CubicHermiteSpline) -> bool;

/// The value of the quadratic-slope cubic Hermite spline through the
/// given knots at the query abscissa, all as bit patterns.
pub uninterp spec fn quad_hermite_at(knots: Seq<(u64, u64)>, x: u64) -> u64;

/// The bytes bincode writes for the pair of knot coordinate vectors.
pub uninterp spec fn knots_bytes(xs: Seq<u64>, ys: Seq<u64>) -> Seq<u8>;

/// The knot pairs made of two coordinate sequences of equal length.
pub open spec fn knot_zip(xs: Seq<u64>, ys: Seq<u64>) -> Seq<(u64, u64)> {
    Seq::new(xs.len(), |i: int| (xs[i], ys[i]))
}

/// Whether the abscissae are strictly increasing as doubles; false as
/// soon as a NaN takes part in a comparison.
pub open spec fn strictly_increasing(xs: Seq<u64>) -> bool {
    forall|i: int| 0 <= i < xs.len() - 1 ==> #[trigger] fp_lt_cmp(xs[i], xs[i + 1])
}

/// Relies on peroxide's `cubic_hermite_spline` with the quadratic slope
/// method, which fails only on fewer than three knots or on coordinate
/// vectors of different lengths.
#[verifier::external_body]
fn fit_curve(x: &Vec<u64>, y: &Vec<u64>) -> (cs: CubicHermiteSpline)
    requires
        x@.len() == y@.len(),
        x@.len() >= 3,
    ensures
        spline_quad(cs),
        spline_knots(cs) == knot_zip(x@, y@),
{
    peroxide::numerical::spline::cubic_hermite_spline(
        bytemuck::cast_slice(x.as_slice()),
        bytemuck::cast_slice(y.as_slice()),
        peroxide::numerical::spline::SlopeMethod::Quadratic,
    ).unwrap()
}

/// Relies on peroxide's `Spline::eval`: the piecewise polynomial of the
/// segment found by binary search, extended beyond the end knots.
#[verifier::external_body]
fn eval_curve(cs: &CubicHermiteSpline, x: u64) -> (r: u64)
    requires
        spline_knots(*cs).len() >= 3,
    ensures
        spline_quad(*cs) ==> r == quad_hermite_at(spline_knots(*cs), x),
{
    bytemuck::cast(peroxide::numerical::spline::Spline::eval(cs, bytemuck::cast(x)))
}

/// Relies on `bincode::serialize` of a pair of `u64` vectors, which is
/// deterministic and cannot fail for this type.
#[verifier::external_body]
fn encode_knots(x: &Vec<u64>, y: &Vec<u64>) -> (r: Vec<u8>)
    ensures
        r@ == knots_bytes(x@, y@),
{
    bincode::serialize(&(x, y)).unwrap()
}

/// Relies on `bincode::deserialize` of a pair of `u64` vectors, which
/// returns exactly the pair whose serialization the bytes are.
#[verifier::external_body]
fn decode_knots(b: &Vec<u8>) -> (r: Result<(Vec<u64>, Vec<u64>), Box<bincode::ErrorKind>>)
    ensures
        forall|xs: Seq<u64>, ys: Seq<u64>|
            b@ == #[trigger] knots_bytes(xs, ys) ==> r is Ok && r->Ok_0.0@ == xs
                && r->Ok_0.1@ == ys,
{
    bincode::deserialize::<(Vec<u64>, Vec<u64>)>(b.as_slice())
}

enum Interp {
    Line,
    Curve(CubicHermiteSpline),
}

/// A fitted interpolant over strictly increasing abscissae: the straight
/// line through two knots, or a peroxide quadratic-slope cubic Hermite
/// spline through three or more.
pub struct FittedSpline {
    xs: Vec<u64>,
    ys: Vec<u64>,
    interp: Interp,
}

/// The straight line through `(x0, y0)` and `(x1, y1)` at `q`:
/// `y0 + (y1 - y0) / (x1 - x0) * (q - x0)`.
pub open spec fn line_at(x0: u64, y0: u64, x1: u64, y1: u64, q: u64) -> u64 {
    fp_sum(y0, fp_prod(fp_quot(fp_diff(y1, y0), fp_diff(x1, x0)), fp_diff(q, x0)))
}

/// The value of the fitted interpolant through the given knots at `q`.
pub open spec fn spline_value_spec(xs: Seq<u64>, ys: Seq<u64>, q: u64) -> u64 {
    if xs.len() == 2 {
        line_at(xs[0], ys[0], xs[1], ys[1], q)
    } else {
        quad_hermite_at(knot_zip(xs, ys), q)
    }
}

impl FittedSpline {
    /// The knot abscissae: base-10 logarithms of the tabulated energies.
    pub closed spec fn abscissae(self) -> Seq<u64> {
        self.xs@
    }

    /// The knot ordinates: the summed linear stopping powers.
    pub closed spec fn ordinates(self) -> Seq<u64> {
        self.ys@
    }

    /// Well-formedness: equally many coordinates, at least two knots in
    /// strictly increasing abscissa order, and an interpolant that
    /// matches the knots.
    pub closed spec fn wf(self) -> bool {
        &&& self.xs@.len() == self.ys@.len()
        &&& self.xs@.len() >= 2
        &&& strictly_increasing(self.xs@)
        &&& match self.interp {
            Interp::Line => self.xs@.len() == 2,
            Interp::Curve(cs) => self.xs@.len() >= 3 && spline_quad(cs) && spline_knots(cs)
                == knot_zip(self.xs@, self.ys@),
        }
    }

    /// The interpolant's value at the abscissa `q`.
    pub fn value_at(&self, q: u64) -> (r: u64)
        requires
            self.wf(),
        ensures
            r == spline_value_spec(self.abscissae(), self.ordinates(), q),
    {
        match &self.interp {
            Interp::Line => {
                let slope = f_div(f_sub(self.ys[1], self.ys[0]), f_sub(self.xs[1], self.xs[0]));
                f_add(self.ys[0], f_mul(slope, f_sub(q, self.xs[0])))
            },
            Interp::Curve(cs) => eval_curve(cs, q),
        }
    }

    /// The binary cache image of the interpolant: the knot coordinates,
    /// bit exactly; the slopes are a deterministic function of them and
    /// are rebuilt on load.
    pub fn to_cache_bytes(&self) -> (r: Vec<u8>)
        ensures
            r@ == knots_bytes(self.abscissae(), self.ordinates()),
    {
        encode_knots(&self.xs, &self.ys)
    }
}

/// Fits the interpolant over the given knots. Succeeds exactly on two or
/// more knots in strictly increasing abscissa order; otherwise the fit is
/// a domain error naming the first offending knot.
pub fn fit_spline(x: &Vec<u64>, y: &Vec<u64>) -> (r: Result<FittedSpline, Error>)
    requires
        x@.len() == y@.len(),
    ensures
        r is Ok <==> (x@.len() >= 2 && strictly_increasing(x@)),
        r is Ok ==> r->Ok_0.wf() && r->Ok_0.abscissae() == x@ && r->Ok_0.ordinates() == y@,
        r is Err ==> r->Err_0 is DomainError,
        r is Err && x@.len() < 2 ==> r->Err_0 == (Error::DomainError { index: 0 }),
        r is Err && x@.len() >= 2 ==> (r->Err_0 matches Error::DomainError { index }
            && 0 <= index < x@.len() - 1 && !fp_lt_cmp(x@[index as int], x@[index + 1])),
{
    let n = x.len();
    if n < 2 {
        return Err(Error::DomainError { index: 0 });
    }
    let mut i: usize = 0;
    while i + 1 < n
        invariant
            n == x@.len() >= 2,
            x@.len() == y@.len(),
            i < n,
            forall|j: int| 0 <= j < i ==> #[trigger] fp_lt_cmp(x@[j], x@[j + 1]),
        decreases n - i,
    {
        if !f_lt(x[i], x[i + 1]) {
            return Err(Error::DomainError { index: i });
        }
        i = i + 1;
    }
    if n == 2 {
        Ok(FittedSpline { xs: x.clone(), ys: y.clone(), interp: Interp::Line })
    } else {
        let cs = fit_curve(x, y);
        Ok(FittedSpline { xs: x.clone(), ys: y.clone(), interp: Interp::Curve(cs) })
    }
}

/// Rebuilds the interpolant from its binary cache image. Bytes that are
/// not the cache image of a well-formed interpolant are a corrupt cache.
pub fn from_cache_bytes(b: &Vec<u8>) -> (r: Result<FittedSpline, Error>)
    ensures
        forall|xs: Seq<u64>, ys: Seq<u64>|
            (b@ == #[trigger] knots_bytes(xs, ys) && xs.len() == ys.len() && xs.len() >= 2
                && strictly_increasing(xs)) ==> r is Ok && r->Ok_0.wf()
                && r->Ok_0.abscissae() == xs && r->Ok_0.ordinates() == ys,
        r is Ok ==> r->Ok_0.wf(),
        r is Err ==> r->Err_0 is CacheCorrupt,
{
    match decode_knots(b) {
        Err(_) => Err(Error::CacheCorrupt),
        Ok((px, py)) => {
            if px.len() != py.len() {
                return Err(Error::CacheCorrupt);
            }
            match fit_spline(&px, &py) {
                Ok(s) => Ok(s),
                Err(_) => Err(Error::CacheCorrupt),
            }
        },
    }
}

} // verus!
