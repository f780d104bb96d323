//! Positions and sizes in logical, physical and screen coordinates, and the
//! conversions between logical and physical units at a given DPI.
use crate::DEFAULT_DPI;
use vstd::prelude::*;

verus! {

/// Logical coordinate.
#[derive(Clone, Copy, PartialEq, Eq, Debug)]
pub struct Logical;

/// Physical coordinate.
#[derive(Clone, Copy, PartialEq, Eq, Debug)]
pub struct Physical;

/// Screen coordinate.
#[derive(Clone, Copy, PartialEq, Eq, Debug)]
pub struct Screen;

/// A generic position.
#[derive(PartialEq, Debug)]
pub struct Position<T, U> {
    pub x: T,
    pub y: T,
    pub _u: core::marker::PhantomData<U>,
}

/// A generic size.
#[derive(PartialEq, Debug)]
pub struct Size<T, U> {
    pub width: T,
    pub height: T,
    pub _u: core::marker::PhantomData<U>,
}

impl<T: Copy, U> Clone for Position<T, U> {
    #[inline]
    fn clone(&self) -> (r: Self)
        ensures
            r == *self,
    {
        *self
    }
}

impl<T: Copy, U> Copy for Position<T, U> {

}

impl<T: Copy, U> Clone for Size<T, U> {
    #[inline]
    fn clone(&self) -> (r: Self)
        ensures
            r == *self,
    {
        *self
    }
}

impl<T: Copy, U> Copy for Size<T, U> {

}

impl<T, U> From<(T, T)> for Position<T, U> {
    #[inline]
    fn from(src: (T, T)) -> (r: Position<T, U>) {
        Position::new(src.0, src.1)
    }
}

impl<T, U> vstd::std_specs::convert::FromSpecImpl<(T, T)> for Position<T, U> {
    open spec fn obeys_from_spec() -> bool {
        true
    }

    open spec fn from_spec(src: (T, T)) -> Position<T, U> {
        Position { x: src.0, y: src.1, _u: core::marker::PhantomData }
    }
}

impl<T: Copy, U> From<[T; 2]> for Position<T, U> {
    #[inline]
    fn from(src: [T; 2]) -> (r: Position<T, U>) {
        Position::new(src[0], src[1])
    }
}

impl<T: Copy, U> vstd::std_specs::convert::FromSpecImpl<[T; 2]> for Position<T, U> {
    open spec fn obeys_from_spec() -> bool {
        true
    }

    open spec fn from_spec(src: [T; 2]) -> Position<T, U> {
        Position { x: src@[0], y: src@[1], _u: core::marker::PhantomData }
    }
}

impl<T, U> From<(T, T)> for Size<T, U> {
    #[inline]
    fn from(src: (T, T)) -> (r: Size<T, U>) {
        Size::new(src.0, src.1)
    }
}

impl<T, U> vstd::std_specs::convert::FromSpecImpl<(T, T)> for Size<T, U> {
    open spec fn obeys_from_spec() -> bool {
        true
    }

    open spec fn from_spec(src: (T, T)) -> Size<T, U> {
        Size { width: src.0, height: src.1, _u: core::marker::PhantomData }
    }
}

impl<T: Copy, U> From<[T; 2]> for Size<T, U> {
    #[inline]
    fn from(src: [T; 2]) -> (r: Size<T, U>) {
        Size::new(src[0], src[1])
    }
}

impl<T: Copy, U> vstd::std_specs::convert::FromSpecImpl<[T; 2]> for Size<T, U> {
    open spec fn obeys_from_spec() -> bool {
        true
    }

    open spec fn from_spec(src: [T; 2]) -> Size<T, U> {
        Size { width: src@[0], height: src@[1], _u: core::marker::PhantomData }
    }
}

/// A position in logical coordinate.
pub type LogicalPosition<T> = Position<T, Logical>;

/// A size in logical coordinate.
pub type LogicalSize<T> = Size<T, Logical>;

/// A position in physical coordinate.
pub type PhysicalPosition<T> = Position<T, Physical>;

/// A size in physical coordinate.
pub type PhysicalSize<T> = Size<T, Physical>;

/// A position in screen coordinate.
pub type ScreenPosition = Position<i32, Screen>;

/// The quotient of `n` by `d` rounded toward zero, which is what machine
/// division of integers computes.
pub open spec fn trunc_div(n: int, d: int) -> int {
    if n >= 0 {
        n / d
    } else {
        -((-n) / d)
    }
}

/// The Euclidean quotient of a natural number is no larger in magnitude than
/// the number itself.
pub(crate) proof fn lemma_quotient_bound(n: int, d: int)
    requires
        n >= 0,
        d != 0,
    ensures
        -n <= n / d <= n,
{
    if d > 0 {
        assert(0 <= n / d <= n) by (nonlinear_arith)
            requires
                n >= 0,
                d > 0,
        ;
    } else {
        assert(-n <= n / d <= 0) by (nonlinear_arith)
            requires
                n >= 0,
                d < 0,
        ;
    }
}

/// Dividing by a number below -1 cannot bring back the negated dividend.
pub(crate) proof fn lemma_quotient_strict(n: int, d: int)
    requires
        n > 0,
        d < -1,
    ensures
        -n < n / d,
{
    assert(-n < n / d) by (nonlinear_arith)
        requires
            n > 0,
            d < -1,
    ;
}

/// `a * num / den` with the product taken first and the quotient rounded
/// toward zero.
pub open spec fn scaled(a: int, num: int, den: int) -> int {
    trunc_div(a * num, den)
}

/// A signed coordinate can be scaled by `num / den` without leaving `i32`.
pub open spec fn scalable_i32(a: int, num: int, den: int) -> bool {
    &&& den != 0
    &&& i32::MIN <= a * num <= i32::MAX
    &&& !(a * num == i32::MIN && den == -1)
}

/// An unsigned extent can be scaled by `num / den` without leaving `u32`.
pub open spec fn scalable_u32(a: int, num: int, den: int) -> bool {
    &&& den != 0
    &&& a * num <= u32::MAX
}

/// A coordinate divides evenly into logical units at `dpi`, so that nothing
/// is lost on the way to logical units.
pub open spec fn converts_exactly(p: int, dpi: int) -> bool {
    (p * DEFAULT_DPI) % dpi == 0
}

proof fn lemma_negation_keeps_divisibility(n: int, d: int)
    requires
        d > 0,
    ensures
        (-n) % d == 0 <==> n % d == 0,
{
    vstd::arithmetic::div_mod::lemma_fundamental_div_mod(n, d);
    vstd::arithmetic::div_mod::lemma_fundamental_div_mod(-n, d);
    if n % d == 0 {
        let k = n / d;
        assert(-n == (-k) * d) by (nonlinear_arith)
            requires
                n == d * k,
        ;
        vstd::arithmetic::div_mod::lemma_mod_multiples_basic(-k, d);
    }
    if (-n) % d == 0 {
        let k = (-n) / d;
        assert(n == (-k) * d) by (nonlinear_arith)
            requires
                -n == d * k,
        ;
        vstd::arithmetic::div_mod::lemma_mod_multiples_basic(-k, d);
    }
}

proof fn lemma_round_trip_nat(p: int, dpi: int)
    requires
        p >= 0,
        dpi > 0,
    ensures
        0 <= scaled(scaled(p, 96, dpi), dpi, 96) <= p,
        scaled(scaled(p, 96, dpi), dpi, 96) == p <==> (p * 96) % dpi == 0,
        p - scaled(scaled(p, 96, dpi), dpi, 96) <= (dpi + 94) / 96,
{
    let n = p * 96;
    let l = n / dpi;
    let m = l * dpi;
    assert(l >= 0 && m >= 0 && m == n - n % dpi && 0 <= n % dpi < dpi) by (nonlinear_arith)
        requires
            n >= 0,
            dpi > 0,
            l == n / dpi,
            m == l * dpi,
    ;
    assert(scaled(p, 96, dpi) == l);
    assert(scaled(l, dpi, 96) == m / 96);
    assert(n / 96 == p);
}

/// Going from physical to logical units and back at a positive DPI gives the
/// coordinate again exactly when it divides evenly into logical units;
/// otherwise the result lies toward zero from it, off by at most the number of
/// physical units that one logical unit spans, rounded up.
pub proof fn lemma_round_trip_value(p: int, dpi: int)
    requires
        dpi > 0,
    ensures
        scaled(scaled(p, DEFAULT_DPI as int, dpi), dpi, DEFAULT_DPI as int) == p
            <==> converts_exactly(p, dpi),
        p >= 0 ==> 0 <= scaled(scaled(p, DEFAULT_DPI as int, dpi), dpi, DEFAULT_DPI as int) <= p,
        p <= 0 ==> p <= scaled(scaled(p, DEFAULT_DPI as int, dpi), dpi, DEFAULT_DPI as int) <= 0,
        p >= 0 ==> p - scaled(scaled(p, DEFAULT_DPI as int, dpi), dpi, DEFAULT_DPI as int) <= (dpi
            + 94) / 96,
        p <= 0 ==> scaled(scaled(p, DEFAULT_DPI as int, dpi), dpi, DEFAULT_DPI as int) - p <= (dpi
            + 94) / 96,
{
    if p >= 0 {
        lemma_round_trip_nat(p, dpi);
    } else {
        let q = -p;
        lemma_round_trip_nat(q, dpi);
        let n = q * 96;
        let l = n / dpi;
        assert(l >= 0 && l * dpi >= 0) by (nonlinear_arith)
            requires
                n >= 0,
                dpi > 0,
                l == n / dpi,
        ;
        assert(p * 96 == -n);
        assert(scaled(p, 96, dpi) == -l);
        assert((-l) * dpi == -(l * dpi)) by (nonlinear_arith);
        assert(scaled(-l, dpi, 96) == -scaled(l, dpi, 96));
        lemma_negation_keeps_divisibility(n, dpi);
    }
}

/// Tells whether `a * num / den` can be computed in `i32`.
pub fn can_scale_i32(a: i32, num: i32, den: i32) -> (ok: bool)
    ensures
        ok == scalable_i32(a as int, num as int, den as int),
{
    if den == 0 {
        return false;
    }
    match a.checked_mul(num) {
        Some(p) => !(p == i32::MIN && den == -1),
        None => false,
    }
}

/// Tells whether `a * num / den` can be computed in `u32`.
pub fn can_scale_u32(a: u32, num: u32, den: u32) -> (ok: bool)
    ensures
        ok == scalable_u32(a as int, num as int, den as int),
{
    if den == 0 {
        return false;
    }
    a.checked_mul(num).is_some()
}

fn scale_i32(a: i32, num: i32, den: i32) -> (r: i32)
    requires
        scalable_i32(a as int, num as int, den as int),
    ensures
        r == scaled(a as int, num as int, den as int),
{
    let p: i32 = a * num;
    proof {
        lemma_quotient_bound(if p >= 0 { p as int } else { -(p as int) }, den as int);
        if p < 0 && den < -1 {
            lemma_quotient_strict(-(p as int), den as int);
        }
    }
    p / den
}

fn scale_u32(a: u32, num: u32, den: u32) -> (r: u32)
    requires
        scalable_u32(a as int, num as int, den as int),
    ensures
        r == scaled(a as int, num as int, den as int),
{
    a * num / den
}

impl<T, U> Position<T, U> {
    #[inline]
    pub fn new(x: T, y: T) -> (r: Self)
        ensures
            r.x == x,
            r.y == y,
    {
        Self { x, y, _u: core::marker::PhantomData }
    }
}

impl<T, U> Size<T, U> {
    #[inline]
    pub fn new(width: T, height: T) -> (r: Self)
        ensures
            r.width == width,
            r.height == height,
    {
        Self { width, height, _u: core::marker::PhantomData }
    }
}

/// `num::cast` converts one machine scalar to another and gives `None` where
/// the value cannot be represented in the target type. Nothing is claimed of
/// what it gives for a value; a contract can only say that a value is what a
/// call of it gave.
pub assume_specification<T: num::NumCast, U: num::NumCast>[ num::cast::<T, U> ](n: T) -> Option<
    U,
>;

impl<T, U> Position<T, U> {
    /// The position with two coordinates that were converted one by one;
    /// none where either could not be converted.
    pub fn from_converted(x: Option<T>, y: Option<T>) -> (r: Option<Position<T, U>>)
        ensures
            r is Some <==> x is Some && y is Some,
            r matches Some(p) ==> Some(p.x) == x && Some(p.y) == y,
    {
        match x {
            Some(x) => match y {
                Some(y) => Some(Position::new(x, y)),
                None => None,
            },
            None => None,
        }
    }
}

impl<T, U> Size<T, U> {
    /// The size with two extents that were converted one by one; none where
    /// either could not be converted.
    pub fn from_converted(width: Option<T>, height: Option<T>) -> (r: Option<Size<T, U>>)
        ensures
            r is Some <==> width is Some && height is Some,
            r matches Some(s) ==> Some(s.width) == width && Some(s.height) == height,
    {
        match width {
            Some(width) => match height {
                Some(height) => Some(Size::new(width, height)),
                None => None,
            },
            None => None,
        }
    }
}

impl<T: num::NumCast, U> Position<T, U> {
    /// Converts both coordinates to another scalar type, each by one call of
    /// `num::cast`; `None` where one of them cannot be represented in it.
    #[inline]
    pub fn cast<R: num::NumCast>(self) -> (r: Option<Position<R, U>>)
        ensures
            exists|x: Option<R>, y: Option<R>|
                #![trigger
                    call_ensures(num::cast::<T, R>, (self.x,), x),
                    call_ensures(num::cast::<T, R>, (self.y,), y),
                ]
                {
                    &&& call_ensures(num::cast::<T, R>, (self.x,), x)
                    &&& call_ensures(num::cast::<T, R>, (self.y,), y)
                    &&& r is Some <==> x is Some && y is Some
                    &&& r is Some ==> Some(r.unwrap().x) == x && Some(r.unwrap().y) == y
                },
    {
        let x = num::cast::<T, R>(self.x);
        let y = num::cast::<T, R>(self.y);
        Position::from_converted(x, y)
    }
}

impl<T: num::NumCast, U> Size<T, U> {
    /// Converts both extents to another scalar type, each by one call of
    /// `num::cast`; `None` where one of them cannot be represented in it.
    #[inline]
    pub fn cast<R: num::NumCast>(self) -> (r: Option<Size<R, U>>)
        ensures
            exists|w: Option<R>, h: Option<R>|
                #![trigger
                    call_ensures(num::cast::<T, R>, (self.width,), w),
                    call_ensures(num::cast::<T, R>, (self.height,), h),
                ]
                {
                    &&& call_ensures(num::cast::<T, R>, (self.width,), w)
                    &&& call_ensures(num::cast::<T, R>, (self.height,), h)
                    &&& r is Some <==> w is Some && h is Some
                    &&& r is Some ==> Some(r.unwrap().width) == w && Some(r.unwrap().height)
                        == h
                },
    {
        let width = num::cast::<T, R>(self.width);
        let height = num::cast::<T, R>(self.height);
        Size::from_converted(width, height)
    }
}

impl Position<i32, Logical> {
    /// The position in physical units at `dpi`.
    pub open spec fn physical_at(self, dpi: int) -> Position<i32, Physical> {
        Position {
            x: scaled(self.x as int, dpi, DEFAULT_DPI as int) as i32,
            y: scaled(self.y as int, dpi, DEFAULT_DPI as int) as i32,
            _u: core::marker::PhantomData,
        }
    }

    /// Both coordinates can be scaled to physical units at `dpi`.
    pub open spec fn fits_physical(self, dpi: int) -> bool {
        &&& scalable_i32(self.x as int, dpi, DEFAULT_DPI as int)
        &&& scalable_i32(self.y as int, dpi, DEFAULT_DPI as int)
    }

    #[inline]
    pub fn to_physical(&self, dpi: i32) -> (r: Position<i32, Physical>)
        requires
            self.fits_physical(dpi as int),
        ensures
            r == self.physical_at(dpi as int),
            r.x == scaled(self.x as int, dpi as int, DEFAULT_DPI as int),
            r.y == scaled(self.y as int, dpi as int, DEFAULT_DPI as int),
    {
        Position::new(scale_i32(self.x, dpi, DEFAULT_DPI), scale_i32(self.y, dpi, DEFAULT_DPI))
    }
}

impl Position<i32, Physical> {
    /// The position in logical units at `dpi`.
    pub open spec fn logical_at(self, dpi: int) -> Position<i32, Logical> {
        Position {
            x: scaled(self.x as int, DEFAULT_DPI as int, dpi) as i32,
            y: scaled(self.y as int, DEFAULT_DPI as int, dpi) as i32,
            _u: core::marker::PhantomData,
        }
    }

    /// Both coordinates can be scaled to logical units at `dpi`.
    pub open spec fn fits_logical(self, dpi: int) -> bool {
        &&& scalable_i32(self.x as int, DEFAULT_DPI as int, dpi)
        &&& scalable_i32(self.y as int, DEFAULT_DPI as int, dpi)
    }

    #[inline]
    pub fn to_logical(&self, dpi: i32) -> (r: Position<i32, Logical>)
        requires
            self.fits_logical(dpi as int),
        ensures
            r == self.logical_at(dpi as int),
            r.x == scaled(self.x as int, DEFAULT_DPI as int, dpi as int),
            r.y == scaled(self.y as int, DEFAULT_DPI as int, dpi as int),
    {
        Position::new(scale_i32(self.x, DEFAULT_DPI, dpi), scale_i32(self.y, DEFAULT_DPI, dpi))
    }
}

impl Size<u32, Logical> {
    /// The size in physical units at `dpi`.
    pub open spec fn physical_at(self, dpi: int) -> Size<u32, Physical> {
        Size {
            width: scaled(self.width as int, dpi, DEFAULT_DPI as int) as u32,
            height: scaled(self.height as int, dpi, DEFAULT_DPI as int) as u32,
            _u: core::marker::PhantomData,
        }
    }

    /// Both extents can be scaled to physical units at `dpi`.
    pub open spec fn fits_physical(self, dpi: int) -> bool {
        &&& scalable_u32(self.width as int, dpi, DEFAULT_DPI as int)
        &&& scalable_u32(self.height as int, dpi, DEFAULT_DPI as int)
    }

    #[inline]
    pub fn to_physical(&self, dpi: u32) -> (r: Size<u32, Physical>)
        requires
            self.fits_physical(dpi as int),
        ensures
            r == self.physical_at(dpi as int),
            r.width == scaled(self.width as int, dpi as int, DEFAULT_DPI as int),
            r.height == scaled(self.height as int, dpi as int, DEFAULT_DPI as int),
    {
        Size::new(scale_u32(self.width, dpi, 96), scale_u32(self.height, dpi, 96))
    }
}

impl Size<u32, Physical> {
    /// The size in logical units at `dpi`.
    pub open spec fn logical_at(self, dpi: int) -> Size<u32, Logical> {
        Size {
            width: scaled(self.width as int, DEFAULT_DPI as int, dpi) as u32,
            height: scaled(self.height as int, DEFAULT_DPI as int, dpi) as u32,
            _u: core::marker::PhantomData,
        }
    }

    /// Both extents can be scaled to logical units at `dpi`.
    pub open spec fn fits_logical(self, dpi: int) -> bool {
        &&& scalable_u32(self.width as int, DEFAULT_DPI as int, dpi)
        &&& scalable_u32(self.height as int, DEFAULT_DPI as int, dpi)
    }

    #[inline]
    pub fn to_logical(&self, dpi: u32) -> (r: Size<u32, Logical>)
        requires
            self.fits_logical(dpi as int),
        ensures
            r == self.logical_at(dpi as int),
            r.width == scaled(self.width as int, DEFAULT_DPI as int, dpi as int),
            r.height == scaled(self.height as int, DEFAULT_DPI as int, dpi as int),
    {
        Size::new(scale_u32(self.width, 96, dpi), scale_u32(self.height, 96, dpi))
    }
}

proof fn lemma_logical_fits(a: int, dpi: int)
    requires
        dpi > 0,
        scalable_i32(a, DEFAULT_DPI as int, dpi),
    ensures
        i32::MIN <= scaled(a, DEFAULT_DPI as int, dpi) <= i32::MAX,
        scalable_i32(scaled(a, DEFAULT_DPI as int, dpi), dpi, DEFAULT_DPI as int),
{
    let n = a * 96;
    let m = if n >= 0 {
        n
    } else {
        -n
    };
    let l = m / dpi;
    assert(0 <= l <= m && 0 <= l * dpi <= m) by (nonlinear_arith)
        requires
            m >= 0,
            dpi > 0,
            l == m / dpi,
    ;
    assert((-l) * dpi == -(l * dpi)) by (nonlinear_arith);
}

/// Converting a physical position to logical units and back, at a positive
/// DPI at which the first conversion is defined, is defined too, and gives
/// the position again exactly when both coordinates divide evenly into logical
/// units. Otherwise each coordinate comes back between zero and its old value.
pub proof fn lemma_position_round_trip(p: Position<i32, Physical>, dpi: i32)
    requires
        dpi > 0,
        p.fits_logical(dpi as int),
    ensures
        p.logical_at(dpi as int).fits_physical(dpi as int),
        p.logical_at(dpi as int).physical_at(dpi as int) == p <==> converts_exactly(
            p.x as int,
            dpi as int,
        ) && converts_exactly(p.y as int, dpi as int),
        p.x >= 0 ==> 0 <= p.logical_at(dpi as int).physical_at(dpi as int).x <= p.x,
        p.x <= 0 ==> p.x <= p.logical_at(dpi as int).physical_at(dpi as int).x <= 0,
        p.y >= 0 ==> 0 <= p.logical_at(dpi as int).physical_at(dpi as int).y <= p.y,
        p.y <= 0 ==> p.y <= p.logical_at(dpi as int).physical_at(dpi as int).y <= 0,
{
    lemma_logical_fits(p.x as int, dpi as int);
    lemma_logical_fits(p.y as int, dpi as int);
    lemma_round_trip_value(p.x as int, dpi as int);
    lemma_round_trip_value(p.y as int, dpi as int);
}

/// Converting a physical size to logical units and back, at a DPI at which
/// the first conversion is defined, is defined too, and gives the size again
/// exactly when both extents divide evenly into logical units. Otherwise each
/// extent comes back no larger than it was.
pub proof fn lemma_size_round_trip(s: Size<u32, Physical>, dpi: u32)
    requires
        dpi > 0,
        s.fits_logical(dpi as int),
    ensures
        s.logical_at(dpi as int).fits_physical(dpi as int),
        s.logical_at(dpi as int).physical_at(dpi as int) == s <==> converts_exactly(
            s.width as int,
            dpi as int,
        ) && converts_exactly(s.height as int, dpi as int),
        s.logical_at(dpi as int).physical_at(dpi as int).width <= s.width,
        s.logical_at(dpi as int).physical_at(dpi as int).height <= s.height,
{
    lemma_round_trip_nat(s.width as int, dpi as int);
    lemma_round_trip_nat(s.height as int, dpi as int);
    let nw = s.width * 96;
    let nh = s.height * 96;
    let lw = nw / (dpi as int);
    let lh = nh / (dpi as int);
    assert(0 <= lw <= nw && 0 <= lw * dpi <= nw) by (nonlinear_arith)
        requires
            nw >= 0,
            dpi > 0,
            lw == nw / (dpi as int),
    ;
    assert(0 <= lh <= nh && 0 <= lh * dpi <= nh) by (nonlinear_arith)
        requires
            nh >= 0,
            dpi > 0,
            lh == nh / (dpi as int),
    ;
}

/// Converts to a logical position.
pub trait ToLogicalPosition<T> {
    /// The inputs on which the conversion is defined.
    spec fn to_logical_req(&self, dpi: T) -> bool;

    /// What the conversion returns.
    spec fn to_logical_spec(&self, dpi: T) -> Position<T, Logical>;

    fn to_logical(&self, dpi: T) -> (r: Position<T, Logical>)
        requires
            self.to_logical_req(dpi),
        ensures
            r == self.to_logical_spec(dpi),
    ;
}

impl<T: Copy> ToLogicalPosition<T> for Position<T, Logical> {
    open spec fn to_logical_req(&self, dpi: T) -> bool {
        true
    }

    open spec fn to_logical_spec(&self, dpi: T) -> Position<T, Logical> {
        *self
    }

    #[inline]
    fn to_logical(&self, dpi: T) -> (r: Position<T, Logical>) {
        *self
    }
}

impl ToLogicalPosition<i32> for Position<i32, Physical> {
    open spec fn to_logical_req(&self, dpi: i32) -> bool {
        self.fits_logical(dpi as int)
    }

    open spec fn to_logical_spec(&self, dpi: i32) -> Position<i32, Logical> {
        self.logical_at(dpi as int)
    }

    #[inline]
    fn to_logical(&self, dpi: i32) -> (r: Position<i32, Logical>) {
        Position::<i32, Physical>::to_logical(self, dpi)
    }
}

/// Converts to a logical size.
pub trait ToLogicalSize<T> {
    /// The inputs on which the conversion is defined.
    spec fn to_logical_req(&self, dpi: T) -> bool;

    /// What the conversion returns.
    spec fn to_logical_spec(&self, dpi: T) -> Size<T, Logical>;

    fn to_logical(&self, dpi: T) -> (r: Size<T, Logical>)
        requires
            self.to_logical_req(dpi),
        ensures
            r == self.to_logical_spec(dpi),
    ;
}

impl<T: Copy> ToLogicalSize<T> for Size<T, Logical> {
    open spec fn to_logical_req(&self, dpi: T) -> bool {
        true
    }

    open spec fn to_logical_spec(&self, dpi: T) -> Size<T, Logical> {
        *self
    }

    #[inline]
    fn to_logical(&self, dpi: T) -> (r: Size<T, Logical>) {
        *self
    }
}

impl ToLogicalSize<u32> for Size<u32, Physical> {
    open spec fn to_logical_req(&self, dpi: u32) -> bool {
        self.fits_logical(dpi as int)
    }

    open spec fn to_logical_spec(&self, dpi: u32) -> Size<u32, Logical> {
        self.logical_at(dpi as int)
    }

    #[inline]
    fn to_logical(&self, dpi: u32) -> (r: Size<u32, Logical>) {
        Size::<u32, Physical>::to_logical(self, dpi)
    }
}

/// Converts to a physical position.
pub trait ToPhysicalPosition<T> {
    /// The inputs on which the conversion is defined.
    spec fn to_physical_req(&self, dpi: T) -> bool;

    /// What the conversion returns.
    spec fn to_physical_spec(&self, dpi: T) -> Position<T, Physical>;

    fn to_physical(&self, dpi: T) -> (r: Position<T, Physical>)
        requires
            self.to_physical_req(dpi),
        ensures
            r == self.to_physical_spec(dpi),
    ;
}

impl ToPhysicalPosition<i32> for Position<i32, Logical> {
    open spec fn to_physical_req(&self, dpi: i32) -> bool {
        self.fits_physical(dpi as int)
    }

    open spec fn to_physical_spec(&self, dpi: i32) -> Position<i32, Physical> {
        self.physical_at(dpi as int)
    }

    #[inline]
    fn to_physical(&self, dpi: i32) -> (r: Position<i32, Physical>) {
        Position::<i32, Logical>::to_physical(self, dpi)
    }
}

impl<T: Copy> ToPhysicalPosition<T> for Position<T, Physical> {
    open spec fn to_physical_req(&self, dpi: T) -> bool {
        true
    }

    open spec fn to_physical_spec(&self, dpi: T) -> Position<T, Physical> {
        *self
    }

    #[inline]
    fn to_physical(&self, dpi: T) -> (r: Position<T, Physical>) {
        *self
    }
}

/// Converts to a physical size.
pub trait ToPhysicalSize<T> {
    /// The inputs on which the conversion is defined.
    spec fn to_physical_req(&self, dpi: T) -> bool;

    /// What the conversion returns.
    spec fn to_physical_spec(&self, dpi: T) -> Size<T, Physical>;

    fn to_physical(&self, dpi: T) -> (r: Size<T, Physical>)
        requires
            self.to_physical_req(dpi),
        ensures
            r == self.to_physical_spec(dpi),
    ;
}

impl ToPhysicalSize<u32> for Size<u32, Logical> {
    open spec fn to_physical_req(&self, dpi: u32) -> bool {
        self.fits_physical(dpi as int)
    }

    open spec fn to_physical_spec(&self, dpi: u32) -> Size<u32, Physical> {
        self.physical_at(dpi as int)
    }

    #[inline]
    fn to_physical(&self, dpi: u32) -> (r: Size<u32, Physical>) {
        Size::<u32, Logical>::to_physical(self, dpi)
    }
}

impl<T: Copy> ToPhysicalSize<T> for Size<T, Physical> {
    open spec fn to_physical_req(&self, dpi: T) -> bool {
        true
    }

    open spec fn to_physical_spec(&self, dpi: T) -> Size<T, Physical> {
        *self
    }

    #[inline]
    fn to_physical(&self, dpi: T) -> (r: Size<T, Physical>) {
        *self
    }
}

} // verus!
