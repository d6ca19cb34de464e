//! Fixed-arity vectors over a caller-chosen element type, with
//! component-wise arithmetic.
//!
//! The element type brings its own arithmetic. What an operator needs of its
//! operands and what it returns are the element type's `*_req` and `*_spec`
//! functions, applied to each component; the result is pinned down for every
//! element type that obeys its operator specification, as the primitive
//! integers do.

use std::fmt::Display;
use std::ops::{Add, Div, Mul, Sub};
use vstd::prelude::*;
use vstd::std_specs::ops::{
    AddSpec, AddSpecImpl, DivSpec, DivSpecImpl, MulSpec, MulSpecImpl, SubSpec, SubSpecImpl,
};
use vstd::string::{to_string_from_display_ensures, StringExecFns};

verus! {

/// A vector of two components.
#[derive(Clone, Copy, Debug, PartialEq, Eq)]
pub struct Vector2<T> {
    pub x: T,
    pub y: T,
}

impl<T> Vector2<T> {
    /// The vector with the given components.
    pub fn new(x: T, y: T) -> (made: Self)
        ensures
            made == (Vector2 { x, y }),
    {
        Self { x, y }
    }

    /// Every component multiplied by `scalar`, the component on the left.
    pub fn scale(self, scalar: T) -> (scaled: Self) where T: Mul<T, Output = T> + Copy
        requires
            self.x.mul_req(scalar),
            self.y.mul_req(scalar),
        ensures
            T::obeys_mul_spec() ==> scaled == (Vector2 {
                x: self.x.mul_spec(scalar),
                y: self.y.mul_spec(scalar),
            }),
    {
        Self { x: self.x * scalar, y: self.y * scalar }
    }

    /// Whether `text` renders this vector: the frame `[x: .., y: ..]`
    /// around a rendering of each component by its `Display`.
    pub open spec fn is_rendered_as(&self, text: Seq<char>) -> bool where T: Display {
        exists|x: String, y: String|
            #[trigger] to_string_from_display_ensures::<T>(&self.x, x)
                && #[trigger] to_string_from_display_ensures::<T>(&self.y, y)
                && text == rendered2(x@, y@)
    }

    /// The text `[x: .., y: ..]`, each component rendered by its `Display`.
    pub fn to_string(&self) -> (text: String) where T: Display
        ensures
            self.is_rendered_as(text@),
    {
        let x: String = self.x.to_string();
        let y: String = self.y.to_string();
        render2(x.as_str(), y.as_str())
    }
}

/// The text of a vector of two components whose renderings are given.
pub open spec fn rendered2(x: Seq<char>, y: Seq<char>) -> Seq<char> {
    "[x: "@ + x + ", y: "@ + y + "]"@
}

/// Frames the renderings of two components as `[x: .., y: ..]`.
pub fn render2(x: &str, y: &str) -> (text: String)
    ensures
        text@ == rendered2(x@, y@),
{
    let mut text: String = String::from_str("[x: ");
    text.append(x);
    text.append(", y: ");
    text.append(y);
    text.append("]");
    text
}

/// What `+` means on two vectors of two components: the element
/// operator on each pair of components.
impl<T, U> AddSpecImpl<Vector2<U>> for Vector2<T> where T: Add<U, Output = T> {
    open spec fn obeys_add_spec() -> bool {
        T::obeys_add_spec()
    }

    open spec fn add_req(self, rhs: Vector2<U>) -> bool {
        self.x.add_req(rhs.x)
            && self.y.add_req(rhs.y)
    }

    open spec fn add_spec(self, rhs: Vector2<U>) -> Vector2<T> {
        Vector2 { x: self.x.add_spec(rhs.x), y: self.y.add_spec(rhs.y) }
    }
}

impl<T, U> Add<Vector2<U>> for Vector2<T> where T: Add<U, Output = T> {
    type Output = Vector2<T>;

    /// Adds component by component. The element types may differ; the result
    /// has the element type of the left operand.
    fn add(self, rhs: Vector2<U>) -> (sum: Vector2<T>) {
        Self { x: self.x + rhs.x, y: self.y + rhs.y }
    }
}

/// What `-` means on two vectors of two components: the element
/// operator on each pair of components.
impl<T, U> SubSpecImpl<Vector2<U>> for Vector2<T> where T: Sub<U, Output = T> {
    open spec fn obeys_sub_spec() -> bool {
        T::obeys_sub_spec()
    }

    open spec fn sub_req(self, rhs: Vector2<U>) -> bool {
        self.x.sub_req(rhs.x)
            && self.y.sub_req(rhs.y)
    }

    open spec fn sub_spec(self, rhs: Vector2<U>) -> Vector2<T> {
        Vector2 { x: self.x.sub_spec(rhs.x), y: self.y.sub_spec(rhs.y) }
    }
}

impl<T, U> Sub<Vector2<U>> for Vector2<T> where T: Sub<U, Output = T> {
    type Output = Vector2<T>;

    /// Subtracts component by component. The element types may differ; the result
    /// has the element type of the left operand.
    fn sub(self, rhs: Vector2<U>) -> (difference: Vector2<T>) {
        Self { x: self.x - rhs.x, y: self.y - rhs.y }
    }
}

/// What `*` means on two vectors of two components: the element
/// operator on each pair of components.
impl<T, U> MulSpecImpl<Vector2<U>> for Vector2<T> where T: Mul<U, Output = T> {
    open spec fn obeys_mul_spec() -> bool {
        T::obeys_mul_spec()
    }

    open spec fn mul_req(self, rhs: Vector2<U>) -> bool {
        self.x.mul_req(rhs.x)
            && self.y.mul_req(rhs.y)
    }

    open spec fn mul_spec(self, rhs: Vector2<U>) -> Vector2<T> {
        Vector2 { x: self.x.mul_spec(rhs.x), y: self.y.mul_spec(rhs.y) }
    }
}

impl<T, U> Mul<Vector2<U>> for Vector2<T> where T: Mul<U, Output = T> {
    type Output = Vector2<T>;

    /// Multiplies component by component. The element types may differ; the result
    /// has the element type of the left operand.
    fn mul(self, rhs: Vector2<U>) -> (product: Vector2<T>) {
        Self { x: self.x * rhs.x, y: self.y * rhs.y }
    }
}

/// What `/` means on two vectors of two components: the element
/// operator on each pair of components.
impl<T, U> DivSpecImpl<Vector2<U>> for Vector2<T> where T: Div<U, Output = T> {
    open spec fn obeys_div_spec() -> bool {
        T::obeys_div_spec()
    }

    open spec fn div_req(self, rhs: Vector2<U>) -> bool {
        self.x.div_req(rhs.x)
            && self.y.div_req(rhs.y)
    }

    open spec fn div_spec(self, rhs: Vector2<U>) -> Vector2<T> {
        Vector2 { x: self.x.div_spec(rhs.x), y: self.y.div_spec(rhs.y) }
    }
}

impl<T, U> Div<Vector2<U>> for Vector2<T> where T: Div<U, Output = T> {
    type Output = Vector2<T>;

    /// Divides component by component. The element types may differ; the result
    /// has the element type of the left operand.
    fn div(self, rhs: Vector2<U>) -> (quotient: Vector2<T>) {
        Self { x: self.x / rhs.x, y: self.y / rhs.y }
    }
}

/// A vector of three components.
#[derive(Clone, Copy, Debug, PartialEq, Eq)]
pub struct Vector3<T> {
    pub x: T,
    pub y: T,
    pub z: T,
}

impl<T> Vector3<T> {
    /// The vector with the given components.
    pub fn new(x: T, y: T, z: T) -> (made: Self)
        ensures
            made == (Vector3 { x, y, z }),
    {
        Self { x, y, z }
    }

    /// Every component multiplied by `scalar`, the component on the left.
    pub fn scale(self, scalar: T) -> (scaled: Self) where T: Mul<T, Output = T> + Copy
        requires
            self.x.mul_req(scalar),
            self.y.mul_req(scalar),
            self.z.mul_req(scalar),
        ensures
            T::obeys_mul_spec() ==> scaled == (Vector3 {
                x: self.x.mul_spec(scalar),
                y: self.y.mul_spec(scalar),
                z: self.z.mul_spec(scalar),
            }),
    {
        Self { x: self.x * scalar, y: self.y * scalar, z: self.z * scalar }
    }

    /// Whether `text` renders this vector: the frame `[x: .., y: .., z: ..]`
    /// around a rendering of each component by its `Display`.
    pub open spec fn is_rendered_as(&self, text: Seq<char>) -> bool where T: Display {
        exists|x: String, y: String, z: String|
            #[trigger] to_string_from_display_ensures::<T>(&self.x, x)
                && #[trigger] to_string_from_display_ensures::<T>(&self.y, y)
                && #[trigger] to_string_from_display_ensures::<T>(&self.z, z)
                && text == rendered3(x@, y@, z@)
    }

    /// The text `[x: .., y: .., z: ..]`, each component rendered by its `Display`.
    pub fn to_string(&self) -> (text: String) where T: Display
        ensures
            self.is_rendered_as(text@),
    {
        let x: String = self.x.to_string();
        let y: String = self.y.to_string();
        let z: String = self.z.to_string();
        render3(x.as_str(), y.as_str(), z.as_str())
    }
}

/// The text of a vector of three components whose renderings are given.
pub open spec fn rendered3(x: Seq<char>, y: Seq<char>, z: Seq<char>) -> Seq<char> {
    "[x: "@ + x + ", y: "@ + y + ", z: "@ + z + "]"@
}

/// Frames the renderings of three components as `[x: .., y: .., z: ..]`.
pub fn render3(x: &str, y: &str, z: &str) -> (text: String)
    ensures
        text@ == rendered3(x@, y@, z@),
{
    let mut text: String = String::from_str("[x: ");
    text.append(x);
    text.append(", y: ");
    text.append(y);
    text.append(", z: ");
    text.append(z);
    text.append("]");
    text
}

/// What `+` means on two vectors of three components: the element
/// operator on each pair of components.
impl<T, U> AddSpecImpl<Vector3<U>> for Vector3<T> where T: Add<U, Output = T> {
    open spec fn obeys_add_spec() -> bool {
        T::obeys_add_spec()
    }

    open spec fn add_req(self, rhs: Vector3<U>) -> bool {
        self.x.add_req(rhs.x)
            && self.y.add_req(rhs.y)
            && self.z.add_req(rhs.z)
    }

    open spec fn add_spec(self, rhs: Vector3<U>) -> Vector3<T> {
        Vector3 { x: self.x.add_spec(rhs.x), y: self.y.add_spec(rhs.y), z: self.z.add_spec(rhs.z) }
    }
}

impl<T, U> Add<Vector3<U>> for Vector3<T> where T: Add<U, Output = T> {
    type Output = Vector3<T>;

    /// Adds component by component. The element types may differ; the result
    /// has the element type of the left operand.
    fn add(self, rhs: Vector3<U>) -> (sum: Vector3<T>) {
        Self { x: self.x + rhs.x, y: self.y + rhs.y, z: self.z + rhs.z }
    }
}

/// What `-` means on two vectors of three components: the element
/// operator on each pair of components.
impl<T, U> SubSpecImpl<Vector3<U>> for Vector3<T> where T: Sub<U, Output = T> {
    open spec fn obeys_sub_spec() -> bool {
        T::obeys_sub_spec()
    }

    open spec fn sub_req(self, rhs: Vector3<U>) -> bool {
        self.x.sub_req(rhs.x)
            && self.y.sub_req(rhs.y)
            && self.z.sub_req(rhs.z)
    }

    open spec fn sub_spec(self, rhs: Vector3<U>) -> Vector3<T> {
        Vector3 { x: self.x.sub_spec(rhs.x), y: self.y.sub_spec(rhs.y), z: self.z.sub_spec(rhs.z) }
    }
}

impl<T, U> Sub<Vector3<U>> for Vector3<T> where T: Sub<U, Output = T> {
    type Output = Vector3<T>;

    /// Subtracts component by component. The element types may differ; the result
    /// has the element type of the left operand.
    fn sub(self, rhs: Vector3<U>) -> (difference: Vector3<T>) {
        Self { x: self.x - rhs.x, y: self.y - rhs.y, z: self.z - rhs.z }
    }
}

/// What `*` means on two vectors of three components: the element
/// operator on each pair of components.
impl<T, U> MulSpecImpl<Vector3<U>> for Vector3<T> where T: Mul<U, Output = T> {
    open spec fn obeys_mul_spec() -> bool {
        T::obeys_mul_spec()
    }

    open spec fn mul_req(self, rhs: Vector3<U>) -> bool {
        self.x.mul_req(rhs.x)
            && self.y.mul_req(rhs.y)
            && self.z.mul_req(rhs.z)
    }

    open spec fn mul_spec(self, rhs: Vector3<U>) -> Vector3<T> {
        Vector3 { x: self.x.mul_spec(rhs.x), y: self.y.mul_spec(rhs.y), z: self.z.mul_spec(rhs.z) }
    }
}

impl<T, U> Mul<Vector3<U>> for Vector3<T> where T: Mul<U, Output = T> {
    type Output = Vector3<T>;

    /// Multiplies component by component. The element types may differ; the result
    /// has the element type of the left operand.
    fn mul(self, rhs: Vector3<U>) -> (product: Vector3<T>) {
        Self { x: self.x * rhs.x, y: self.y * rhs.y, z: self.z * rhs.z }
    }
}

/// What `/` means on two vectors of three components: the element
/// operator on each pair of components.
impl<T, U> DivSpecImpl<Vector3<U>> for Vector3<T> where T: Div<U, Output = T> {
    open spec fn obeys_div_spec() -> bool {
        T::obeys_div_spec()
    }

    open spec fn div_req(self, rhs: Vector3<U>) -> bool {
        self.x.div_req(rhs.x)
            && self.y.div_req(rhs.y)
            && self.z.div_req(rhs.z)
    }

    open spec fn div_spec(self, rhs: Vector3<U>) -> Vector3<T> {
        Vector3 { x: self.x.div_spec(rhs.x), y: self.y.div_spec(rhs.y), z: self.z.div_spec(rhs.z) }
    }
}

impl<T, U> Div<Vector3<U>> for Vector3<T> where T: Div<U, Output = T> {
    type Output = Vector3<T>;

    /// Divides component by component. The element types may differ; the result
    /// has the element type of the left operand.
    fn div(self, rhs: Vector3<U>) -> (quotient: Vector3<T>) {
        Self { x: self.x / rhs.x, y: self.y / rhs.y, z: self.z / rhs.z }
    }
}

/// A vector of four components.
#[derive(Clone, Copy, Debug, PartialEq, Eq)]
pub struct Vector4<T> {
    pub x: T,
    pub y: T,
    pub z: T,
    pub w: T,
}

impl<T> Vector4<T> {
    /// The vector with the given components.
    pub fn new(x: T, y: T, z: T, w: T) -> (made: Self)
        ensures
            made == (Vector4 { x, y, z, w }),
    {
        Self { x, y, z, w }
    }

    /// Every component multiplied by `scalar`, the component on the left.
    pub fn scale(self, scalar: T) -> (scaled: Self) where T: Mul<T, Output = T> + Copy
        requires
            self.x.mul_req(scalar),
            self.y.mul_req(scalar),
            self.z.mul_req(scalar),
            self.w.mul_req(scalar),
        ensures
            T::obeys_mul_spec() ==> scaled == (Vector4 {
                x: self.x.mul_spec(scalar),
                y: self.y.mul_spec(scalar),
                z: self.z.mul_spec(scalar),
                w: self.w.mul_spec(scalar),
            }),
    {
        Self { x: self.x * scalar, y: self.y * scalar, z: self.z * scalar, w: self.w * scalar }
    }

    /// Whether `text` renders this vector: the frame `[x: .., y: .., z: .., w: ..]`
    /// around a rendering of each component by its `Display`.
    pub open spec fn is_rendered_as(&self, text: Seq<char>) -> bool where T: Display {
        exists|x: String, y: String, z: String, w: String|
            #[trigger] to_string_from_display_ensures::<T>(&self.x, x)
                && #[trigger] to_string_from_display_ensures::<T>(&self.y, y)
                && #[trigger] to_string_from_display_ensures::<T>(&self.z, z)
                && #[trigger] to_string_from_display_ensures::<T>(&self.w, w)
                && text == rendered4(x@, y@, z@, w@)
    }

    /// The text `[x: .., y: .., z: .., w: ..]`, each component rendered by its `Display`.
    pub fn to_string(&self) -> (text: String) where T: Display
        ensures
            self.is_rendered_as(text@),
    {
        let x: String = self.x.to_string();
        let y: String = self.y.to_string();
        let z: String = self.z.to_string();
        let w: String = self.w.to_string();
        render4(x.as_str(), y.as_str(), z.as_str(), w.as_str())
    }
}

/// The text of a vector of four components whose renderings are given.
pub open spec fn rendered4(x: Seq<char>, y: Seq<char>, z: Seq<char>, w: Seq<char>) -> Seq<char> {
    "[x: "@ + x + ", y: "@ + y + ", z: "@ + z + ", w: "@ + w + "]"@
}

/// Frames the renderings of four components as `[x: .., y: .., z: .., w: ..]`.
pub fn render4(x: &str, y: &str, z: &str, w: &str) -> (text: String)
    ensures
        text@ == rendered4(x@, y@, z@, w@),
{
    let mut text: String = String::from_str("[x: ");
    text.append(x);
    text.append(", y: ");
    text.append(y);
    text.append(", z: ");
    text.append(z);
    text.append(", w: ");
    text.append(w);
    text.append("]");
    text
}

/// What `+` means on two vectors of four components: the element
/// operator on each pair of components.
impl<T, U> AddSpecImpl<Vector4<U>> for Vector4<T> where T: Add<U, Output = T> {
    open spec fn obeys_add_spec() -> bool {
        T::obeys_add_spec()
    }

    open spec fn add_req(self, rhs: Vector4<U>) -> bool {
        self.x.add_req(rhs.x)
            && self.y.add_req(rhs.y)
            && self.z.add_req(rhs.z)
            && self.w.add_req(rhs.w)
    }

    open spec fn add_spec(self, rhs: Vector4<U>) -> Vector4<T> {
        Vector4 { x: self.x.add_spec(rhs.x), y: self.y.add_spec(rhs.y), z: self.z.add_spec(rhs.z), w: self.w.add_spec(rhs.w) }
    }
}

impl<T, U> Add<Vector4<U>> for Vector4<T> where T: Add<U, Output = T> {
    type Output = Vector4<T>;

    /// Adds component by component. The element types may differ; the result
    /// has the element type of the left operand.
    fn add(self, rhs: Vector4<U>) -> (sum: Vector4<T>) {
        Self { x: self.x + rhs.x, y: self.y + rhs.y, z: self.z + rhs.z, w: self.w + rhs.w }
    }
}

/// What `-` means on two vectors of four components: the element
/// operator on each pair of components.
impl<T, U> SubSpecImpl<Vector4<U>> for Vector4<T> where T: Sub<U, Output = T> {
    open spec fn obeys_sub_spec() -> bool {
        T::obeys_sub_spec()
    }

    open spec fn sub_req(self, rhs: Vector4<U>) -> bool {
        self.x.sub_req(rhs.x)
            && self.y.sub_req(rhs.y)
            && self.z.sub_req(rhs.z)
            && self.w.sub_req(rhs.w)
    }

    open spec fn sub_spec(self, rhs: Vector4<U>) -> Vector4<T> {
        Vector4 { x: self.x.sub_spec(rhs.x), y: self.y.sub_spec(rhs.y), z: self.z.sub_spec(rhs.z), w: self.w.sub_spec(rhs.w) }
    }
}

impl<T, U> Sub<Vector4<U>> for Vector4<T> where T: Sub<U, Output = T> {
    type Output = Vector4<T>;

    /// Subtracts component by component. The element types may differ; the result
    /// has the element type of the left operand.
    fn sub(self, rhs: Vector4<U>) -> (difference: Vector4<T>) {
        Self { x: self.x - rhs.x, y: self.y - rhs.y, z: self.z - rhs.z, w: self.w - rhs.w }
    }
}

/// What `*` means on two vectors of four components: the element
/// operator on each pair of components.
impl<T, U> MulSpecImpl<Vector4<U>> for Vector4<T> where T: Mul<U, Output = T> {
    open spec fn obeys_mul_spec() -> bool {
        T::obeys_mul_spec()
    }

    open spec fn mul_req(self, rhs: Vector4<U>) -> bool {
        self.x.mul_req(rhs.x)
            && self.y.mul_req(rhs.y)
            && self.z.mul_req(rhs.z)
            && self.w.mul_req(rhs.w)
    }

    open spec fn mul_spec(self, rhs: Vector4<U>) -> Vector4<T> {
        Vector4 { x: self.x.mul_spec(rhs.x), y: self.y.mul_spec(rhs.y), z: self.z.mul_spec(rhs.z), w: self.w.mul_spec(rhs.w) }
    }
}

impl<T, U> Mul<Vector4<U>> for Vector4<T> where T: Mul<U, Output = T> {
    type Output = Vector4<T>;

    /// Multiplies component by component. The element types may differ; the result
    /// has the element type of the left operand.
    fn mul(self, rhs: Vector4<U>) -> (product: Vector4<T>) {
        Self { x: self.x * rhs.x, y: self.y * rhs.y, z: self.z * rhs.z, w: self.w * rhs.w }
    }
}

/// What `/` means on two vectors of four components: the element
/// operator on each pair of components.
impl<T, U> DivSpecImpl<Vector4<U>> for Vector4<T> where T: Div<U, Output = T> {
    open spec fn obeys_div_spec() -> bool {
        T::obeys_div_spec()
    }

    open spec fn div_req(self, rhs: Vector4<U>) -> bool {
        self.x.div_req(rhs.x)
            && self.y.div_req(rhs.y)
            && self.z.div_req(rhs.z)
            && self.w.div_req(rhs.w)
    }

    open spec fn div_spec(self, rhs: Vector4<U>) -> Vector4<T> {
        Vector4 { x: self.x.div_spec(rhs.x), y: self.y.div_spec(rhs.y), z: self.z.div_spec(rhs.z), w: self.w.div_spec(rhs.w) }
    }
}

impl<T, U> Div<Vector4<U>> for Vector4<T> where T: Div<U, Output = T> {
    type Output = Vector4<T>;

    /// Divides component by component. The element types may differ; the result
    /// has the element type of the left operand.
    fn div(self, rhs: Vector4<U>) -> (quotient: Vector4<T>) {
        Self { x: self.x / rhs.x, y: self.y / rhs.y, z: self.z / rhs.z, w: self.w / rhs.w }
    }
}

} // verus!
