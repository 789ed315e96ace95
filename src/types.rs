use vstd::prelude::*;

verus! {

#[verifier::external_type_specification]
#[verifier::reject_recursive_types(T)]
pub struct ExMintVector2<T>(mint::Vector2<T>);

#[verifier::external_type_specification]
#[verifier::reject_recursive_types(T)]
pub struct ExMintVector3<T>(mint::Vector3<T>);

/// A colour of four 8-bit channels, laid out as the host lays it out.
#[derive(Clone, Copy, Debug, PartialEq, Eq, Structural)]
pub struct Color32 {
    pub r: u8,
    pub g: u8,
    pub b: u8,
    pub a: u8,
}

/// A vector of two 32-bit integers, laid out as the host lays it out.
#[derive(Clone, Copy, Debug, PartialEq, Eq, Structural)]
pub struct Vector2Int {
    pub x: i32,
    pub y: i32,
}

/// A vector of three 32-bit integers, laid out as the host lays it out.
#[derive(Clone, Copy, Debug, PartialEq, Eq, Structural)]
pub struct Vector3Int {
    pub x: i32,
    pub y: i32,
    pub z: i32,
}

impl From<Vector2Int> for mint::Vector2<i32> {
    fn from(value: Vector2Int) -> (r: mint::Vector2<i32>) {
        mint::Vector2 { x: value.x, y: value.y }
    }
}

impl vstd::std_specs::convert::FromSpecImpl<Vector2Int> for mint::Vector2<i32> {
    open spec fn obeys_from_spec() -> bool {
        true
    }

    open spec fn from_spec(v: Vector2Int) -> mint::Vector2<i32> {
        mint::Vector2 { x: v.x, y: v.y }
    }
}

impl From<mint::Vector2<i32>> for Vector2Int {
    fn from(value: mint::Vector2<i32>) -> (r: Vector2Int) {
        Vector2Int { x: value.x, y: value.y }
    }
}

impl vstd::std_specs::convert::FromSpecImpl<mint::Vector2<i32>> for Vector2Int {
    open spec fn obeys_from_spec() -> bool {
        true
    }

    open spec fn from_spec(v: mint::Vector2<i32>) -> Vector2Int {
        Vector2Int { x: v.x, y: v.y }
    }
}

impl From<Vector3Int> for mint::Vector3<i32> {
    fn from(value: Vector3Int) -> (r: mint::Vector3<i32>) {
        mint::Vector3 { x: value.x, y: value.y, z: value.z }
    }
}

impl vstd::std_specs::convert::FromSpecImpl<Vector3Int> for mint::Vector3<i32> {
    open spec fn obeys_from_spec() -> bool {
        true
    }

    open spec fn from_spec(v: Vector3Int) -> mint::Vector3<i32> {
        mint::Vector3 { x: v.x, y: v.y, z: v.z }
    }
}

impl From<mint::Vector3<i32>> for Vector3Int {
    fn from(value: mint::Vector3<i32>) -> (r: Vector3Int) {
        Vector3Int { x: value.x, y: value.y, z: value.z }
    }
}

impl vstd::std_specs::convert::FromSpecImpl<mint::Vector3<i32>> for Vector3Int {
    open spec fn obeys_from_spec() -> bool {
        true
    }

    open spec fn from_spec(v: mint::Vector3<i32>) -> Vector3Int {
        Vector3Int { x: v.x, y: v.y, z: v.z }
    }
}

impl Vector2Int {
    /// Builds the vector from its `mint` counterpart.
    pub fn from_mint(val: mint::Vector2<i32>) -> (r: Vector2Int)
        ensures
            r.x == val.x && r.y == val.y,
    {
        Vector2Int::from(val)
    }

    /// The vector's `mint` counterpart.
    pub fn to_mint(self) -> (r: mint::Vector2<i32>)
        ensures
            r.x == self.x && r.y == self.y,
    {
        mint::Vector2::<i32>::from(self)
    }
}

impl Vector3Int {
    /// Builds the vector from its `mint` counterpart.
    pub fn from_mint(val: mint::Vector3<i32>) -> (r: Vector3Int)
        ensures
            r.x == val.x && r.y == val.y && r.z == val.z,
    {
        Vector3Int::from(val)
    }

    /// The vector's `mint` counterpart.
    pub fn to_mint(self) -> (r: mint::Vector3<i32>)
        ensures
            r.x == self.x && r.y == self.y && r.z == self.z,
    {
        mint::Vector3::<i32>::from(self)
    }
}

} // verus!
