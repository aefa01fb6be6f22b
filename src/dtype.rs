use vstd::prelude::*;

verus! {

/// The kind of value a node holds, as the native parser reports it.
#[allow(non_camel_case_types)]
#[derive(PartialEq, Eq, Clone, Copy, Debug, Structural)]
pub enum Dtype {
    /// A node with nothing
    NIL,
    /// A node with i16
    I16,
    /// A node with i32
    I32,
    /// A node with i64
    I64,
    /// A node with f32
    F32,
    /// A node with f64
    F64,
    /// A node with vector (pair of i32 x and i32 y)
    VEC,
    /// A node which is not read yet
    UNK,
    /// A node with array (children of node)
    ARY,
    /// A node with image, which may have children of node
    IMG,
    /// A node with convex (multiple pairs of x: i32 and y: i32)
    VEX,
    /// A node with audio
    AO,
    /// A link to another node (UOL)
    UOL,
    /// A node with string (UTF-8)
    STR,
}

/// The typed accessors of a node, one per kind of value they extract.
#[derive(PartialEq, Eq, Clone, Copy, Debug, Structural)]
pub enum Accessor {
    Int32,
    Int64,
    Float32,
    Float64,
    Str,
    Vector,
    Image,
}

impl Dtype {
    /// The numeric tag by which the native parser reports this kind.
    pub open spec fn code(self) -> u8 {
        match self {
            Dtype::NIL => 0,
            Dtype::I16 => 1,
            Dtype::I32 => 2,
            Dtype::I64 => 3,
            Dtype::F32 => 4,
            Dtype::F64 => 5,
            Dtype::VEC => 6,
            Dtype::UNK => 7,
            Dtype::ARY => 8,
            Dtype::IMG => 9,
            Dtype::VEX => 10,
            Dtype::AO => 11,
            Dtype::UOL => 12,
            Dtype::STR => 13,
        }
    }

    /// The kind whose numeric tag is `v`, if any.
    pub open spec fn spec_from_u8(v: u8) -> Option<Dtype> {
        if v == 0 { Some(Dtype::NIL) }
        else if v == 1 { Some(Dtype::I16) }
        else if v == 2 { Some(Dtype::I32) }
        else if v == 3 { Some(Dtype::I64) }
        else if v == 4 { Some(Dtype::F32) }
        else if v == 5 { Some(Dtype::F64) }
        else if v == 6 { Some(Dtype::VEC) }
        else if v == 7 { Some(Dtype::UNK) }
        else if v == 8 { Some(Dtype::ARY) }
        else if v == 9 { Some(Dtype::IMG) }
        else if v == 10 { Some(Dtype::VEX) }
        else if v == 11 { Some(Dtype::AO) }
        else if v == 12 { Some(Dtype::UOL) }
        else if v == 13 { Some(Dtype::STR) }
        else { None }
    }

    /// Decodes a native numeric tag; an unknown tag gives `None`.
    pub fn from_u8(v: u8) -> (r: Option<Dtype>)
        ensures
            r == Self::spec_from_u8(v),
            r matches Some(t) ==> t.code() == v,
            r is None <==> v > 13,
    {
        match v {
            0 => Some(Dtype::NIL),
            1 => Some(Dtype::I16),
            2 => Some(Dtype::I32),
            3 => Some(Dtype::I64),
            4 => Some(Dtype::F32),
            5 => Some(Dtype::F64),
            6 => Some(Dtype::VEC),
            7 => Some(Dtype::UNK),
            8 => Some(Dtype::ARY),
            9 => Some(Dtype::IMG),
            10 => Some(Dtype::VEX),
            11 => Some(Dtype::AO),
            12 => Some(Dtype::UOL),
            13 => Some(Dtype::STR),
            _ => None,
        }
    }

    /// The kind's name, as written in the archive format's documentation.
    pub open spec fn spec_to_str(self) -> Seq<char> {
        match self {
            Dtype::NIL => "NIL"@,
            Dtype::I16 => "I16"@,
            Dtype::I32 => "I32"@,
            Dtype::I64 => "I64"@,
            Dtype::F32 => "F32"@,
            Dtype::F64 => "F64"@,
            Dtype::VEC => "VEC"@,
            Dtype::UNK => "UNK"@,
            Dtype::ARY => "ARY"@,
            Dtype::IMG => "IMG"@,
            Dtype::VEX => "VEX"@,
            Dtype::AO => "AO"@,
            Dtype::UOL => "UOL"@,
            Dtype::STR => "STR"@,
        }
    }

    pub fn to_str(&self) -> (r: &'static str)
        ensures
            r@ == self.spec_to_str(),
    {
        match self {
            Dtype::NIL => "NIL",
            Dtype::I16 => "I16",
            Dtype::I32 => "I32",
            Dtype::I64 => "I64",
            Dtype::F32 => "F32",
            Dtype::F64 => "F64",
            Dtype::VEC => "VEC",
            Dtype::UNK => "UNK",
            Dtype::ARY => "ARY",
            Dtype::IMG => "IMG",
            Dtype::VEX => "VEX",
            Dtype::AO => "AO",
            Dtype::UOL => "UOL",
            Dtype::STR => "STR",
        }
    }

    /// Kinds whose nodes have children: arrays and images.
    pub open spec fn spec_is_container(self) -> bool {
        self == Dtype::ARY || self == Dtype::IMG
    }

    pub fn is_container(&self) -> (r: bool)
        ensures
            r == self.spec_is_container(),
    {
        match self {
            Dtype::ARY | Dtype::IMG => true,
            _ => false,
        }
    }

    /// The one accessor that extracts a value from a node of this kind.
    pub open spec fn accessor(self) -> Option<Accessor> {
        match self {
            Dtype::I16 | Dtype::I32 => Some(Accessor::Int32),
            Dtype::I64 => Some(Accessor::Int64),
            Dtype::F32 => Some(Accessor::Float32),
            Dtype::F64 => Some(Accessor::Float64),
            Dtype::STR => Some(Accessor::Str),
            Dtype::VEC => Some(Accessor::Vector),
            Dtype::IMG => Some(Accessor::Image),
            _ => None,
        }
    }
}

/// True when the numeric tag `tag` names a kind that accessor `k` reads.
pub open spec fn accepts(k: Accessor, tag: u8) -> bool {
    match Dtype::spec_from_u8(tag) {
        Some(t) => t.accessor() == Some(k),
        None => false,
    }
}

/// True when the numeric tag `tag` names a kind that has children.
pub open spec fn tag_is_container(tag: u8) -> bool {
    match Dtype::spec_from_u8(tag) {
        Some(t) => t.spec_is_container(),
        None => false,
    }
}

impl Accessor {
    /// Whether this accessor reads nodes carrying the numeric tag `tag`.
    pub fn accepts(&self, tag: u8) -> (r: bool)
        ensures
            r == accepts(*self, tag),
    {
        match Dtype::from_u8(tag) {
            Some(t) => match (t, self) {
                (Dtype::I16, Accessor::Int32) | (Dtype::I32, Accessor::Int32) => true,
                (Dtype::I64, Accessor::Int64) => true,
                (Dtype::F32, Accessor::Float32) => true,
                (Dtype::F64, Accessor::Float64) => true,
                (Dtype::STR, Accessor::Str) => true,
                (Dtype::VEC, Accessor::Vector) => true,
                (Dtype::IMG, Accessor::Image) => true,
                _ => false,
            },
            None => false,
        }
    }
}

} // verus!
