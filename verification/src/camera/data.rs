use vstd::prelude::*;

verus! {

/// A value of a camera property or a control payload, in the PTP data types
/// that the camera uses.
#[allow(non_camel_case_types)]
#[derive(Debug)]
pub enum PtpData {
    UNDEF,
    INT8(i8),
    UINT8(u8),
    INT16(i16),
    UINT16(u16),
    INT32(i32),
    UINT32(u32),
    INT64(i64),
    UINT64(u64),
    AUINT8(Vec<u8>),
    AUINT16(Vec<u16>),
    AUINT32(Vec<u32>),
    STR(String),
}

/// The mathematical value of a `PtpData`.
pub enum PtpValue {
    Undef,
    Int8(i8),
    UInt8(u8),
    Int16(i16),
    UInt16(u16),
    Int32(i32),
    UInt32(u32),
    Int64(i64),
    UInt64(u64),
    AUInt8(Seq<u8>),
    AUInt16(Seq<u16>),
    AUInt32(Seq<u32>),
    Str(Seq<char>),
}

impl View for PtpData {
    type V = PtpValue;

    open spec fn view(&self) -> PtpValue {
        match self {
            PtpData::UNDEF => PtpValue::Undef,
            PtpData::INT8(v) => PtpValue::Int8(*v),
            PtpData::UINT8(v) => PtpValue::UInt8(*v),
            PtpData::INT16(v) => PtpValue::Int16(*v),
            PtpData::UINT16(v) => PtpValue::UInt16(*v),
            PtpData::INT32(v) => PtpValue::Int32(*v),
            PtpData::UINT32(v) => PtpValue::UInt32(*v),
            PtpData::INT64(v) => PtpValue::Int64(*v),
            PtpData::UINT64(v) => PtpValue::UInt64(*v),
            PtpData::AUINT8(v) => PtpValue::AUInt8(v@),
            PtpData::AUINT16(v) => PtpValue::AUInt16(v@),
            PtpData::AUINT32(v) => PtpValue::AUInt32(v@),
            PtpData::STR(v) => PtpValue::Str(v@),
        }
    }
}

fn vec_u8_eq(a: &Vec<u8>, b: &Vec<u8>) -> (r: bool)
    ensures
        r == (a@ == b@),
{
    if a.len() != b.len() {
        return false;
    }
    let mut i: usize = 0;
    while i < a.len()
        invariant
            a.len() == b.len(),
            i <= a.len(),
            forall|j: int| 0 <= j < i ==> a@[j] == b@[j],
        decreases a.len() - i,
    {
        if a[i] != b[i] {
            return false;
        }
        i = i + 1;
    }
    assert(a@ =~= b@);
    true
}

fn vec_u16_eq(a: &Vec<u16>, b: &Vec<u16>) -> (r: bool)
    ensures
        r == (a@ == b@),
{
    if a.len() != b.len() {
        return false;
    }
    let mut i: usize = 0;
    while i < a.len()
        invariant
            a.len() == b.len(),
            i <= a.len(),
            forall|j: int| 0 <= j < i ==> a@[j] == b@[j],
        decreases a.len() - i,
    {
        if a[i] != b[i] {
            return false;
        }
        i = i + 1;
    }
    assert(a@ =~= b@);
    true
}

fn vec_u32_eq(a: &Vec<u32>, b: &Vec<u32>) -> (r: bool)
    ensures
        r == (a@ == b@),
{
    if a.len() != b.len() {
        return false;
    }
    let mut i: usize = 0;
    while i < a.len()
        invariant
            a.len() == b.len(),
            i <= a.len(),
            forall|j: int| 0 <= j < i ==> a@[j] == b@[j],
        decreases a.len() - i,
    {
        if a[i] != b[i] {
            return false;
        }
        i = i + 1;
    }
    assert(a@ =~= b@);
    true
}

fn vec_u8_copy(a: &Vec<u8>) -> (r: Vec<u8>)
    ensures
        r@ == a@,
{
    let mut r: Vec<u8> = Vec::new();
    let mut i: usize = 0;
    while i < a.len()
        invariant
            i <= a.len(),
            r@ == a@.subrange(0, i as int),
        decreases a.len() - i,
    {
        r.push(a[i]);
        i = i + 1;
    }
    assert(a@.subrange(0, a.len() as int) =~= a@);
    r
}

fn vec_u16_copy(a: &Vec<u16>) -> (r: Vec<u16>)
    ensures
        r@ == a@,
{
    let mut r: Vec<u16> = Vec::new();
    let mut i: usize = 0;
    while i < a.len()
        invariant
            i <= a.len(),
            r@ == a@.subrange(0, i as int),
        decreases a.len() - i,
    {
        r.push(a[i]);
        i = i + 1;
    }
    assert(a@.subrange(0, a.len() as int) =~= a@);
    r
}

fn vec_u32_copy(a: &Vec<u32>) -> (r: Vec<u32>)
    ensures
        r@ == a@,
{
    let mut r: Vec<u32> = Vec::new();
    let mut i: usize = 0;
    while i < a.len()
        invariant
            i <= a.len(),
            r@ == a@.subrange(0, i as int),
        decreases a.len() - i,
    {
        r.push(a[i]);
        i = i + 1;
    }
    assert(a@.subrange(0, a.len() as int) =~= a@);
    r
}

impl PtpData {
    /// Whether two values are the same value of the same type.
    pub fn same_as(&self, other: &PtpData) -> (r: bool)
        ensures
            r == (self@ == other@),
    {
        match (self, other) {
            (PtpData::UNDEF, PtpData::UNDEF) => true,
            (PtpData::INT8(a), PtpData::INT8(b)) => *a == *b,
            (PtpData::UINT8(a), PtpData::UINT8(b)) => *a == *b,
            (PtpData::INT16(a), PtpData::INT16(b)) => *a == *b,
            (PtpData::UINT16(a), PtpData::UINT16(b)) => *a == *b,
            (PtpData::INT32(a), PtpData::INT32(b)) => *a == *b,
            (PtpData::UINT32(a), PtpData::UINT32(b)) => *a == *b,
            (PtpData::INT64(a), PtpData::INT64(b)) => *a == *b,
            (PtpData::UINT64(a), PtpData::UINT64(b)) => *a == *b,
            (PtpData::AUINT8(a), PtpData::AUINT8(b)) => vec_u8_eq(a, b),
            (PtpData::AUINT16(a), PtpData::AUINT16(b)) => vec_u16_eq(a, b),
            (PtpData::AUINT32(a), PtpData::AUINT32(b)) => vec_u32_eq(a, b),
            (PtpData::STR(a), PtpData::STR(b)) => *a == *b,
            _ => false,
        }
    }

    /// A copy of the value.
    pub fn copy(&self) -> (r: PtpData)
        ensures
            r@ == self@,
    {
        match self {
            PtpData::UNDEF => PtpData::UNDEF,
            PtpData::INT8(v) => PtpData::INT8(*v),
            PtpData::UINT8(v) => PtpData::UINT8(*v),
            PtpData::INT16(v) => PtpData::INT16(*v),
            PtpData::UINT16(v) => PtpData::UINT16(*v),
            PtpData::INT32(v) => PtpData::INT32(*v),
            PtpData::UINT32(v) => PtpData::UINT32(*v),
            PtpData::INT64(v) => PtpData::INT64(*v),
            PtpData::UINT64(v) => PtpData::UINT64(*v),
            PtpData::AUINT8(v) => PtpData::AUINT8(vec_u8_copy(v)),
            PtpData::AUINT16(v) => PtpData::AUINT16(vec_u16_copy(v)),
            PtpData::AUINT32(v) => PtpData::AUINT32(vec_u32_copy(v)),
            PtpData::STR(v) => PtpData::STR(v.clone()),
        }
    }
}

/// What the camera reports of one of its properties.
#[derive(Debug)]
pub struct PtpPropInfo {
    pub property_code: u16,
    pub data_type: u16,
    pub get_set: u8,
    pub is_enable: u8,
    pub factory_default: PtpData,
    pub current: PtpData,
}

/// The mathematical value of a `PtpPropInfo`.
pub struct PropInfoValue {
    pub property_code: u16,
    pub data_type: u16,
    pub get_set: u8,
    pub is_enable: u8,
    pub factory_default: PtpValue,
    pub current: PtpValue,
}

impl View for PtpPropInfo {
    type V = PropInfoValue;

    open spec fn view(&self) -> PropInfoValue {
        PropInfoValue {
            property_code: self.property_code,
            data_type: self.data_type,
            get_set: self.get_set,
            is_enable: self.is_enable,
            factory_default: self.factory_default@,
            current: self.current@,
        }
    }
}

impl PtpPropInfo {
    /// A copy of the property information.
    pub fn copy(&self) -> (r: PtpPropInfo)
        ensures
            r@ == self@,
    {
        PtpPropInfo {
            property_code: self.property_code,
            data_type: self.data_type,
            get_set: self.get_set,
            is_enable: self.is_enable,
            factory_default: self.factory_default.copy(),
            current: self.current.copy(),
        }
    }
}

} // verus!
