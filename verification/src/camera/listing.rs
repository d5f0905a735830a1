use vstd::prelude::*;

use crate::util::{hex_digit_value, hex_digits_value, push_char};

verus! {

/// What the camera reports about one of its storage volumes (the PTP
/// `StorageInfo` dataset).
#[derive(Debug)]
pub struct PtpStorageInfo {
    pub storage_type: u16,
    pub filesystem_type: u16,
    pub access_capability: u16,
    pub max_capacity: u64,
    pub free_space_in_bytes: u64,
    pub free_space_in_images: u32,
    pub storage_description: String,
    pub volume_label: String,
}

/// What the camera reports about one of its files or folders (the PTP
/// `ObjectInfo` dataset).
#[derive(Debug)]
pub struct PtpObjectInfo {
    pub storage_id: u32,
    pub object_format: u16,
    pub protection_status: u16,
    pub object_compressed_size: u32,
    pub thumb_format: u16,
    pub thumb_compressed_size: u32,
    pub thumb_pix_width: u32,
    pub thumb_pix_height: u32,
    pub image_pix_width: u32,
    pub image_pix_height: u32,
    pub image_bit_depth: u32,
    pub parent_object: u32,
    pub association_type: u16,
    pub association_desc: u32,
    pub sequence_number: u32,
    pub filename: String,
    pub capture_date: String,
    pub modification_date: String,
    pub keywords: String,
}

/// The object format of an association, that is, of a folder.
pub const ASSOCIATION_FORMAT: u16 = 0x3001;

/// The lowercase hexadecimal digit of a value below 16.
pub open spec fn hex_digit(d: int) -> char {
    if d < 10 {
        ((d + 48) as u8) as char
    } else {
        ((d + 87) as u8) as char
    }
}

/// A 16-bit code as `0x` and four lowercase hexadecimal digits.
pub open spec fn hex4(v: u16) -> Seq<char> {
    seq![
        '0',
        'x',
        hex_digit((v / 4096) as int),
        hex_digit(((v / 256) % 16) as int),
        hex_digit(((v / 16) % 16) as int),
        hex_digit((v % 16) as int),
    ]
}

fn hex_digit_char(d: u16) -> (r: char)
    requires
        d < 16,
    ensures
        r == hex_digit(d as int),
{
    if d < 10 {
        ((d + 48) as u8) as char
    } else {
        ((d + 87) as u8) as char
    }
}

/// Formats a 16-bit code as `0x` and four lowercase hexadecimal digits.
pub fn format_hex4(v: u16) -> (r: String)
    ensures
        r@ == hex4(v),
{
    let digits: Vec<char> = vec![
        '0',
        'x',
        hex_digit_char(v / 4096),
        hex_digit_char((v / 256) % 16),
        hex_digit_char((v / 16) % 16),
        hex_digit_char(v % 16),
    ];
    let mut out = String::new();
    let mut i: usize = 0;
    while i < digits.len()
        invariant
            i <= digits@.len(),
            out@ == digits@.subrange(0, i as int),
        decreases digits@.len() - i,
    {
        push_char(&mut out, digits[i]);
        i = i + 1;
        proof {
            assert(out@ =~= digits@.subrange(0, i as int));
        }
    }
    proof {
        assert(digits@ =~= hex4(v));
        assert(digits@.subrange(0, 6) =~= digits@);
    }
    out
}

/// The short name of a storage access capability.
pub open spec fn spec_access_name(code: u16) -> Seq<char> {
    if code == 0x0000 {
        "r+w"@
    } else if code == 0x0001 {
        "r+d"@
    } else if code == 0x0002 {
        "r"@
    } else {
        hex4(code)
    }
}

/// The short name of a storage access capability. Other codes are shown in hexadecimal.
pub fn access_name(code: u16) -> (r: String)
    ensures
        r@ == spec_access_name(code),
{
    if code == 0x0000 {
        "r+w".to_owned()
    } else if code == 0x0001 {
        "r+d".to_owned()
    } else if code == 0x0002 {
        "r".to_owned()
    } else {
        format_hex4(code)
    }
}

/// The name of a filesystem type.
pub open spec fn spec_filesystem_name(code: u16) -> Seq<char> {
    if code == 0x0000 {
        "unknown"@
    } else if code == 0x0001 {
        "flat"@
    } else if code == 0x0002 {
        "hierarchical"@
    } else if code == 0x0003 {
        "dcf"@
    } else {
        hex4(code)
    }
}

/// The name of a filesystem type. Other codes are shown in hexadecimal.
pub fn filesystem_name(code: u16) -> (r: String)
    ensures
        r@ == spec_filesystem_name(code),
{
    if code == 0x0000 {
        "unknown".to_owned()
    } else if code == 0x0001 {
        "flat".to_owned()
    } else if code == 0x0002 {
        "hierarchical".to_owned()
    } else if code == 0x0003 {
        "dcf".to_owned()
    } else {
        format_hex4(code)
    }
}

/// The name of a storage type.
pub open spec fn spec_storage_type_name(code: u16) -> Seq<char> {
    if code == 0x0000 {
        "unknown"@
    } else if code == 0x0001 {
        "fixed rom"@
    } else if code == 0x0002 {
        "removable rom"@
    } else if code == 0x0003 {
        "fixed ram"@
    } else if code == 0x0004 {
        "removable ram"@
    } else {
        hex4(code)
    }
}

/// The name of a storage type. Other codes are shown in hexadecimal.
pub fn storage_type_name(code: u16) -> (r: String)
    ensures
        r@ == spec_storage_type_name(code),
{
    if code == 0x0000 {
        "unknown".to_owned()
    } else if code == 0x0001 {
        "fixed rom".to_owned()
    } else if code == 0x0002 {
        "removable rom".to_owned()
    } else if code == 0x0003 {
        "fixed ram".to_owned()
    } else if code == 0x0004 {
        "removable ram".to_owned()
    } else {
        format_hex4(code)
    }
}

/// The name of an association (folder) type.
pub open spec fn spec_association_name(code: u16) -> Seq<char> {
    if code == 0x0000 {
        "association"@
    } else if code == 0x0001 {
        "folder"@
    } else if code == 0x0002 {
        "album"@
    } else if code == 0x0003 {
        "time sequence"@
    } else if code == 0x0004 {
        "h. panorama"@
    } else if code == 0x0005 {
        "v. panorama"@
    } else if code == 0x0006 {
        "2d panorama"@
    } else if code == 0x0007 {
        "extra data"@
    } else {
        hex4(code)
    }
}

/// The name of an association (folder) type. Other codes are shown in hexadecimal.
pub fn association_name(code: u16) -> (r: String)
    ensures
        r@ == spec_association_name(code),
{
    if code == 0x0000 {
        "association".to_owned()
    } else if code == 0x0001 {
        "folder".to_owned()
    } else if code == 0x0002 {
        "album".to_owned()
    } else if code == 0x0003 {
        "time sequence".to_owned()
    } else if code == 0x0004 {
        "h. panorama".to_owned()
    } else if code == 0x0005 {
        "v. panorama".to_owned()
    } else if code == 0x0006 {
        "2d panorama".to_owned()
    } else if code == 0x0007 {
        "extra data".to_owned()
    } else {
        format_hex4(code)
    }
}

/// The name of an object format other than an association.
pub open spec fn spec_plain_format_name(code: u16) -> Seq<char> {
    if code == 0x3000 {
        "unknown"@
    } else if code == 0x3002 {
        "script"@
    } else if code == 0x3003 {
        "executable"@
    } else if code == 0x3004 {
        "text"@
    } else if code == 0x3005 {
        "html"@
    } else if code == 0x3006 {
        "dpof"@
    } else if code == 0x3007 {
        "aiff"@
    } else if code == 0x3008 {
        "wav"@
    } else if code == 0x3009 {
        "mp3"@
    } else if code == 0x300A {
        "avi"@
    } else if code == 0x300B {
        "mpeg"@
    } else if code == 0x300C {
        "asf"@
    } else if code == 0x3800 {
        "unknown"@
    } else if code == 0x3801 {
        "exif-jpeg"@
    } else if code == 0x3802 {
        "tiff-ep"@
    } else if code == 0x3803 {
        "flashpix"@
    } else if code == 0x3804 {
        "bmp"@
    } else if code == 0x3805 {
        "ciff"@
    } else if code == 0x3806 {
        "unknown"@
    } else if code == 0x3807 {
        "gif"@
    } else if code == 0x3808 {
        "jfif"@
    } else if code == 0x3809 {
        "pcd"@
    } else if code == 0x380A {
        "pict"@
    } else if code == 0x380B {
        "png"@
    } else if code == 0x380C {
        "unknown"@
    } else if code == 0x380D {
        "tiff"@
    } else if code == 0x380E {
        "tiff-it"@
    } else if code == 0x380F {
        "jp2"@
    } else if code == 0x3810 {
        "jpx"@
    } else {
        hex4(code)
    }
}

/// The name of an object format other than an association. Other codes are shown in hexadecimal.
pub fn plain_format_name(code: u16) -> (r: String)
    ensures
        r@ == spec_plain_format_name(code),
{
    if code == 0x3000 {
        "unknown".to_owned()
    } else if code == 0x3002 {
        "script".to_owned()
    } else if code == 0x3003 {
        "executable".to_owned()
    } else if code == 0x3004 {
        "text".to_owned()
    } else if code == 0x3005 {
        "html".to_owned()
    } else if code == 0x3006 {
        "dpof".to_owned()
    } else if code == 0x3007 {
        "aiff".to_owned()
    } else if code == 0x3008 {
        "wav".to_owned()
    } else if code == 0x3009 {
        "mp3".to_owned()
    } else if code == 0x300A {
        "avi".to_owned()
    } else if code == 0x300B {
        "mpeg".to_owned()
    } else if code == 0x300C {
        "asf".to_owned()
    } else if code == 0x3800 {
        "unknown".to_owned()
    } else if code == 0x3801 {
        "exif-jpeg".to_owned()
    } else if code == 0x3802 {
        "tiff-ep".to_owned()
    } else if code == 0x3803 {
        "flashpix".to_owned()
    } else if code == 0x3804 {
        "bmp".to_owned()
    } else if code == 0x3805 {
        "ciff".to_owned()
    } else if code == 0x3806 {
        "unknown".to_owned()
    } else if code == 0x3807 {
        "gif".to_owned()
    } else if code == 0x3808 {
        "jfif".to_owned()
    } else if code == 0x3809 {
        "pcd".to_owned()
    } else if code == 0x380A {
        "pict".to_owned()
    } else if code == 0x380B {
        "png".to_owned()
    } else if code == 0x380C {
        "unknown".to_owned()
    } else if code == 0x380D {
        "tiff".to_owned()
    } else if code == 0x380E {
        "tiff-it".to_owned()
    } else if code == 0x380F {
        "jp2".to_owned()
    } else if code == 0x3810 {
        "jpx".to_owned()
    } else {
        format_hex4(code)
    }
}
/// The name of the type of an object: for a folder, the name of its
/// association type; otherwise the name of its format.
pub open spec fn spec_object_type_name(format: u16, association: u16) -> Seq<char> {
    if format == ASSOCIATION_FORMAT {
        spec_association_name(association)
    } else {
        spec_plain_format_name(format)
    }
}

/// The name of the type of an object in a file listing.
pub fn object_type_name(format: u16, association: u16) -> (r: String)
    ensures
        r@ == spec_object_type_name(format, association),
{
    if format == ASSOCIATION_FORMAT {
        association_name(association)
    } else {
        plain_format_name(format)
    }
}

/// The names of the PTP storage access capabilities: read-write `r+w`,
/// read-only with deletion `r+d`, read-only `r`; any other code is shown as
/// `0x` and four hexadecimal digits.
pub proof fn lemma_access_names(code: u16)
    ensures
        spec_access_name(0x0000u16) == "r+w"@,
        spec_access_name(0x0001u16) == "r+d"@,
        spec_access_name(0x0002u16) == "r"@,
        !(code == 0x0000u16 || code == 0x0001u16 || code == 0x0002u16) ==> spec_access_name(code) == hex4(code),
{
}

/// The names of the PTP filesystem types: undefined, generic flat, generic
/// hierarchical, DCF; any other code is shown in hexadecimal.
pub proof fn lemma_filesystem_names(code: u16)
    ensures
        spec_filesystem_name(0x0000u16) == "unknown"@,
        spec_filesystem_name(0x0001u16) == "flat"@,
        spec_filesystem_name(0x0002u16) == "hierarchical"@,
        spec_filesystem_name(0x0003u16) == "dcf"@,
        !(code == 0x0000u16 || code == 0x0001u16 || code == 0x0002u16 || code == 0x0003u16) ==> spec_filesystem_name(code) == hex4(code),
{
}

/// The names of the PTP storage types: undefined, fixed ROM, removable ROM,
/// fixed RAM, removable RAM; any other code is shown in hexadecimal.
pub proof fn lemma_storage_type_names(code: u16)
    ensures
        spec_storage_type_name(0x0000u16) == "unknown"@,
        spec_storage_type_name(0x0001u16) == "fixed rom"@,
        spec_storage_type_name(0x0002u16) == "removable rom"@,
        spec_storage_type_name(0x0003u16) == "fixed ram"@,
        spec_storage_type_name(0x0004u16) == "removable ram"@,
        !(code == 0x0000u16 || code == 0x0001u16 || code == 0x0002u16 || code == 0x0003u16 || code == 0x0004u16) ==> spec_storage_type_name(code) == hex4(code),
{
}

/// The names of the PTP association types, from undefined (0) to ancillary
/// data (7); any other code is shown in hexadecimal.
pub proof fn lemma_association_names(code: u16)
    ensures
        spec_association_name(0x0000u16) == "association"@,
        spec_association_name(0x0001u16) == "folder"@,
        spec_association_name(0x0002u16) == "album"@,
        spec_association_name(0x0003u16) == "time sequence"@,
        spec_association_name(0x0004u16) == "h. panorama"@,
        spec_association_name(0x0005u16) == "v. panorama"@,
        spec_association_name(0x0006u16) == "2d panorama"@,
        spec_association_name(0x0007u16) == "extra data"@,
        !(code == 0x0000u16 || code == 0x0001u16 || code == 0x0002u16 || code == 0x0003u16 || code == 0x0004u16 || code == 0x0005u16 || code == 0x0006u16 || code == 0x0007u16) ==> spec_association_name(code) == hex4(code),
{
}

/// The names of the PTP object formats, from 0x3000 (undefined) to 0x3810
/// (JPX); the undefined formats read `unknown`, and any other code is shown in
/// hexadecimal.
pub proof fn lemma_plain_format_names(code: u16)
    ensures
        spec_plain_format_name(0x3000u16) == "unknown"@,
        spec_plain_format_name(0x3002u16) == "script"@,
        spec_plain_format_name(0x3003u16) == "executable"@,
        spec_plain_format_name(0x3004u16) == "text"@,
        spec_plain_format_name(0x3005u16) == "html"@,
        spec_plain_format_name(0x3006u16) == "dpof"@,
        spec_plain_format_name(0x3007u16) == "aiff"@,
        spec_plain_format_name(0x3008u16) == "wav"@,
        spec_plain_format_name(0x3009u16) == "mp3"@,
        spec_plain_format_name(0x300Au16) == "avi"@,
        spec_plain_format_name(0x300Bu16) == "mpeg"@,
        spec_plain_format_name(0x300Cu16) == "asf"@,
        spec_plain_format_name(0x3800u16) == "unknown"@,
        spec_plain_format_name(0x3801u16) == "exif-jpeg"@,
        spec_plain_format_name(0x3802u16) == "tiff-ep"@,
        spec_plain_format_name(0x3803u16) == "flashpix"@,
        spec_plain_format_name(0x3804u16) == "bmp"@,
        spec_plain_format_name(0x3805u16) == "ciff"@,
        spec_plain_format_name(0x3806u16) == "unknown"@,
        spec_plain_format_name(0x3807u16) == "gif"@,
        spec_plain_format_name(0x3808u16) == "jfif"@,
        spec_plain_format_name(0x3809u16) == "pcd"@,
        spec_plain_format_name(0x380Au16) == "pict"@,
        spec_plain_format_name(0x380Bu16) == "png"@,
        spec_plain_format_name(0x380Cu16) == "unknown"@,
        spec_plain_format_name(0x380Du16) == "tiff"@,
        spec_plain_format_name(0x380Eu16) == "tiff-it"@,
        spec_plain_format_name(0x380Fu16) == "jp2"@,
        spec_plain_format_name(0x3810u16) == "jpx"@,
        !(code == 0x3000u16 || code == 0x3002u16 || code == 0x3003u16 || code == 0x3004u16 || code == 0x3005u16 || code == 0x3006u16 || code == 0x3007u16 || code == 0x3008u16 || code == 0x3009u16 || code == 0x300Au16 || code == 0x300Bu16 || code == 0x300Cu16 || code == 0x3800u16 || code == 0x3801u16 || code == 0x3802u16 || code == 0x3803u16 || code == 0x3804u16 || code == 0x3805u16 || code == 0x3806u16 || code == 0x3807u16 || code == 0x3808u16 || code == 0x3809u16 || code == 0x380Au16 || code == 0x380Bu16 || code == 0x380Cu16 || code == 0x380Du16 || code == 0x380Eu16 || code == 0x380Fu16 || code == 0x3810u16) ==> spec_plain_format_name(code) == hex4(code),
{
}

/// The value of a hexadecimal digit that `hex_digit` writes.
proof fn lemma_hex_digit_value(d: int)
    requires
        0 <= d < 16,
    ensures
        hex_digit_value(hex_digit(d)) == Some(d as nat),
{
}

/// A code shown in hexadecimal is `0x` followed by four digits that read back
/// as the code.
pub proof fn lemma_hex4_reads_back(v: u16)
    ensures
        hex4(v).len() == 6,
        hex4(v)[0] == '0',
        hex4(v)[1] == 'x',
        hex_digits_value(hex4(v).skip(2)) == Some(v as nat),
{
    let d0 = (v / 4096) as int;
    let d1 = ((v / 256) % 16) as int;
    let d2 = ((v / 16) % 16) as int;
    let d3 = (v % 16) as int;
    lemma_hex_digit_value(d0);
    lemma_hex_digit_value(d1);
    lemma_hex_digit_value(d2);
    lemma_hex_digit_value(d3);
    let t = hex4(v).skip(2);
    let t3 = seq![hex_digit(d0), hex_digit(d1), hex_digit(d2)];
    let t2 = seq![hex_digit(d0), hex_digit(d1)];
    let t1 = seq![hex_digit(d0)];
    assert(t =~= t3.push(hex_digit(d3)));
    assert(t3 =~= t2.push(hex_digit(d2)));
    assert(t2 =~= t1.push(hex_digit(d1)));
    assert(t1.drop_last() =~= Seq::<char>::empty());
    assert(hex_digits_value(t1.drop_last()) == Some(0nat));
    assert(t1.last() == hex_digit(d0));
    assert(hex_digits_value(t1) == Some(d0 as nat));
    assert(t2.drop_last() =~= t1);
    assert(t2.last() == hex_digit(d1));
    assert(hex_digits_value(t2) == Some((d0 * 16 + d1) as nat));
    assert(t3.drop_last() =~= t2);
    assert(t3.last() == hex_digit(d2));
    assert(hex_digits_value(t3) == Some(((d0 * 16 + d1) * 16 + d2) as nat));
    assert(t.drop_last() =~= t3);
    assert(t.last() == hex_digit(d3));
    assert(((d0 * 16 + d1) * 16 + d2) * 16 + d3 == v) by (nonlinear_arith)
        requires
            d0 == v / 4096,
            d1 == (v / 256) % 16,
            d2 == (v / 16) % 16,
            d3 == v % 16,
    ;
}

} // verus!
