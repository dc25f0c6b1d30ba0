use vstd::prelude::*;

verus! {

/// The role an embedded picture plays in a tag.
#[derive(Clone, Copy, Debug, PartialEq, Eq, Structural)]
pub enum PictureType {
    Other,
    Icon,
    CoverFront,
    CoverBack,
    Artist,
}

/// The recognised MIME kinds for picture data. Anything else a file may
/// carry is outside the unified model and reads back as absent.
#[derive(Clone, Copy, Debug, PartialEq, Eq, Structural)]
pub enum MimeType {
    Png,
    Jpeg,
    Tiff,
    Bmp,
    Gif,
}

/// Embedded artwork: a role, the raw bytes, an optional MIME kind, and
/// optional dimension metadata. The dimension fields are advisory only:
/// no supported native format persists them, so they are not part of the
/// persisted model ([`PictureView`]).
#[derive(Clone, Debug, PartialEq)]
pub struct Picture {
    pub pic_type: PictureType,
    pub pic_data: Vec<u8>,
    pub mime_type: Option<MimeType>,
    pub width: Option<u32>,
    pub height: Option<u32>,
    pub color_depth: Option<u32>,
    pub num_colors: Option<u32>,
}

/// The persisted content of a picture: what survives a round trip through
/// a native tag.
#[verifier::ext_equal]
pub ghost struct PictureView {
    pub pic_type: PictureType,
    pub mime_type: Option<MimeType>,
    pub pic_data: Seq<u8>,
}

impl View for Picture {
    type V = PictureView;

    open spec fn view(&self) -> PictureView {
        PictureView {
            pic_type: self.pic_type,
            mime_type: self.mime_type,
            pic_data: self.pic_data@,
        }
    }
}

/// The ID3v2 APIC code of each picture role, the interchange form every
/// native backend understands.
pub open spec fn pic_type_code(t: PictureType) -> u8 {
    match t {
        PictureType::Other => 0,
        PictureType::Icon => 1,
        PictureType::CoverFront => 3,
        PictureType::CoverBack => 4,
        PictureType::Artist => 8,
    }
}

/// Classifies an APIC code back into a role; codes outside the unified
/// model fold into `Other`.
pub open spec fn pic_type_of_code(c: u8) -> PictureType {
    if c == 1 {
        PictureType::Icon
    } else if c == 3 {
        PictureType::CoverFront
    } else if c == 4 {
        PictureType::CoverBack
    } else if c == 8 {
        PictureType::Artist
    } else {
        PictureType::Other
    }
}

/// The canonical (lowercase) MIME string of each recognised kind.
pub open spec fn mime_canon(m: MimeType) -> Seq<char> {
    match m {
        MimeType::Png => "image/png"@,
        MimeType::Jpeg => "image/jpeg"@,
        MimeType::Tiff => "image/tiff"@,
        MimeType::Bmp => "image/bmp"@,
        MimeType::Gif => "image/gif"@,
    }
}

/// Classifies a MIME string; strings outside the recognised kinds read as
/// absent.
pub open spec fn mime_of_str(s: Seq<char>) -> Option<MimeType> {
    if s == "image/png"@ {
        Some(MimeType::Png)
    } else if s == "image/jpeg"@ {
        Some(MimeType::Jpeg)
    } else if s == "image/tiff"@ {
        Some(MimeType::Tiff)
    } else if s == "image/bmp"@ {
        Some(MimeType::Bmp)
    } else if s == "image/gif"@ {
        Some(MimeType::Gif)
    } else {
        None
    }
}

/// The APIC code of a role.
pub fn apic_code(t: PictureType) -> (r: u8)
    ensures
        r == pic_type_code(t),
        pic_type_of_code(r) == t,
{
    match t {
        PictureType::Other => 0,
        PictureType::Icon => 1,
        PictureType::CoverFront => 3,
        PictureType::CoverBack => 4,
        PictureType::Artist => 8,
    }
}

/// The role named by an APIC code.
pub fn pic_type_from_code(c: u8) -> (r: PictureType)
    ensures
        r == pic_type_of_code(c),
{
    if c == 1 {
        PictureType::Icon
    } else if c == 3 {
        PictureType::CoverFront
    } else if c == 4 {
        PictureType::CoverBack
    } else if c == 8 {
        PictureType::Artist
    } else {
        PictureType::Other
    }
}

/// The canonical MIME string of a kind.
pub fn mime_canonical(m: MimeType) -> (r: String)
    ensures
        r@ == mime_canon(m),
        mime_of_str(r@) == Some(m),
{
    proof {
        reveal_strlit("image/png");
        reveal_strlit("image/jpeg");
        reveal_strlit("image/tiff");
        reveal_strlit("image/bmp");
        reveal_strlit("image/gif");
        assert("image/png"@.len() == 9);
        assert("image/jpeg"@.len() == 10);
        assert("image/tiff"@.len() == 10);
        assert("image/bmp"@.len() == 9);
        assert("image/gif"@.len() == 9);
        assert("image/png"@[6] == 'p' && "image/bmp"@[6] == 'b' && "image/gif"@[6] == 'g');
        assert("image/jpeg"@[6] == 'j' && "image/tiff"@[6] == 't');
    }
    match m {
        MimeType::Png => "image/png".to_owned(),
        MimeType::Jpeg => "image/jpeg".to_owned(),
        MimeType::Tiff => "image/tiff".to_owned(),
        MimeType::Bmp => "image/bmp".to_owned(),
        MimeType::Gif => "image/gif".to_owned(),
    }
}

/// Classifies a MIME string read back from a native tag.
pub fn mime_classify(s: &String) -> (r: Option<MimeType>)
    ensures
        r == mime_of_str(s@),
{
    if *s == "image/png".to_owned() {
        Some(MimeType::Png)
    } else if *s == "image/jpeg".to_owned() {
        Some(MimeType::Jpeg)
    } else if *s == "image/tiff".to_owned() {
        Some(MimeType::Tiff)
    } else if *s == "image/bmp".to_owned() {
        Some(MimeType::Bmp)
    } else if *s == "image/gif".to_owned() {
        Some(MimeType::Gif)
    } else {
        None
    }
}

} // verus!
