//! One image's manifest, as it stands in the workspace's directory tree:
//! the record the import pipeline consumes.

use vstd::prelude::*;

verus! {

/// The metadata of one image, read from the manifest file that sits in
/// the image's own subdirectory. Width and height are taken as given,
/// not validated; `created_at` is an opaque timestamp string.
pub struct ImageInfo {
    pub image_id: String,
    pub file_name: String,
    pub ext: String,
    pub width: u32,
    pub height: u32,
    pub created_at: String,
    pub tags: Vec<String>,
}

/// The mathematical value of a manifest `ImageInfo`.
#[verifier::ext_equal]
pub ghost struct ImageInfoV {
    pub image_id: Seq<char>,
    pub file_name: Seq<char>,
    pub ext: Seq<char>,
    pub width: u32,
    pub height: u32,
    pub created_at: Seq<char>,
    pub tags: Seq<Seq<char>>,
}

impl View for ImageInfo {
    type V = ImageInfoV;

    open spec fn view(&self) -> ImageInfoV {
        ImageInfoV {
            image_id: self.image_id@,
            file_name: self.file_name@,
            ext: self.ext@,
            width: self.width,
            height: self.height,
            created_at: self.created_at@,
            tags: self.tags@.map_values(|t: String| t@),
        }
    }
}

} // verus!
