use vstd::prelude::*;

verus! {

/// The kind of media a link points at.
#[derive(Clone, Copy, Debug)]
pub enum MediaType {
    Image,
}

/// A piece of media that may be linked or embedded into the ShotLiner
/// document.
#[derive(Clone, Debug)]
pub struct MediaLink {
    filepath: String,
    media_type: MediaType,
}

impl MediaLink {
    /// A link of the given kind to the given path.
    pub fn new(filepath: String, media_type: MediaType) -> (r: Self)
        ensures
            r.filepath() == filepath@,
            r.media_type() == media_type,
    {
        MediaLink { filepath, media_type }
    }

    /// The linked path.
    pub closed spec fn filepath(&self) -> Seq<char> {
        self.filepath@
    }

    /// The kind of the linked media.
    pub closed spec fn media_type(&self) -> MediaType {
        self.media_type
    }
}

} // verus!
