use vstd::prelude::*;

verus! {

/// The width and height used when a request leaves them out.
pub const DEFAULT_EDGE: u32 = 128;

/// A request for the thumbnail of the file at `path`.
#[derive(Debug)]
pub struct GetThumbnailRequest {
    pub path: String,
    pub width: Option<u32>,
    pub height: Option<u32>,
}

/// A thumbnail: encoded image bytes and their MIME type.
#[derive(Debug, Clone)]
pub struct GetThumbnailResponse {
    pub thumbnail: Vec<u8>,
    pub mime_type: String,
}

/// The value of an optional edge length: the given one, or the default.
pub open spec fn edge_or_default(edge: Option<u32>) -> u32 {
    match edge {
        Some(e) => e,
        None => DEFAULT_EDGE,
    }
}

/// The MIME type of every thumbnail the library produces.
pub open spec fn png_mime() -> Seq<char> {
    seq!['i', 'm', 'a', 'g', 'e', '/', 'p', 'n', 'g']
}

impl GetThumbnailRequest {
    /// The requested width and height, each defaulting to 128.
    pub fn dimensions(&self) -> (r: (u32, u32))
        ensures
            r.0 == edge_or_default(self.width),
            r.1 == edge_or_default(self.height),
    {
        let width = match self.width {
            Some(w) => w,
            None => DEFAULT_EDGE,
        };
        let height = match self.height {
            Some(h) => h,
            None => DEFAULT_EDGE,
        };
        (width, height)
    }
}

impl Default for GetThumbnailResponse {
    /// An empty thumbnail with an empty MIME type.
    fn default() -> (r: Self)
        ensures
            r.thumbnail@.len() == 0,
            r.mime_type@.len() == 0,
    {
        GetThumbnailResponse { thumbnail: Vec::new(), mime_type: String::new() }
    }
}

impl GetThumbnailResponse {
    /// A response carrying PNG bytes.
    pub fn png(thumbnail: Vec<u8>) -> (r: Self)
        ensures
            r.thumbnail@ == thumbnail@,
            r.mime_type@ == png_mime(),
    {
        let mime = "image/png";
        proof {
            reveal_strlit("image/png");
        }
        let mime_type = mime.to_owned();
        GetThumbnailResponse { thumbnail, mime_type }
    }
}

} // verus!
