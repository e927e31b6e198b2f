use vstd::prelude::*;

verus! {

/// `image::DynamicImage`, a decoded image carried through untouched.
#[verifier::external_type_specification]
#[verifier::external_body]
pub struct ExDynamicImage(image::DynamicImage);

/// `image::Frame`, one decoded frame of an animation carried through untouched.
#[verifier::external_type_specification]
#[verifier::external_body]
pub struct ExFrame(image::Frame);

/// Where a request's target lives.
#[derive(Clone, Copy, Debug, PartialEq, Eq, Structural)]
pub enum PathType {
    Url,
    File,
}

/// What a request's target holds.
#[derive(Clone, Copy, Debug, PartialEq, Eq, Structural)]
pub enum FileType {
    Image,
    Gif,
}

/// How a piece of media is to be loaded. Built step by step from a target.
pub struct ImageRequest {
    pub path_type: PathType,
    pub file_type: FileType,
    pub target: String,
    pub max_dim: Option<usize>,
}

/// What loading has to do: read a file or fetch a URL, decode a still image or all frames of a
/// GIF, and for a still image shrink it to a largest side.
#[derive(Clone, Copy, Debug, PartialEq, Eq, Structural)]
pub enum LoadPlan {
    ImageFromFile { max_dim: Option<usize> },
    ImageFromUrl { max_dim: Option<usize> },
    GifFromFile,
    GifFromUrl,
}

pub open spec fn spec_plan(file_type: FileType, path_type: PathType, max_dim: Option<usize>) -> LoadPlan {
    match (file_type, path_type) {
        (FileType::Image, PathType::File) => LoadPlan::ImageFromFile { max_dim },
        (FileType::Image, PathType::Url) => LoadPlan::ImageFromUrl { max_dim },
        (FileType::Gif, PathType::File) => LoadPlan::GifFromFile,
        (FileType::Gif, PathType::Url) => LoadPlan::GifFromUrl,
    }
}

fn plan_for(file_type: FileType, path_type: PathType, max_dim: Option<usize>) -> (p: LoadPlan)
    ensures
        p == spec_plan(file_type, path_type, max_dim),
{
    match (file_type, path_type) {
        (FileType::Image, PathType::File) => LoadPlan::ImageFromFile { max_dim },
        (FileType::Image, PathType::Url) => LoadPlan::ImageFromUrl { max_dim },
        (FileType::Gif, PathType::File) => LoadPlan::GifFromFile,
        (FileType::Gif, PathType::Url) => LoadPlan::GifFromUrl,
    }
}

impl ImageRequest {
    /// A request for a still image in a file, kept at its size.
    pub fn new(target: String) -> (r: ImageRequest)
        ensures
            r.path_type == PathType::File,
            r.file_type == FileType::Image,
            r.target == target,
            r.max_dim is None,
    {
        ImageRequest { path_type: PathType::File, file_type: FileType::Image, target, max_dim: None }
    }

    pub fn url(self) -> (r: ImageRequest)
        ensures
            r == (ImageRequest { path_type: PathType::Url, ..self }),
    {
        ImageRequest { path_type: PathType::Url, ..self }
    }

    pub fn file(self) -> (r: ImageRequest)
        ensures
            r == (ImageRequest { path_type: PathType::File, ..self }),
    {
        ImageRequest { path_type: PathType::File, ..self }
    }

    pub fn image(self) -> (r: ImageRequest)
        ensures
            r == (ImageRequest { file_type: FileType::Image, ..self }),
    {
        ImageRequest { file_type: FileType::Image, ..self }
    }

    pub fn gif(self) -> (r: ImageRequest)
        ensures
            r == (ImageRequest { file_type: FileType::Gif, ..self }),
    {
        ImageRequest { file_type: FileType::Gif, ..self }
    }

    /// Shrink a still image so that its largest side is at most `max_dim`.
    pub fn with_max_dim(self, max_dim: usize) -> (r: ImageRequest)
        ensures
            r == (ImageRequest { max_dim: Some(max_dim), ..self }),
    {
        ImageRequest { max_dim: Some(max_dim), ..self }
    }

    pub fn keep_size(self) -> (r: ImageRequest)
        ensures
            r == (ImageRequest { max_dim: None, ..self }),
    {
        ImageRequest { max_dim: None, ..self }
    }

    /// What loading this request has to do.
    pub fn plan(&self) -> (p: LoadPlan)
        ensures
            p == spec_plan(self.file_type, self.path_type, self.max_dim),
    {
        plan_for(self.file_type, self.path_type, self.max_dim)
    }
}

/// Where a source lives.
pub enum SourceKind {
    Url(String),
    File(String),
}

/// What a source holds.
#[derive(Clone, Copy, Debug, PartialEq, Eq, Structural)]
pub enum MediaType {
    Image,
    Gif,
}

/// The media a run starts from.
pub struct Source {
    pub source: SourceKind,
    pub media_type: MediaType,
    pub max_dim: Option<usize>,
}

impl Source {
    /// What loading this source has to do.
    pub fn plan(&self) -> (p: LoadPlan)
        ensures
            p == spec_plan(
                match self.media_type {
                    MediaType::Image => FileType::Image,
                    MediaType::Gif => FileType::Gif,
                },
                match self.source {
                    SourceKind::Url(_) => PathType::Url,
                    SourceKind::File(_) => PathType::File,
                },
                self.max_dim,
            ),
    {
        let file_type = match self.media_type {
            MediaType::Image => FileType::Image,
            MediaType::Gif => FileType::Gif,
        };
        let path_type = match &self.source {
            SourceKind::Url(_) => PathType::Url,
            SourceKind::File(_) => PathType::File,
        };
        plan_for(file_type, path_type, self.max_dim)
    }

    /// The path or URL of the source.
    pub fn target(&self) -> (t: &str)
        ensures
            t@ == match self.source {
                SourceKind::Url(u) => u@,
                SourceKind::File(f) => f@,
            },
    {
        match &self.source {
            SourceKind::Url(u) => u.as_str(),
            SourceKind::File(f) => f.as_str(),
        }
    }
}

/// Loaded media: a still image or the frames of a GIF.
pub enum ImageResult {
    Image(image::DynamicImage),
    Gif(Vec<image::Frame>),
}

/// The loaded media was not of the kind asked for.
#[derive(Clone, Copy, Debug, PartialEq, Eq, Structural)]
pub struct Empty;

impl ImageResult {
    /// The still image, or `Empty` for a GIF.
    pub fn into_image(self) -> (r: Result<image::DynamicImage, Empty>)
        ensures
            self is Image <==> r is Ok,
            r matches Ok(i) ==> self == ImageResult::Image(i),
    {
        match self {
            ImageResult::Image(i) => Ok(i),
            ImageResult::Gif(_) => Err(Empty),
        }
    }

    /// The frames of the GIF, or `Empty` for a still image.
    pub fn into_gif(self) -> (r: Result<Vec<image::Frame>, Empty>)
        ensures
            self is Gif <==> r is Ok,
            r matches Ok(f) ==> self == ImageResult::Gif(f),
    {
        match self {
            ImageResult::Gif(f) => Ok(f),
            ImageResult::Image(_) => Err(Empty),
        }
    }
}

/// The size an image of `x` by `y` is shrunk to so that its largest side is `max_dim`; `None`
/// where it already fits.
pub open spec fn spec_fitted_size(x: u32, y: u32, max_dim: usize) -> Option<(u32, u32)> {
    let m: int = if x >= y { x as int } else { y as int };
    if (max_dim as int) < m {
        Some(((x as int * max_dim as int / m) as u32, (y as int * max_dim as int / m) as u32))
    } else {
        None
    }
}

/// The size an image of `x` by `y` is shrunk to so that its largest side is `max_dim`, both
/// sides scaled by `max_dim / max(x, y)` and rounded down; `None` where it already fits.
pub fn fitted_size(x: u32, y: u32, max_dim: usize) -> (r: Option<(u32, u32)>)
    ensures
        r == spec_fitted_size(x, y, max_dim),
{
    let m: u32 = if x >= y { x } else { y };
    if max_dim < m as usize {
        let md = max_dim as u64;
        proof {
            assert(x * md <= (m as int) * md) by (nonlinear_arith)
                requires x <= m, md >= 0;
            assert(y * md <= (m as int) * md) by (nonlinear_arith)
                requires y <= m, md >= 0;
            assert((m as int) * md < 0x1_0000_0000 * 0x1_0000_0000) by (nonlinear_arith)
                requires m < 0x1_0000_0000, md < m;
            assert(x * md / (m as int) <= md) by (nonlinear_arith)
                requires x * md <= (m as int) * md, m > 0;
            assert(y * md / (m as int) <= md) by (nonlinear_arith)
                requires y * md <= (m as int) * md, m > 0;
        }
        let w = (x as u64 * md / m as u64) as u32;
        let h = (y as u64 * md / m as u64) as u32;
        Some((w, h))
    } else {
        None
    }
}

/// Relies on `GenericImageView::dimensions` for `DynamicImage`: width and height.
#[verifier::external_body]
fn dimensions_of(image: &image::DynamicImage) -> (r: (u32, u32)) {
    image::GenericImageView::dimensions(image)
}

/// Relies on `DynamicImage::resize` with the nearest-neighbour filter.
#[verifier::external_body]
fn resize_nearest(image: &image::DynamicImage, w: u32, h: u32) -> (r: image::DynamicImage) {
    image.resize(w, h, image::imageops::FilterType::Nearest)
}

/// Relies on `DynamicImage`'s derived `Clone`: an equal image.
#[verifier::external_body]
fn clone_image(image: &image::DynamicImage) -> (r: image::DynamicImage)
    ensures
        r == *image,
{
    image.clone()
}

/// The image shrunk, nearest neighbour, so that its largest side is `max_dim`; a copy where
/// it already fits.
pub fn resize_image_with_max_dim(image: &image::DynamicImage, max_dim: usize) -> (r: image::DynamicImage) {
    let (x, y) = dimensions_of(image);
    match fitted_size(x, y, max_dim) {
        Some((w, h)) => resize_nearest(image, w, h),
        None => clone_image(image),
    }
}

} // verus!
