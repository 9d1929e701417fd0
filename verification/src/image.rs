//! The data model: image formats, images and the result of a load.

use vstd::prelude::*;

verus! {

/// The encodings the engine can tell apart by looking at a header.
#[derive(Clone, Copy, Debug, PartialEq, Eq, Structural)]
pub enum ImageFormat {
    JPEG,
    PNG,
    BMP,
    GIF,
    PSD,
    PIC,
    Unknown,
}

impl ImageFormat {
    /// The format that the engine's probe denotes by `tag`: the six known
    /// formats are numbered from zero, and every other tag is `Unknown`.
    pub open spec fn of_tag(tag: int) -> ImageFormat {
        if tag == 0 {
            ImageFormat::JPEG
        } else if tag == 1 {
            ImageFormat::PNG
        } else if tag == 2 {
            ImageFormat::BMP
        } else if tag == 3 {
            ImageFormat::GIF
        } else if tag == 4 {
            ImageFormat::PSD
        } else if tag == 5 {
            ImageFormat::PIC
        } else {
            ImageFormat::Unknown
        }
    }

    /// The format for the tag returned by the engine's format probe.
    pub fn new_from_i8(n: i8) -> (format: ImageFormat)
        ensures
            format == ImageFormat::of_tag(n as int),
            !(0 <= n <= 5) ==> format == ImageFormat::Unknown,
    {
        match n {
            0 => ImageFormat::JPEG,
            1 => ImageFormat::PNG,
            2 => ImageFormat::BMP,
            3 => ImageFormat::GIF,
            4 => ImageFormat::PSD,
            5 => ImageFormat::PIC,
            _ => ImageFormat::Unknown,
        }
    }
}

/// A decoded image: `depth` samples for each of `width * height` pixels, row
/// by row.
#[derive(Debug, PartialEq)]
pub struct Image<T> {
    pub width: usize,
    pub height: usize,
    pub depth: usize,
    pub data: Vec<T>,
}

/// What an [`Image`] holds, as mathematics.
pub struct ImageView<T> {
    pub width: nat,
    pub height: nat,
    pub depth: nat,
    pub data: Seq<T>,
}

impl<T> ImageView<T> {
    /// The buffer holds one sample per pixel and channel, no more and no fewer.
    pub open spec fn well_formed(self) -> bool {
        self.data.len() == self.width * self.height * self.depth
    }
}

impl<T> View for Image<T> {
    type V = ImageView<T>;

    open spec fn view(&self) -> ImageView<T> {
        ImageView {
            width: self.width as nat,
            height: self.height as nat,
            depth: self.depth as nat,
            data: self.data@,
        }
    }
}

impl<T> Image<T> {
    /// The invariant of every image: the length of `data` is
    /// `width * height * depth`.
    pub open spec fn well_formed(&self) -> bool {
        self@.well_formed()
    }
}

/// Puts a shape and the samples that fill it together.
pub fn new_image<T>(width: usize, height: usize, depth: usize, data: Vec<T>) -> (image: Image<T>)
    requires
        data@.len() == width * height * depth,
    ensures
        image.well_formed(),
        image@ == (ImageView {
            width: width as nat,
            height: height as nat,
            depth: depth as nat,
            data: data@,
        }),
{
    Image { width, height, depth, data }
}

/// How a load ended. `F` is the type of one sample of a high-dynamic-range
/// image; samples are moved, never inspected, so the choice is the caller's.
#[derive(Debug, PartialEq)]
pub enum LoadResult<F> {
    Error(String),
    ImageU8(Image<u8>),
    ImageF32(Image<F>),
}

/// What a [`LoadResult`] holds, as mathematics.
pub enum LoadResultView<F> {
    Error(Seq<char>),
    ImageU8(ImageView<u8>),
    ImageF32(ImageView<F>),
}

impl<F> LoadResultView<F> {
    /// An image, where there is one, satisfies the invariant of images.
    pub open spec fn well_formed(self) -> bool {
        match self {
            LoadResultView::Error(_) => true,
            LoadResultView::ImageU8(image) => image.well_formed(),
            LoadResultView::ImageF32(image) => image.well_formed(),
        }
    }
}

impl<F> View for LoadResult<F> {
    type V = LoadResultView<F>;

    open spec fn view(&self) -> LoadResultView<F> {
        match self {
            LoadResult::Error(message) => LoadResultView::Error(message@),
            LoadResult::ImageU8(image) => LoadResultView::ImageU8(image@),
            LoadResult::ImageF32(image) => LoadResultView::ImageF32(image@),
        }
    }
}

impl<F> LoadResult<F> {
    /// An image, where there is one, satisfies the invariant of images.
    pub open spec fn well_formed(&self) -> bool {
        self@.well_formed()
    }
}

} // verus!
