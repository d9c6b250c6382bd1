//! The canvas: solid white, with the scaled image laid on it.

use crate::error::ErrorKind;
use crate::geometry::Geometry;
use crate::raster::{
    lemma_index_bound,
    lemma_index_of,
    Raster,
    RasterView,
    WHITE,
};
use vstd::prelude::*;

verus! {

/// The pixel at column `x` of row `y` of the canvas is covered by an image of
/// `image`'s size whose first pixel lies at `(offset_x, offset_y)`.
pub open spec fn covered(offset_x: int, offset_y: int, image: RasterView, x: int, y: int) -> bool {
    offset_x <= x < offset_x + image.width && offset_y <= y < offset_y + image.height
}

/// Sample `c` of the canvas at column `x` of row `y`: the image's sample
/// where the image lies, white elsewhere.
pub open spec fn canvas_sample(
    offset_x: int,
    offset_y: int,
    image: RasterView,
    x: int,
    y: int,
    c: int,
) -> u8 {
    if covered(offset_x, offset_y, image, x, y) {
        image.sample(x - offset_x, y - offset_y, c)
    } else {
        WHITE
    }
}

/// A white canvas of `width` by `height` pixels with `image` copied onto it,
/// its first pixel at `(offset_x, offset_y)`.  The image replaces what it
/// covers, alpha included.
pub open spec fn composited(
    width: nat,
    height: nat,
    offset_x: int,
    offset_y: int,
    image: RasterView,
) -> RasterView {
    RasterView {
        width,
        height,
        data: Seq::new(
            4 * width * height,
            |i: int|
                canvas_sample(
                    offset_x,
                    offset_y,
                    image,
                    (i / 4) % (width as int),
                    (i / 4) / (width as int),
                    i % 4,
                ),
        ),
    }
}

/// The canvas for an image placed at `(offset_x, offset_y)`, or the refusal
/// of an image that would reach beyond the canvas.
pub open spec fn compose_spec(
    width: nat,
    height: nat,
    offset_x: int,
    offset_y: int,
    image: RasterView,
) -> Result<RasterView, ErrorKind> {
    if offset_x + image.width > width || offset_y + image.height > height {
        Err(ErrorKind::CompositionError)
    } else {
        Ok(composited(width, height, offset_x, offset_y, image))
    }
}

/// The canvas has exactly the size asked for; every pixel that the image
/// does not cover is white and opaque, and every pixel that it covers is the
/// image's.
pub proof fn lemma_canvas_pixels(
    width: nat,
    height: nat,
    offset_x: int,
    offset_y: int,
    image: RasterView,
)
    ensures
        ({
            let canvas = composited(width, height, offset_x, offset_y, image);
            &&& canvas.width == width
            &&& canvas.height == height
            &&& canvas.wf()
            &&& forall|x: int, y: int, c: int|
                canvas.contains(x, y) && 0 <= c < 4 ==> #[trigger] canvas.sample(x, y, c)
                    == canvas_sample(offset_x, offset_y, image, x, y, c)
            &&& forall|x: int, y: int, c: int|
                canvas.contains(x, y) && 0 <= c < 4 && !covered(offset_x, offset_y, image, x, y)
                    ==> #[trigger] canvas.sample(x, y, c) == WHITE
        }),
{
    let canvas = composited(width, height, offset_x, offset_y, image);
    assert forall|x: int, y: int, c: int| canvas.contains(x, y) && 0 <= c < 4 implies #[trigger]
        canvas.sample(x, y, c) == canvas_sample(offset_x, offset_y, image, x, y, c) by {
        lemma_index_of(width as int, x, y, c);
        lemma_index_bound(width as int, height as int, x, y, c);
    }
}

/// Lays `image` on a white canvas of `target_width` by `target_height`
/// pixels, its first pixel at the offsets of `geometry`.  Neither argument is
/// changed.  The size and place that count are those of `image` itself: an
/// image that would reach beyond the canvas is refused.
pub fn compose(target_width: u32, target_height: u32, geometry: &Geometry, image: &Raster) -> (r:
    Result<Raster, ErrorKind>)
    requires
        4 * target_width * target_height <= usize::MAX,
    ensures
        match r {
            Ok(canvas) => compose_spec(
                target_width as nat,
                target_height as nat,
                geometry.offset_x as int,
                geometry.offset_y as int,
                image@,
            ) == Ok::<RasterView, ErrorKind>(canvas@),
            Err(e) => compose_spec(
                target_width as nat,
                target_height as nat,
                geometry.offset_x as int,
                geometry.offset_y as int,
                image@,
            ) == Err::<RasterView, ErrorKind>(e),
        },
{
    let offset_x: u32 = geometry.offset_x;
    let offset_y: u32 = geometry.offset_y;
    let image_width: u32 = image.width();
    let image_height: u32 = image.height();
    let source: &Vec<u8> = image.as_raw();
    let source_len: usize = source.len();
    if offset_x as u64 + image_width as u64 > target_width as u64 || offset_y as u64
        + image_height as u64 > target_height as u64 {
        return Err(ErrorKind::CompositionError);
    }
    let ghost goal = composited(
        target_width as nat,
        target_height as nat,
        offset_x as int,
        offset_y as int,
        image@,
    );
    let tw: usize = target_width as usize;
    let iw: usize = image_width as usize;
    let mut data: Vec<u8> = Vec::new();
    let mut y: u32 = 0;
    while y < target_height
        invariant
            y <= target_height,
            4 * target_width * target_height <= usize::MAX,
            tw == target_width,
            iw == image_width,
            image_width == image@.width,
            image_height == image@.height,
            source@ == image@.data,
            source@.len() == source_len,
            image@.wf(),
            offset_x + image_width <= target_width,
            offset_y + image_height <= target_height,
            goal == composited(
                target_width as nat,
                target_height as nat,
                offset_x as int,
                offset_y as int,
                image@,
            ),
            data@.len() == 4 * (y * target_width),
            forall|i: int| 0 <= i < data@.len() ==> data@[i] == goal.data[i],
        decreases target_height - y,
    {
        let mut x: u32 = 0;
        while x < target_width
            invariant
                x <= target_width,
                y < target_height,
                4 * target_width * target_height <= usize::MAX,
                tw == target_width,
                iw == image_width,
                image_width == image@.width,
                image_height == image@.height,
                source@ == image@.data,
                source@.len() == source_len,
                image@.wf(),
                offset_x + image_width <= target_width,
                offset_y + image_height <= target_height,
                goal == composited(
                    target_width as nat,
                    target_height as nat,
                    offset_x as int,
                    offset_y as int,
                    image@,
                ),
                data@.len() == 4 * (y * target_width + x),
                forall|i: int| 0 <= i < data@.len() ==> data@[i] == goal.data[i],
            decreases target_width - x,
        {
            let inside: bool = x >= offset_x && x - offset_x < image_width && y >= offset_y && y
                - offset_y < image_height;
            proof {
                lemma_index_bound(target_width as int, target_height as int, x as int, y as int, 0);
                lemma_index_of(target_width as int, x as int, y as int, 0);
                lemma_index_of(target_width as int, x as int, y as int, 1);
                lemma_index_of(target_width as int, x as int, y as int, 2);
                lemma_index_of(target_width as int, x as int, y as int, 3);
                assert(inside == covered(offset_x as int, offset_y as int, image@, x as int, y as int));
            }
            if inside {
                proof {
                    lemma_index_bound(
                        image_width as int,
                        image_height as int,
                        x - offset_x,
                        y - offset_y,
                        0,
                    );
                    assert(0 <= (y - offset_y) * image_width) by (nonlinear_arith)
                        requires
                            0 <= y - offset_y,
                            0 <= image_width,
                    ;
                    assert(source@.len() == 4 * image_width * image_height);
                }
                let from: usize = 4 * ((y - offset_y) as usize * iw + (x - offset_x) as usize);
                data.push(source[from]);
                data.push(source[from + 1]);
                data.push(source[from + 2]);
                data.push(source[from + 3]);
            } else {
                data.push(WHITE);
                data.push(WHITE);
                data.push(WHITE);
                data.push(WHITE);
            }
            x = x + 1;
        }
        proof {
            assert(4 * (y * target_width + target_width) == 4 * ((y + 1) * target_width))
                by (nonlinear_arith);
        }
        y = y + 1;
    }
    proof {
        assert(4 * (target_height * target_width) == 4 * target_width * target_height)
            by (nonlinear_arith);
        assert(data@ =~= goal.data);
    }
    Ok(Raster::assemble(target_width, target_height, data))
}

} // verus!
