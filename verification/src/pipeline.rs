//! One image from source file to output file, both in memory.

use crate::canvas::{compose, compose_spec, composited};
use crate::codec::{
    can_resize,
    check_resize,
    decode,
    decode_spec,
    encode,
    encode_spec,
    file_matches,
    resize,
    resized,
    Format,
};
use crate::config::Config;
use crate::error::ErrorKind;
use crate::geometry::{compute_geometry, geometry_spec, lemma_geometry_fits, Geometry};
use crate::naming::{
    output_format,
    output_format_of,
    source_format,
    source_format_of,
    utf8,
    ImageTask,
};
use crate::raster::{Raster, RasterView};
use vstd::prelude::*;

verus! {

/// The rendering of `source` can be done here: the resampler takes its sides
/// and those of the scaled image, and this machine can hold the resampler's
/// buffers and the canvas.
pub open spec fn can_render(source: RasterView, geometry: Geometry, config: Config) -> bool {
    &&& can_resize(
        source.width,
        source.height,
        geometry.scaled_width as nat,
        geometry.scaled_height as nat,
    )
    &&& 4 * config.target_width * config.target_height <= usize::MAX
}

/// The canvas for `source` under `config`: the source resampled to the size
/// that `geometry` gives, laid on white at its offsets.
pub open spec fn canvas_of(source: RasterView, geometry: Geometry, config: Config) -> RasterView {
    composited(
        config.target_width as nat,
        config.target_height as nat,
        geometry.offset_x as int,
        geometry.offset_y as int,
        resized(source, geometry.scaled_width as nat, geometry.scaled_height as nat),
    )
}

/// The output file for a decoded source, or the reason why there is none.
/// The geometry comes first and may refuse the source or the parameters; then
/// the sizes are held against the machine; then the canvas is made and
/// encoded.
pub open spec fn render_spec(source: RasterView, format: Format, config: Config) -> Result<
    Seq<u8>,
    ErrorKind,
> {
    match geometry_spec(source.width as u32, source.height as u32, config) {
        Err(e) => Err(e),
        Ok(geometry) => if !can_render(source, geometry, config) {
            Err(ErrorKind::TooLarge)
        } else {
            encode_spec(canvas_of(source, geometry, config), format, config.encode_quality)
        },
    }
}

/// Rendering never fails in composition: the geometry that is computed
/// places the scaled image within the canvas.
pub proof fn lemma_render_composes(source: RasterView, config: Config)
    requires
        geometry_spec(source.width as u32, source.height as u32, config) is Ok,
    ensures
        ({
            let g = geometry_spec(source.width as u32, source.height as u32, config)->Ok_0;
            compose_spec(
                config.target_width as nat,
                config.target_height as nat,
                g.offset_x as int,
                g.offset_y as int,
                resized(source, g.scaled_width as nat, g.scaled_height as nat),
            ) == Ok::<RasterView, ErrorKind>(canvas_of(source, g, config))
        }),
{
    lemma_geometry_fits(source.width as u32, source.height as u32, config);
}

/// Tells whether a canvas of this size can be addressed on this machine.
fn canvas_fits(target_width: u32, target_height: u32) -> (ok: bool)
    ensures
        ok == (4 * target_width * target_height <= usize::MAX),
{
    assert(4 * target_width * target_height == 4 * (target_width * target_height) && 0
        <= target_width * target_height <= 0xffff_ffff_0000_0000) by (nonlinear_arith)
        requires
            0 <= target_width <= 0xffff_ffff,
            0 <= target_height <= 0xffff_ffff,
    ;
    4 * (target_width as u128 * target_height as u128) <= usize::MAX as u128
}

/// Renders a decoded source: computes its geometry, resamples it, lays it on
/// the white canvas and encodes the canvas in the given format.
pub fn render(source: &Raster, format: Format, config: &Config) -> (r: Result<Vec<u8>, ErrorKind>)
    ensures
        file_matches(r, render_spec(source@, format, *config)),
{
    let geometry = match compute_geometry(source.width(), source.height(), config) {
        Ok(geometry) => geometry,
        Err(e) => {
            return Err(e);
        },
    };
    if !check_resize(source.width(), source.height(), geometry.scaled_width, geometry.scaled_height)
        || !canvas_fits(config.target_width, config.target_height) {
        return Err(ErrorKind::TooLarge);
    }
    let scaled = resize(source, geometry.scaled_width, geometry.scaled_height);
    proof {
        lemma_render_composes(source@, *config);
    }
    match compose(config.target_width, config.target_height, &geometry, &scaled) {
        Ok(canvas) => encode(&canvas, format, config.encode_quality),
        Err(e) => Err(e),
    }
}

/// The output file for a source file, or the reason why there is none.  A
/// name that is neither PNG nor JPEG is refused as undecodable, and so is a
/// file that does not decode in the format of its name.  An image that decodes
/// is rendered in the format of the output name.
pub open spec fn process_spec(
    input: Seq<u8>,
    input_name: Seq<u8>,
    output_name: Seq<u8>,
    config: Config,
) -> Result<Seq<u8>, ErrorKind> {
    match source_format_of(input_name) {
        None => Err(ErrorKind::DecodeError),
        Some(format) => match decode_spec(input, format) {
            Err(e) => Err(e),
            Ok(source) => render_spec(source, output_format_of(output_name), config),
        },
    }
}

/// Processes one source file held in memory: decodes it in the format of its
/// name, renders it, and returns the output file in the format of the output
/// name.
pub fn process_image(input: &[u8], task: &ImageTask, config: &Config) -> (r: Result<
    Vec<u8>,
    ErrorKind,
>)
    ensures
        file_matches(
            r,
            process_spec(input@, utf8(task.input_name@), utf8(task.output_name@), *config),
        ),
{
    let format = match source_format(task.input_name.as_str()) {
        Some(format) => format,
        None => {
            return Err(ErrorKind::DecodeError);
        },
    };
    let source = match decode(input, format) {
        Ok(source) => source,
        Err(e) => {
            return Err(e);
        },
    };
    render(&source, output_format(task.output_name.as_str()), config)
}

} // verus!
