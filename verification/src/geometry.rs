//! The polyline decoder: an encoded coordinate string becomes an ordered
//! coordinate sequence and its bounding rectangle.
//!
//! The decoding itself and the bounding rectangle are the work of the
//! `polyline` and `geo` crates. What this module states of them is not
//! proved; everything else here is.

use vstd::prelude::*;
use geo::BoundingRect;
use crate::models::{BoundingBox, GeographicCoordinate, ParsingError, ParsingErrorView};
use crate::scalar::Double;

verus! {

/// The largest precision at which a polyline can be decoded: the scale
/// `10^precision` has to fit in 32 bits.
pub const MAX_POLYLINE_PRECISION: u32 = 9;

/// A decoded line string, as the geometry crates hold it.
///
/// Its coordinates are double-precision numbers, which Verus does not see:
/// [`line_coordinates`] names them by their bit patterns.
#[verifier::external_body]
pub struct LineString {
    line: geo::LineString,
}

/// The coordinates that a line string holds, in order.
pub uninterp spec fn line_coordinates(line: LineString) -> Seq<GeographicCoordinate>;

/// What `polyline::decode_polyline` makes of an encoded string at a
/// precision: the decoded coordinates, or the text of its error.
pub uninterp spec fn polyline_decoding(encoded: Seq<char>, precision: u32) -> Result<
    Seq<GeographicCoordinate>,
    Seq<char>,
>;

/// What `geo::BoundingRect::bounding_rect` makes of a line string with the
/// given coordinates.
pub uninterp spec fn bounding_rect_of(coordinates: Seq<GeographicCoordinate>) -> Option<
    BoundingBox,
>;

/// Calls `polyline::decode_polyline`.
///
/// Trusted: the result is a function of the string and the precision alone,
/// named by [`polyline_decoding`]; on failure the text is what the error
/// displays. The precision is bounded because the decoder computes
/// `10^precision` in 32 bits.
#[verifier::external_body]
fn decode_line(encoded: &str, precision: u32) -> (r: Result<LineString, String>)
    requires
        precision <= MAX_POLYLINE_PRECISION,
    ensures
        match r {
            Ok(line) => polyline_decoding(encoded@, precision) == Ok::<
                Seq<GeographicCoordinate>,
                Seq<char>,
            >(line_coordinates(line)),
            Err(text) => polyline_decoding(encoded@, precision) == Err::<
                Seq<GeographicCoordinate>,
                Seq<char>,
            >(text@),
        },
{
    match polyline::decode_polyline(encoded, precision) {
        Ok(line) => Ok(LineString { line }),
        Err(error) => Err(error.to_string()),
    }
}

/// Hands out the coordinates of a line string (`geo::LineString::coords`),
/// latitude from `y` and longitude from `x`.
///
/// Trusted: the result holds exactly the coordinates that
/// [`line_coordinates`] names.
#[verifier::external_body]
fn line_points(line: &LineString) -> (points: Vec<GeographicCoordinate>)
    ensures
        points@ == line_coordinates(*line),
{
    line.line.coords().map(|c| GeographicCoordinate {
        lat: Double { bits: c.y.to_bits() },
        lng: Double { bits: c.x.to_bits() },
    }).collect()
}

/// Calls `geo::BoundingRect::bounding_rect` on a line string.
///
/// Trusted: the result is a function of the coordinates alone, named by
/// [`bounding_rect_of`], and there is a rectangle exactly when the line
/// string holds a coordinate. Its minimum becomes the south-west corner, its
/// maximum the north-east corner.
#[verifier::external_body]
fn line_bounds(line: &LineString) -> (bounds: Option<BoundingBox>)
    ensures
        bounds == bounding_rect_of(line_coordinates(*line)),
        bounds is Some <==> line_coordinates(*line).len() > 0,
{
    line.line.bounding_rect().map(|rect| BoundingBox {
        sw: GeographicCoordinate {
            lat: Double { bits: rect.min().y.to_bits() },
            lng: Double { bits: rect.min().x.to_bits() },
        },
        ne: GeographicCoordinate {
            lat: Double { bits: rect.max().y.to_bits() },
            lng: Double { bits: rect.max().x.to_bits() },
        },
    })
}

/// The text of the error for a precision above [`MAX_POLYLINE_PRECISION`].
pub open spec fn precision_error_text() -> Seq<char> {
    "Polyline precision is out of range"@
}

/// The text of the error for a polyline that holds no coordinate.
pub open spec fn bounding_box_error_text() -> Seq<char> {
    "Bounding box could not be calculated"@
}

/// The coordinates and the bounding rectangle of an encoded polyline, or
/// why there are none.
///
/// It fails where the precision is out of range, where the string cannot be
/// decoded, and where the decoded line holds no coordinate, in this order.
pub open spec fn decoded_geometry(encoded: Seq<char>, precision: u32) -> Result<
    (Seq<GeographicCoordinate>, BoundingBox),
    ParsingErrorView,
> {
    if precision > MAX_POLYLINE_PRECISION {
        Err(ParsingErrorView::InvalidGeometry { error: precision_error_text() })
    } else {
        match polyline_decoding(encoded, precision) {
            Err(text) => Err(ParsingErrorView::InvalidGeometry { error: text }),
            Ok(coordinates) => match bounding_rect_of(coordinates) {
                None => Err(ParsingErrorView::InvalidGeometry { error: bounding_box_error_text() }),
                Some(bbox) => Ok((coordinates, bbox)),
            },
        }
    }
}

/// What [`decode_geometry`] makes of a decoded line: its coordinates and
/// bounding rectangle, or the error for a line without coordinates.
pub open spec fn bounded_geometry(
    coordinates: Seq<GeographicCoordinate>,
    bounds: Option<BoundingBox>,
) -> Result<(Seq<GeographicCoordinate>, BoundingBox), ParsingErrorView> {
    match bounds {
        None => Err(ParsingErrorView::InvalidGeometry { error: bounding_box_error_text() }),
        Some(bbox) => Ok((coordinates, bbox)),
    }
}

/// The view of a decoding result.
pub open spec fn geometry_result_view(
    r: Result<(Vec<GeographicCoordinate>, BoundingBox), ParsingError>,
) -> Result<(Seq<GeographicCoordinate>, BoundingBox), ParsingErrorView> {
    match r {
        Ok((points, bbox)) => Ok((points@, bbox)),
        Err(e) => Err(e@),
    }
}

/// Pairs decoded coordinates with their bounding rectangle, and rejects a
/// line for which there is none.
pub fn with_bounds(points: Vec<GeographicCoordinate>, bounds: Option<BoundingBox>) -> (r: Result<
    (Vec<GeographicCoordinate>, BoundingBox),
    ParsingError,
>)
    ensures
        geometry_result_view(r) == bounded_geometry(points@, bounds),
{
    match bounds {
        Some(bbox) => Ok((points, bbox)),
        None => Err(
            ParsingError::InvalidGeometry {
                error: "Bounding box could not be calculated".to_owned(),
            },
        ),
    }
}

/// Decodes an encoded polyline at a precision into its coordinates and their
/// bounding rectangle.
pub fn decode_geometry(encoded: &str, precision: u32) -> (r: Result<
    (Vec<GeographicCoordinate>, BoundingBox),
    ParsingError,
>)
    ensures
        geometry_result_view(r) == decoded_geometry(encoded@, precision),
        r matches Ok((points, _)) ==> points@.len() > 0,
{
    if precision > MAX_POLYLINE_PRECISION {
        return Err(
            ParsingError::InvalidGeometry { error: "Polyline precision is out of range".to_owned() },
        );
    }
    match decode_line(encoded, precision) {
        Err(text) => Err(ParsingError::InvalidGeometry { error: text }),
        Ok(line) => {
            let bounds = line_bounds(&line);
            let points = line_points(&line);
            with_bounds(points, bounds)
        },
    }
}

/// Decodes an encoded polyline at a precision into its coordinates.
pub fn get_coordinates_from_geometry(encoded: &str, precision: u32) -> (r: Result<
    Vec<GeographicCoordinate>,
    ParsingError,
>)
    ensures
        match r {
            Ok(points) => decoded_geometry(encoded@, precision) matches Ok((coordinates, _))
                && points@ == coordinates,
            Err(e) => decoded_geometry(encoded@, precision) == Err::<
                (Seq<GeographicCoordinate>, BoundingBox),
                ParsingErrorView,
            >(e@),
        },
        r matches Ok(points) ==> points@.len() > 0,
{
    match decode_geometry(encoded, precision) {
        Ok((points, _)) => Ok(points),
        Err(e) => Err(e),
    }
}

} // verus!
