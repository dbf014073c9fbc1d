use vstd::prelude::*;

verus! {

/// Smallest valid latitude, in millionths of a degree.
pub const MIN_LATITUDE: i32 = -90_000_000;

/// Largest valid latitude, in millionths of a degree.
pub const MAX_LATITUDE: i32 = 90_000_000;

/// Smallest valid longitude, in millionths of a degree.
pub const MIN_LONGITUDE: i32 = -180_000_000;

/// Largest valid longitude, in millionths of a degree.
pub const MAX_LONGITUDE: i32 = 180_000_000;

/// A latitude in millionths of a degree, positive to the north.
#[derive(Clone, Copy, Debug, PartialEq, Eq, Structural)]
pub struct Latitude(pub i32);

/// A longitude in millionths of a degree, positive to the east.
#[derive(Clone, Copy, Debug, PartialEq, Eq, Structural)]
pub struct Longitude(pub i32);

/// Why a geographic component was rejected.
#[derive(Clone, Copy, Debug, PartialEq, Eq, Structural)]
pub enum GeographicRangeError {
    /// The latitude lies outside [-90, 90] degrees.
    LatitudeOutOfRange,
    /// The longitude lies outside [-180, 180] degrees.
    LongitudeOutOfRange,
}

impl Latitude {
    pub open spec fn is_valid(self) -> bool {
        MIN_LATITUDE <= self.0 <= MAX_LATITUDE
    }

    /// A latitude of `micro_degrees` millionths of a degree, rejected
    /// outside [-90, 90] degrees.
    pub fn new(micro_degrees: i32) -> (r: Result<Latitude, GeographicRangeError>)
        ensures
            MIN_LATITUDE <= micro_degrees <= MAX_LATITUDE ==> r == Ok::<Latitude, GeographicRangeError>(Latitude(micro_degrees)),
            !(MIN_LATITUDE <= micro_degrees <= MAX_LATITUDE) ==> r == Err::<Latitude, GeographicRangeError>(GeographicRangeError::LatitudeOutOfRange),
    {
        if MIN_LATITUDE <= micro_degrees && micro_degrees <= MAX_LATITUDE {
            Ok(Latitude(micro_degrees))
        } else {
            Err(GeographicRangeError::LatitudeOutOfRange)
        }
    }
}

impl Longitude {
    pub open spec fn is_valid(self) -> bool {
        MIN_LONGITUDE <= self.0 <= MAX_LONGITUDE
    }

    /// A longitude of `micro_degrees` millionths of a degree, rejected
    /// outside [-180, 180] degrees.
    pub fn new(micro_degrees: i32) -> (r: Result<Longitude, GeographicRangeError>)
        ensures
            MIN_LONGITUDE <= micro_degrees <= MAX_LONGITUDE ==> r == Ok::<Longitude, GeographicRangeError>(Longitude(micro_degrees)),
            !(MIN_LONGITUDE <= micro_degrees <= MAX_LONGITUDE) ==> r == Err::<Longitude, GeographicRangeError>(GeographicRangeError::LongitudeOutOfRange),
    {
        if MIN_LONGITUDE <= micro_degrees && micro_degrees <= MAX_LONGITUDE {
            Ok(Longitude(micro_degrees))
        } else {
            Err(GeographicRangeError::LongitudeOutOfRange)
        }
    }
}

/// A point on the globe.
#[derive(Clone, Copy, Debug, PartialEq, Eq, Structural)]
pub struct LatLon {
    pub latitude: Latitude,
    pub longitude: Longitude,
}

impl LatLon {
    pub open spec fn is_valid(self) -> bool {
        self.latitude.is_valid() && self.longitude.is_valid()
    }

    /// The point at the given latitude and longitude, in millionths of a
    /// degree; the latitude is checked first.
    pub fn new(latitude: i32, longitude: i32) -> (r: Result<LatLon, GeographicRangeError>)
        ensures
            !(MIN_LATITUDE <= latitude <= MAX_LATITUDE) ==> r == Err::<LatLon, GeographicRangeError>(GeographicRangeError::LatitudeOutOfRange),
            (MIN_LATITUDE <= latitude <= MAX_LATITUDE && !(MIN_LONGITUDE <= longitude <= MAX_LONGITUDE))
                ==> r == Err::<LatLon, GeographicRangeError>(GeographicRangeError::LongitudeOutOfRange),
            (MIN_LATITUDE <= latitude <= MAX_LATITUDE && MIN_LONGITUDE <= longitude <= MAX_LONGITUDE)
                ==> r == Ok::<LatLon, GeographicRangeError>(LatLon { latitude: Latitude(latitude), longitude: Longitude(longitude) }),
    {
        let latitude = match Latitude::new(latitude) {
            Ok(l) => l,
            Err(e) => return Err(e),
        };
        let longitude = match Longitude::new(longitude) {
            Ok(l) => l,
            Err(e) => return Err(e),
        };
        Ok(LatLon { latitude, longitude })
    }
}

/// The point at `latitude` and `longitude`, in millionths of a degree.
pub open spec fn lat_lon(latitude: int, longitude: int) -> LatLon {
    LatLon { latitude: Latitude(latitude as i32), longitude: Longitude(longitude as i32) }
}

/// An axis-aligned rectangle on the globe, from its south-west corner to its
/// north-east corner.
#[derive(Clone, Copy, Debug, PartialEq, Eq, Structural)]
pub struct LatLonRect {
    pub south_west: LatLon,
    pub north_east: LatLon,
}

/// An ordered, closed sequence of vertices; consecutive vertices, and the
/// last and the first, are joined by edges.
#[derive(Debug)]
pub struct Polygon<T> {
    points: Vec<T>,
}

impl<T> View for Polygon<T> {
    type V = Seq<T>;

    closed spec fn view(&self) -> Seq<T> {
        self.points@
    }
}

impl<T> Polygon<T> {
    /// The polygon with the given vertices, in order.
    pub fn new(points: Vec<T>) -> (r: Polygon<T>)
        ensures
            r@ == points@,
    {
        Polygon { points }
    }

    /// The vertices, in order.
    pub fn points(&self) -> (r: &[T])
        ensures
            r@ == self@,
    {
        self.points.as_slice()
    }

    /// The number of vertices.
    pub fn vertex_count(&self) -> (r: usize)
        ensures
            r == self@.len(),
    {
        self.points.len()
    }
}

} // verus!
