# dms_coordinates

D°M'S'' (degrees, minutes, seconds) angles and compass bearings for
navigation.

- `src/` is the verified library: `Bearing` and its hemisphere
  predicates, and `DMS<S>`, an angle whose seconds are of any type `S`, with
  the azimuth conversions and the degree/minute arithmetic of sums and
  differences. Laws relating these functions are proof functions next to them.
- `app/` holds what computes in floating point or does I/O: decimal degree
  conversions, distances and azimuths between points, cartesian coordinates,
  GPX files, and serializable copies of the library's types with `f64`
  seconds.
- `tests/` exercises the library on concrete values.
