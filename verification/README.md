# iso_286

ISO 286 limits and fits, verified with Verus: the upper and lower deviations of a tolerance
class such as `H7` or `js4` at a nominal size, the preferred classes closest to a given class,
and the classes closest to a wanted tolerance, with the nominal size held or free to move
on a grid of decimal places.

The library works in whole nanometres, so every comparison is exact.

- `src/tables.rs` the ISO 286 tables and the spellings of letters and grades
- `src/class.rs` reading and writing class names
- `src/deviation.rs` the rules that turn the tables into limits
- `src/bracket.rs` the nominal size brackets over which every table is constant
- `src/fit.rs` the distance between two bands, and the best placement of one on the size grid
- `src/rank.rs` keeping the best few of a pool under a total order
- `src/closest.rs` the search for the closest classes
- `src/lookup.rs` the public functions, with the laws that relate them
- `src/preferred_limits.rs` the limits of the preferred classes bracket by bracket, which show that no two of one side coincide
- `app/` the millimetre facade over the library and its WebAssembly bindings
