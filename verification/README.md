# unreal_asset_base (usmap property types)

The property type trees of Unreal Engine usmap mapping files, read from and
written to their byte encoding, verified with Verus.

- `src/unversioned/properties/format.rs`: the byte grammar as spec functions
  (`parse_property`, `parse_after_tag`, `serialize_property`) over
  `PropertyModel`, the mathematical value of a property type.
- `src/unversioned/properties/laws.rs`: what holds of the grammar as a whole
  (reading and writing undo each other, reading never looks past what it
  consumes).
- `src/unversioned/properties/*_property.rs`: the property data types, each
  with `new` (read), `write` and `get_property_type`, proved against the
  grammar.
- `src/unversioned/usmap_reader.rs`, `usmap_writer.rs`: byte reader and
  writer with their name maps.
- `src/byte_io.rs`: little-endian integers and the byteorder calls behind
  them.
