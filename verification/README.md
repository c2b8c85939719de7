# core_text

Font traits and font descriptors for Core Text, with their behaviour stated
and proved in Verus.

- `src/symbolic.rs`: the symbolic-trait bits of a font and their queries.
- `src/stylistic.rs`: the stylistic class code kept in the top four bits.
- `src/font_traits.rs`: reading the symbolic traits from the number that a
  traits dictionary records.
- `src/descriptor.rs`: a font descriptor seen through its string attributes,
  the names read from it, and the lines that describe it.
- `app/lib.rs`: the Core Text and Core Foundation calls that fetch those values
  from the operating system and hand them to the library.
