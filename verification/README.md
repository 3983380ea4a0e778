# divergence_classes

Known classes of input on which the SQL-injection and XSS detectors disagree
with the C library they are measured against, and the verified matching that
decides whether an input falls in one of them.

- `src/ascii.rs`: ASCII case-insensitive substring search over bytes.
- `src/divergence.rs`: `KnownDivergence`, the two (empty) class lists,
  `known_class` for text input and `is_known_divergence` for raw bytes.
- `src/laws.rs`: properties proved of the classification (case is ignored,
  instances of a class are recognised, an empty marker takes in every
  input, the first class is unique, adding
  classes keeps what was known, empty lists excuse nothing).
