# tmc_langs

A Verus library for a slice of the TestMyCode language tooling:

- `src/response.rs`: the responses of tmc-server as plain data, and the
  conversion of a course details response into `CourseDetails`.
- `src/feedback.rs`: the kinds of feedback questions and their text form
  (`text`, `intrange[x..y]`): writing it, and reading it with the `regex`
  crate, with proofs that distinct kinds have distinct texts, that a text other
  than `text` is read only where the range pattern matches it as a whole and
  both captured bounds read as `usize`, and that a text reads back as the kind
  it was written from, given that the range pattern captures its two bounds
  (what the regex crate matches is named, not proved).
- `src/decimal.rs`: decimal text of unsigned integers, written as `Display`
  writes it and read as `usize::from_str` reads it, proved against a
  specification of both.
- `src/notests.rs`: the plugin for exercises without tests, deciding from the
  `no-tests` setting of a project whether an exercise is one and what it is
  worth.
- `src/error.rs`: parameter errors and their messages.

`app/` holds what Verus does not see: reading `.tmcproject.yml` from disk,
and copies of the response types that carry serde, schemars and thiserror
derives, converting to and from the library's types.
