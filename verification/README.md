# dateparser

Reads date and time strings written in many common formats (unix timestamps,
RFC 3339 and 2822, `yyyy-mm-dd hh:mm:ss z`, `May 6 at 9:24 PM`, `12 Feb 2006,
19:17`, `8/4/2014 22:05`, `2014年04月08日`, ...) into instants, with the
behaviour of every format stated as a contract and proved with Verus.

- `src/pattern.rs`: the shape language and its matcher (leftmost-first
  priority), proved right and complete against the declarative reading.
- `src/shapes.rs`: the shape of each accepted format.
- `src/text.rs`: replacing, suffix removal, trimming and decimal numbers.
- `src/timezone.rs`: reading zone names and `[+-]hh[:]mm` offsets.
- `src/calendar.rs`: plain values for dates, times, instants and zones.
- `src/chrono_bridge.rs`: the calls into `chrono`; what a format reads is
  named, how a fixed offset moves between wall clock and instant is stated.
- `src/datetime.rs`: `Parse`, each format and the fixed order in which they
  are tried.
- `src/laws.rs`: properties that hold across inputs, clocks and parsers.
- `app/lib.rs`: the parser with `chrono` values and `anyhow` errors.
