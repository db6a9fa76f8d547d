# nmeagc

A terminal client for GNSS receivers: it reads NMEA sentences from a TCP
stream, a serial port or a file, and shows the tracked signals, the sky plot
and the raw sentences.

The decisions of the client are a library verified with Verus (`src/`):

- `cli`: the command line: the crate's own grammar of its options and sources,
  with an exact specification of what it accepts and of the kind of each
  refusal (the help, version and error texts are rendered by clap in `app/`);
- `source_setup`, `setup`: the interactive configuration of the source, as
  state machines driven by key events;
- `app`: tab navigation, key handling, and the bounded log of raw sentences
  (kept in a `circular_buffer::FixedCircularBuffer`);
- `nmea`: classification of each line after the `nmea` crate has parsed it;
- `signals`: the counts of tracked and used satellites and signals (over a
  `HashMap`), and the grouping of signals by satellite for the bar chart (over
  a `BTreeMap`);
- `gnss`, `text`, `layout`, `input`: constellations and signal codes,
  string helpers and decimal numbers, screen arithmetic, key events.

`app/` is the program around the library: the clap declaration of the
command line (for its texts), terminal setup, event threads,
opening the source, and drawing with `ratatui`.
