# rs162

An AIS (Automatic Identification System) receiver library: it demodulates
AIS frames from radio samples, parses NMEA AIVDM/AIVDO sentences, assembles
multi-fragment messages and decodes the binary messages of types 1 to 27.

The library in `src/` is verified with Verus:

- `decode::nmea`: sentence parsing, checksum, payload de-armoring and the
  fragment assembler; `decode::assembly` proves that fragments may arrive in
  any order, with other messages' sentences between them, and
  `decode::payload` that de-armoring gives the payload's bits up to the fill
  bits.
- `decode::ais`: the bit reader and the decoders of every message type, with
  the dispatch on the type field; fields are kept in the integer units of the
  message formats.
- `decode::mmsi`: what an MMSI identifies (station kind and flag state).
- `dsp::ais`: the frame decoder (NRZI, HDLC flags, bit unstuffing, CRC), the
  encoding of received messages as NMEA sentences; `dsp::hdlc` proves that a
  frame as a transmitter sends it is decoded to its message, and
  `dsp::roundtrip` that the NMEA encoding of a message decodes back to it.
- `dsp::scatter`, `dsp::rates`: distribution of samples over timing phases,
  and the choice of resampling to 96 kHz.
- `sources`: the decisions taken on each line of an NMEA or timestamped NMEA
  stream, and the packed time of arrival of vessel metadata.

`app/` holds what Verus does not check: reading files, sockets and SDR
devices, the floating-point signal chain, float forms of the fields, and JSON
output. `tests/` runs the library on recorded sentences and frames.
