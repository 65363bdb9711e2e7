# dot15d4

Reading and writing IEEE 802.15.4 MAC frames, and the decisions of a
CSMA-CA medium access layer, with every function's behaviour stated in a
contract and proved with Verus.

## Layout

- `src/` — the verified library.
  - `frame_control`, `addressing`, `aux_sec_header`: the fixed fields of a
    frame, readers and writers.
  - `ie`: Header, Payload and nested Information Elements, and the TSCH
    elements.
  - `frames`: whole frames (Data, Acknowledgment, Enhanced Acknowledgment,
    Beacon, Enhanced Beacon), the frame kinds and the Frame Check Sequence.
  - `repr`: high-level representations that are parsed from the readers and
    emitted into buffers, the frame builder, and the laws that reading back
    what was written gives the representation back (`repr::ie::roundtrip`,
    `repr::frame_roundtrip`).
  - `csma`: which frames are handed up and acknowledged, which request an
    acknowledgment, how long to wait for it and when to retry.
  - `text`: the textual form of addresses.
  - `time`: durations and instants in microseconds.
- `tests/` — tests run against the compiled library.
- `app/` — `dot15d4-cat`, which prints the fields of a frame given in
  hexadecimal.

## Usage

```sh
dot15d4-cat 40ebcdabffff0100010001000100003f1188061a0e0000000000011c0001c800011b00
```
