# imago_file

Use a plain file or a host block device as storage.

The library (`src/`) makes the decisions and touches no file: how a request is split into calls and
what an answer of the system means (`read`, `write`, `seek`), how a range is discarded (`discard`),
which alignments a file demands (`probe`, `setup`, `align`), and what is known of a file (`file`,
`path`).  Its functions are proved against their contracts with Verus.  What follows from the
decisions as a whole is proved in `contents`, `discard`, `probe_laws`, `transfer_laws` and
`seek_laws`: a read gives what the file holds and zeroes beyond its end; what was written is read
back; a discarded range reads as zeroes, and the known size remains the length of the file; a probe
ends and leaves the file as it is; and where a file demands alignments that are powers of two within
what is tried, a probe ends with alignments that the file accepts.

`app/` performs the accesses that the library asks for.
