# astaprint

The core of a university print service, written in Verus: users upload PDF
documents, which become jobs with print options, and send them to printers
whose page counters are read to charge their credit.

## Layout

- `src/` — the verified library.
  - `jobs/` — jobs, their description and options, page ranges (reading,
    writing in normal form, and the laws that tie the two), the printer job
    language header and the date and time it is dated with, the upload and
    dispatch decisions.
  - `printers/` — accounting of a print session, the decisions of a printer
    worker, the printer queue requests, SNMP counters and printer details.
  - `pagerange.rs` — the range check of the printer stream.
  - `journal.rs`, `register.rs`, `logger.rs`, `manager.rs` — smaller services.
  - `text.rs` — digits, splitting, trimming and hexadecimal text, with their
    specifications.
  - `external.rs` — the calls into std, `hex` and `chrono` (writing a date
    and time) that the proofs rest on, each with the contract it is
    trusted to meet.
- `tests/` — tests of the library on concrete values.
- `app/` — what runs around the library: reading the clock, the `log` logger, the serde and
  bincode forms of the types, temporary files, the PDF tools, and the loops
  of the printer workers and the dispatcher, and the queue, registration
  and token requests, over traits for their I/O.
