# apple_mail

Apple Mail automation through AppleScript, as a Verus-verified library and a
small command-line program.

- `src/` (verified): the AppleScript program of each operation (`script.rs`,
  with the fixed text in `templates.rs`), what each operation makes of the
  script's output (`reply.rs`), the operations themselves, which have a
  caller-supplied `Runner` run their script once (`mail.rs`, `runner.rs`), the planning of MIME
  part extraction over mailparse's parse (`mime.rs`), and the text and numeral
  utilities they rest on (`text.rs`, `number.rs`).
- `app/`: the `apple-mail` command: runs scripts with `osascript`, writes
  files, parses arguments and prints results.
