# virtuoso

Scoring-machine software for a fencing piste. The library (`src/`) holds
the logic, verified with Verus; the program (`app/`) runs the modules in
threads and does the input and output.

- `match_info`: the state of the bout that every module shares.
- `console_backend`: the `set <field> <value>` / `get <field>` console
  language, over `chars` (whitespace, trimming, words, numbers) and `text`
  (numerals and `|`-separated records).
- `cyrano_server`: the Cyrano protocol: requests from the scoring software,
  `INFO` messages, change detection and the online state.
- `legacy_backend`: frames of the legacy scoring box's serial line and what
  they do to the bout; the infrared remote's buttons; `rc5` decodes the
  remote from the receiver's edges; `gpio` maps header pins to GPIO lines.
- `slint_frontend`: what the display shows and when it refreshes.
